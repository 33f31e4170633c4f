//! Waiting, within a budget of attempts, until the daemon has indexed a
//! block height or a transaction.
//!
//! Each wait is a small machine in the manner of a launch: it asks for one
//! query or one pause at a time and is told what came of it. A wait that runs
//! out of attempts ends with [`Outcome::GaveUp`], which is no failure: the
//! thing waited for has not been seen yet.

use crate::controller::ElectrsD;
use vstd::prelude::*;

verus! {

/// The number of queries that a wait may make.
pub const WAIT_ATTEMPTS: u16 = 600;

/// The pause after a query that failed, in milliseconds.
pub const WAIT_INTERVAL_MS: u64 = 100;

/// The 32 bytes that identify a transaction.
pub type TxHash = [u8; 32];

/// How a wait ended.
#[derive(Debug, Clone, Copy, PartialEq, Eq, Structural)]
pub enum Outcome {
    /// The daemon showed what was waited for.
    Observed,
    /// The attempts ran out first.
    GaveUp,
}

/// One attempt fewer; none stays none.
pub open spec fn spent(left: u16) -> u16 {
    if left > 0 {
        (left - 1) as u16
    } else {
        0
    }
}

/// Where a wait for a block height stands.
#[derive(Debug, Clone, Copy, PartialEq, Eq, Structural)]
pub enum HeightPhase {
    /// Waiting to hear whether the daemon has the header.
    Probing,
    /// Waiting for the pause to end.
    Sleeping,
    /// The wait is over.
    Finished(Outcome),
}

/// What came of the last [`HeightAction`].
#[derive(Debug, Clone, Copy, PartialEq, Eq, Structural)]
pub enum HeightEvent {
    /// The daemon returned the header.
    HeaderFound,
    /// The daemon returned no header.
    HeaderMissing,
    /// The pause is over.
    Slept,
}

/// What the driver of a wait for a block height is to do next.
#[derive(Debug, Clone, Copy, PartialEq, Eq, Structural)]
pub enum HeightAction {
    /// Ask the daemon for the header at this height.
    Probe(usize),
    /// Pause for this many milliseconds.
    Sleep(u64),
    /// The wait is over.
    Done(Outcome),
    /// The event answered nothing that was asked; nothing has changed.
    Ignored,
}

/// A wait for a block height.
#[derive(Debug, Clone, Copy, PartialEq, Eq, Structural)]
pub struct HeightWait {
    /// The height waited for.
    pub height: usize,
    /// The queries that may still be made.
    pub left: u16,
    /// Where the wait stands.
    pub phase: HeightPhase,
}

impl HeightWait {
    /// What holds of every wait that was begun by [`HeightWait::start`] and
    /// moved by [`HeightWait::step`]: a query is only under way while an
    /// attempt is left for it.
    pub open spec fn wf(self) -> bool {
        &&& self.left <= WAIT_ATTEMPTS
        &&& (self.phase is Probing ==> self.left > 0)
    }

    /// The wait as it begins.
    pub open spec fn start_spec(height: usize) -> HeightWait {
        HeightWait { height, left: WAIT_ATTEMPTS, phase: HeightPhase::Probing }
    }

    /// The wait in another phase.
    pub open spec fn at(self, phase: HeightPhase) -> HeightWait {
        HeightWait { phase, ..self }
    }

    /// The wait at its end.
    pub open spec fn end(self, outcome: Outcome) -> (HeightWait, HeightAction) {
        (self.at(HeightPhase::Finished(outcome)), HeightAction::Done(outcome))
    }

    /// The wait after `event`, and what it asks for next: the header at the
    /// height waited for, and at no other, until it is there or the attempts
    /// are spent.
    pub open spec fn step_spec(self, event: HeightEvent) -> (HeightWait, HeightAction) {
        match (self.phase, event) {
            (HeightPhase::Probing, HeightEvent::HeaderFound) => self.end(Outcome::Observed),
            (HeightPhase::Probing, HeightEvent::HeaderMissing) => (
                HeightWait { left: spent(self.left), phase: HeightPhase::Sleeping, ..self },
                HeightAction::Sleep(WAIT_INTERVAL_MS),
            ),
            (HeightPhase::Sleeping, HeightEvent::Slept) => if self.left > 0 {
                (self.at(HeightPhase::Probing), HeightAction::Probe(self.height))
            } else {
                self.end(Outcome::GaveUp)
            },
            _ => (self, HeightAction::Ignored),
        }
    }

    /// Begins a wait for the header at `height`; the first thing to do is
    /// to ask for it.
    pub fn start(height: usize) -> (begun: (HeightWait, HeightAction))
        ensures
            begun == (HeightWait::start_spec(height), HeightAction::Probe(height)),
    {
        (
            HeightWait { height, left: WAIT_ATTEMPTS, phase: HeightPhase::Probing },
            HeightAction::Probe(height),
        )
    }

    /// Takes in what came of the last action and says what to do next.
    pub fn step(&mut self, event: HeightEvent) -> (action: HeightAction)
        ensures
            (*final(self), action) == old(self).step_spec(event),
    {
        match (self.phase, event) {
            (HeightPhase::Probing, HeightEvent::HeaderFound) => {
                self.phase = HeightPhase::Finished(Outcome::Observed);
                HeightAction::Done(Outcome::Observed)
            },
            (HeightPhase::Probing, HeightEvent::HeaderMissing) => {
                if self.left > 0 {
                    self.left = self.left - 1;
                }
                self.phase = HeightPhase::Sleeping;
                HeightAction::Sleep(WAIT_INTERVAL_MS)
            },
            (HeightPhase::Sleeping, HeightEvent::Slept) => {
                if self.left > 0 {
                    self.phase = HeightPhase::Probing;
                    HeightAction::Probe(self.height)
                } else {
                    self.phase = HeightPhase::Finished(Outcome::GaveUp);
                    HeightAction::Done(Outcome::GaveUp)
                }
            },
            _ => HeightAction::Ignored,
        }
    }
}

/// A wait for a height after a sequence of events.
pub open spec fn height_run(s: HeightWait, events: Seq<HeightEvent>) -> HeightWait
    decreases events.len(),
{
    if events.len() == 0 {
        s
    } else {
        height_run(s, events.drop_last()).step_spec(events.last()).0
    }
}

/// How many times a wait for a height asks for the header over a sequence of
/// events.
pub open spec fn height_probes(s: HeightWait, events: Seq<HeightEvent>) -> nat
    decreases events.len(),
{
    if events.len() == 0 {
        0
    } else {
        height_probes(s, events.drop_last()) + if height_run(s, events.drop_last()).step_spec(
            events.last(),
        ).1 is Probe {
            1nat
        } else {
            0nat
        }
    }
}

/// How many times a wait for a height may still ask for the header.
pub open spec fn height_probes_left(s: HeightWait) -> nat {
    match s.phase {
        HeightPhase::Probing => (s.left - 1) as nat,
        HeightPhase::Sleeping => s.left as nat,
        HeightPhase::Finished(_) => 0,
    }
}

/// A wait for a height asks for the header at that height and at no other,
/// and it ends as observed only when the daemon has just returned that
/// header.
pub proof fn lemma_height_observed(s: HeightWait, event: HeightEvent)
    ensures
        s.step_spec(event).0.height == s.height,
        s.step_spec(event).1 is Probe ==> s.step_spec(event).1 == HeightAction::Probe(s.height),
        s.step_spec(event).1 == HeightAction::Done(Outcome::Observed) ==> s.phase is Probing
            && event is HeaderFound,
        s.step_spec(event).0.phase == HeightPhase::Finished(Outcome::Observed) && s.phase
            != HeightPhase::Finished(Outcome::Observed) ==> s.phase is Probing
            && event is HeaderFound,
        s.phase is Probing && event is HeaderFound ==> s.step_spec(event).1 == HeightAction::Done(
            Outcome::Observed,
        ),
        s.wf() ==> s.step_spec(event).0.wf(),
{
}

/// Two queries of a wait for a height are a pause apart: a missing header is
/// followed by a pause of [`WAIT_INTERVAL_MS`], and the header is asked for
/// again only when a pause has ended.
pub proof fn lemma_height_attempts_are_paced(s: HeightWait, event: HeightEvent)
    ensures
        s.phase is Probing && event is HeaderMissing ==> s.step_spec(event).1
            == HeightAction::Sleep(WAIT_INTERVAL_MS),
        s.step_spec(event).1 is Probe ==> s.phase is Sleeping && event is Slept,
        s.step_spec(event).1 is Sleep ==> s.phase is Probing && event is HeaderMissing,
{
}

/// A wait for a height is bounded: counting the one that begins it, it asks
/// for the header at most as often as there are attempts.
pub proof fn lemma_height_probes_bounded(height: usize, events: Seq<HeightEvent>)
    ensures
        1 + height_probes(HeightWait::start_spec(height), events) <= WAIT_ATTEMPTS,
        height_run(HeightWait::start_spec(height), events).height == height,
{
    lemma_height_potential(HeightWait::start_spec(height), events);
}

/// The header is asked for no more often than the attempts in hand allow.
pub proof fn lemma_height_potential(s: HeightWait, events: Seq<HeightEvent>)
    requires
        s.wf(),
    ensures
        height_run(s, events).wf(),
        height_run(s, events).height == s.height,
        height_probes(s, events) + height_probes_left(height_run(s, events))
            <= height_probes_left(s),
    decreases events.len(),
{
    if events.len() > 0 {
        lemma_height_potential(s, events.drop_last());
        lemma_height_observed(height_run(s, events.drop_last()), events.last());
    }
}

/// Tells whether two transaction hashes are the same.
pub fn same_hash(a: &TxHash, b: &TxHash) -> (same: bool)
    ensures
        same == (a@ == b@),
{
    let mut i: usize = 0;
    while i < 32
        invariant
            0 <= i <= 32,
            forall|j: int| 0 <= j < i ==> a@[j] == b@[j],
        decreases 32 - i,
    {
        if a[i] != b[i] {
            return false;
        }
        i = i + 1;
    }
    assert(a@ =~= b@);
    true
}

/// A history lists a transaction.
pub open spec fn history_lists(history: Seq<TxHash>, txid: TxHash) -> bool {
    exists|i: int| 0 <= i < history.len() && #[trigger] history[i]@ == txid@
}

/// Tells whether the history of a script lists the transaction.
pub fn history_contains(history: &Vec<TxHash>, txid: &TxHash) -> (found: bool)
    ensures
        found == history_lists(history@, *txid),
{
    let mut i: usize = 0;
    while i < history.len()
        invariant
            0 <= i <= history.len(),
            forall|j: int| 0 <= j < i ==> #[trigger] history@[j]@ != txid@,
        decreases history.len() - i,
    {
        if same_hash(&history[i], txid) {
            return true;
        }
        i = i + 1;
    }
    false
}

/// The scripts of the outputs of the transaction that `raw` encodes, in
/// order; `None` where `raw` is no transaction or goes on after one.
pub uninterp spec fn output_scripts(raw: Seq<u8>) -> Option<Seq<Seq<u8>>>;

/// The hash of the transaction that `raw` encodes; `None` where `raw` is no
/// transaction or goes on after one.
pub uninterp spec fn transaction_hash(raw: Seq<u8>) -> Option<Seq<u8>>;

/// The content of a list of scripts.
pub open spec fn scripts_view(scripts: Option<Vec<Vec<u8>>>) -> Option<Seq<Seq<u8>>> {
    match scripts {
        Some(scripts) => Some(Seq::new(scripts@.len(), |i: int| scripts@[i]@)),
        None => None,
    }
}

/// The content of an optional hash.
pub open spec fn hash_view(hash: Option<TxHash>) -> Option<Seq<u8>> {
    match hash {
        Some(hash) => Some(hash@),
        None => None,
    }
}

/// The content of a decoded transaction: its hash and the scripts of its
/// outputs.
pub open spec fn decoded_view(decoded: Option<(TxHash, Vec<Vec<u8>>)>) -> (
    Option<Seq<u8>>,
    Option<Seq<Seq<u8>>>,
) {
    match decoded {
        Some((hash, scripts)) => (hash_view(Some(hash)), scripts_view(Some(scripts))),
        None => (None, None),
    }
}

/// `bitcoin::consensus::deserialize` for a `Transaction`, and
/// `Transaction::compute_txid` on what it gives: the bytes of the hash of
/// the transaction that `raw` encodes, and the script of each of its
/// outputs, in the transaction's order; `None` where `raw` is no transaction
/// or goes on after one.
#[verifier::external_body]
fn decode(raw: &Vec<u8>) -> (decoded: Option<(TxHash, Vec<Vec<u8>>)>)
    ensures
        decoded_view(decoded) == (transaction_hash(raw@), output_scripts(raw@)),
{
    match electrum_client::bitcoin::consensus::deserialize::<electrum_client::bitcoin::Transaction>(
        raw,
    ) {
        Ok(tx) => Some(
            (
                electrum_client::bitcoin::hashes::Hash::to_byte_array(tx.compute_txid()),
                tx.output.iter().map(|output| output.script_pubkey.to_bytes()).collect(),
            ),
        ),
        Err(_) => None,
    }
}

/// Where a wait for a transaction stands.
#[derive(Debug, Clone, Copy, PartialEq, Eq, Structural)]
pub enum TxPhase {
    /// Waiting to hear whether the daemon has the transaction.
    Fetching,
    /// Waiting for the history of the transaction's first output.
    CheckingHistory,
    /// Waiting for the pause to end.
    Sleeping,
    /// The wait is over.
    Finished(Outcome),
}

/// What came of the last [`TxAction`].
#[derive(Debug)]
pub enum TxEvent {
    /// The daemon returned these bytes for the transaction.
    TxFound(Vec<u8>),
    /// The daemon returned no transaction.
    TxMissing,
    /// The daemon returned the history of the script: the transactions that
    /// touch it.
    History(Vec<TxHash>),
    /// The daemon returned no history.
    HistoryFailed,
    /// The pause is over.
    Slept,
}

/// The mathematical content of a [`TxEvent`].
pub enum TxEventView {
    TxFound(Seq<u8>),
    TxMissing,
    History(Seq<TxHash>),
    HistoryFailed,
    Slept,
}

impl View for TxEvent {
    type V = TxEventView;

    open spec fn view(&self) -> TxEventView {
        match self {
            TxEvent::TxFound(raw) => TxEventView::TxFound(raw@),
            TxEvent::TxMissing => TxEventView::TxMissing,
            TxEvent::History(history) => TxEventView::History(history@),
            TxEvent::HistoryFailed => TxEventView::HistoryFailed,
            TxEvent::Slept => TxEventView::Slept,
        }
    }
}

/// What the driver of a wait for a transaction is to do next.
#[derive(Debug)]
pub enum TxAction {
    /// Ask the daemon for the transaction with this hash.
    GetTransaction(TxHash),
    /// Ask the daemon for the history of this script.
    GetHistory(Vec<u8>),
    /// Pause for this many milliseconds.
    Sleep(u64),
    /// The wait is over.
    Done(Outcome),
    /// The event answered nothing that was asked; nothing has changed.
    Ignored,
}

/// The mathematical content of a [`TxAction`].
pub enum TxActionView {
    GetTransaction(Seq<u8>),
    GetHistory(Seq<u8>),
    Sleep(u64),
    Done(Outcome),
    Ignored,
}

impl View for TxAction {
    type V = TxActionView;

    open spec fn view(&self) -> TxActionView {
        match self {
            TxAction::GetTransaction(txid) => TxActionView::GetTransaction(txid@),
            TxAction::GetHistory(script) => TxActionView::GetHistory(script@),
            TxAction::Sleep(millis) => TxActionView::Sleep(*millis),
            TxAction::Done(outcome) => TxActionView::Done(*outcome),
            TxAction::Ignored => TxActionView::Ignored,
        }
    }
}

/// A wait for a transaction.
#[derive(Debug, Clone, Copy)]
pub struct TxWait {
    /// The hash of the transaction waited for.
    pub txid: TxHash,
    /// The queries for the transaction that may still be made.
    pub left: u16,
    /// Where the wait stands.
    pub phase: TxPhase,
}

/// The mathematical content of a [`TxWait`].
pub struct TxWaitView {
    pub txid: TxHash,
    pub left: u16,
    pub phase: TxPhase,
}

impl View for TxWait {
    type V = TxWaitView;

    open spec fn view(&self) -> TxWaitView {
        TxWaitView { txid: self.txid, left: self.left, phase: self.phase }
    }
}

impl TxWaitView {
    /// What holds of every wait that was begun by [`TxWait::start`] and moved
    /// by [`TxWait::step`]: a query is only under way while an attempt is
    /// left for it.
    pub open spec fn wf(self) -> bool {
        &&& self.left <= WAIT_ATTEMPTS
        &&& (self.phase is Fetching || self.phase is CheckingHistory ==> self.left > 0)
    }

    /// The wait in another phase.
    pub open spec fn at(self, phase: TxPhase) -> TxWaitView {
        TxWaitView { phase, ..self }
    }

    /// The wait at its end.
    pub open spec fn end(self, outcome: Outcome) -> (TxWaitView, TxActionView) {
        (self.at(TxPhase::Finished(outcome)), TxActionView::Done(outcome))
    }

    /// The next attempt, if one is left.
    pub open spec fn again(self) -> (TxWaitView, TxActionView) {
        if self.left > 0 {
            (self.at(TxPhase::Fetching), TxActionView::GetTransaction(self.txid@))
        } else {
            self.end(Outcome::GaveUp)
        }
    }

    /// An attempt that did not show the transaction: it is spent, and a
    /// pause follows.
    pub open spec fn miss(self) -> (TxWaitView, TxActionView) {
        (
            TxWaitView { left: spent(self.left), phase: TxPhase::Sleeping, ..self },
            TxActionView::Sleep(WAIT_INTERVAL_MS),
        )
    }

    /// The wait after the daemon returned bytes for the transaction, by the
    /// hash and the output scripts that they decode to. Bytes that are no
    /// transaction, or not the transaction asked for, are a miss. The
    /// transaction asked for is observed at once where it has no output;
    /// where it has one, the script of its first output is looked up next.
    pub open spec fn on_transaction(
        self,
        hash: Option<Seq<u8>>,
        scripts: Option<Seq<Seq<u8>>>,
    ) -> (TxWaitView, TxActionView) {
        if hash == Some(self.txid@) && scripts is Some {
            if scripts->0.len() == 0 {
                self.end(Outcome::Observed)
            } else {
                (self.at(TxPhase::CheckingHistory), TxActionView::GetHistory(scripts->0[0]))
            }
        } else {
            self.miss()
        }
    }

    /// The wait after `event`, and what it asks for next.
    ///
    /// A transaction without outputs is observed as soon as the daemon
    /// returns it. One with outputs is observed once the history of its first
    /// output's script lists it, for the daemon may return a transaction
    /// before it has indexed its scripts. Every attempt that does not show
    /// the transaction costs an attempt and a pause: a transaction that is
    /// missing, a history that does not list it yet, and a history that
    /// could not be had.
    pub open spec fn step(self, event: TxEventView) -> (TxWaitView, TxActionView) {
        match (self.phase, event) {
            (TxPhase::Fetching, TxEventView::TxFound(raw)) => self.on_transaction(
                transaction_hash(raw),
                output_scripts(raw),
            ),
            (TxPhase::Fetching, TxEventView::TxMissing) => self.miss(),
            (TxPhase::CheckingHistory, TxEventView::History(history)) => if history_lists(
                history,
                self.txid,
            ) {
                self.end(Outcome::Observed)
            } else {
                self.miss()
            },
            (TxPhase::CheckingHistory, TxEventView::HistoryFailed) => self.miss(),
            (TxPhase::Sleeping, TxEventView::Slept) => self.again(),
            _ => (self, TxActionView::Ignored),
        }
    }
}

/// A wait for a transaction after a sequence of events.
pub open spec fn tx_run(s: TxWaitView, events: Seq<TxEventView>) -> TxWaitView
    decreases events.len(),
{
    if events.len() == 0 {
        s
    } else {
        tx_run(s, events.drop_last()).step(events.last()).0
    }
}

/// How many times a wait for a transaction asks for it over a sequence of
/// events.
pub open spec fn tx_fetches(s: TxWaitView, events: Seq<TxEventView>) -> nat
    decreases events.len(),
{
    if events.len() == 0 {
        0
    } else {
        tx_fetches(s, events.drop_last()) + if tx_run(s, events.drop_last()).step(
            events.last(),
        ).1 is GetTransaction {
            1nat
        } else {
            0nat
        }
    }
}

/// How many times a wait for a transaction may still ask for it.
pub open spec fn tx_fetches_left(s: TxWaitView) -> nat {
    match s.phase {
        TxPhase::Fetching => (s.left - 1) as nat,
        TxPhase::CheckingHistory => (s.left - 1) as nat,
        TxPhase::Sleeping => s.left as nat,
        TxPhase::Finished(_) => 0,
    }
}

/// A wait for a transaction ends as observed in two cases only: the daemon
/// has just returned the transaction asked for and it has no output, or the
/// daemon had returned it and has now returned a history of its first
/// output's script that lists it. The history is asked for the script of
/// the first output of the very transaction that was returned, and the
/// transaction asked for is always the one waited for.
pub proof fn lemma_tx_observed(s: TxWaitView, event: TxEventView)
    ensures
        s.step(event).0.txid == s.txid,
        s.step(event).1 is GetTransaction ==> s.step(event).1 == TxActionView::GetTransaction(
            s.txid@,
        ),
        s.step(event).1 == TxActionView::Done(Outcome::Observed) ==> {
            ||| {
                &&& s.phase is Fetching
                &&& event is TxFound
                &&& transaction_hash(event->TxFound_0) == Some(s.txid@)
                &&& output_scripts(event->TxFound_0) == Some(Seq::<Seq<u8>>::empty())
            }
            ||| s.phase is CheckingHistory && event is History && history_lists(
                event->History_0,
                s.txid,
            )
        },
        s.step(event).0.phase is CheckingHistory && !(s.phase is CheckingHistory) ==> {
            &&& s.phase is Fetching
            &&& event is TxFound
            &&& transaction_hash(event->TxFound_0) == Some(s.txid@)
            &&& output_scripts(event->TxFound_0) matches Some(scripts)
            &&& scripts.len() > 0
            &&& s.step(event).1 == TxActionView::GetHistory(scripts[0])
        },
        s.phase is Fetching && event is TxFound && transaction_hash(event->TxFound_0) == Some(
            s.txid@,
        ) && output_scripts(event->TxFound_0) == Some(Seq::<Seq<u8>>::empty()) ==> s.step(
            event,
        ).1 == TxActionView::Done(Outcome::Observed),
        s.phase is CheckingHistory && event is History && !history_lists(event->History_0, s.txid)
            ==> s.step(event) == s.miss(),
        s.phase is CheckingHistory && event is HistoryFailed ==> s.step(event) == s.miss(),
        s.wf() ==> s.step(event).0.wf(),
{
    if s.step(event).1 == TxActionView::Done(Outcome::Observed) && s.phase is Fetching {
        assert(output_scripts(event->TxFound_0)->0 =~= Seq::<Seq<u8>>::empty());
    }
}

/// Two queries of a wait for a transaction are a pause apart: whatever an
/// attempt did not show, a pause of [`WAIT_INTERVAL_MS`] follows it, and the
/// transaction is asked for again only when a pause has ended.
pub proof fn lemma_tx_attempts_are_paced(s: TxWaitView, event: TxEventView)
    ensures
        s.miss().1 == TxActionView::Sleep(WAIT_INTERVAL_MS),
        s.miss().0.phase is Sleeping,
        s.step(event).1 is GetTransaction ==> s.phase is Sleeping && event is Slept,
        s.step(event).1 is Sleep ==> s.step(event) == s.miss(),
{
}

/// The transaction is asked for no more often than the attempts in hand
/// allow.
pub proof fn lemma_tx_potential(s: TxWaitView, events: Seq<TxEventView>)
    requires
        s.wf(),
    ensures
        tx_run(s, events).wf(),
        tx_run(s, events).txid == s.txid,
        tx_fetches(s, events) + tx_fetches_left(tx_run(s, events)) <= tx_fetches_left(s),
    decreases events.len(),
{
    if events.len() > 0 {
        lemma_tx_potential(s, events.drop_last());
        lemma_tx_observed(tx_run(s, events.drop_last()), events.last());
    }
}

/// A wait for a transaction is bounded: counting the one that begins it, it
/// asks for the transaction at most as often as there are attempts.
pub proof fn lemma_tx_fetches_bounded(txid: TxHash, events: Seq<TxEventView>)
    ensures
        1 + tx_fetches(tx_wait_start(txid), events) <= WAIT_ATTEMPTS,
        tx_run(tx_wait_start(txid), events).txid == txid,
{
    lemma_tx_potential(tx_wait_start(txid), events);
}

/// The wait for a transaction as it begins.
pub open spec fn tx_wait_start(txid: TxHash) -> TxWaitView {
    TxWaitView { txid, left: WAIT_ATTEMPTS, phase: TxPhase::Fetching }
}

impl TxWait {
    /// Begins a wait for the transaction with the hash `txid`; the first
    /// thing to do is to ask for it.
    pub fn start(txid: TxHash) -> (begun: (TxWait, TxAction))
        ensures
            begun.0@ == tx_wait_start(txid),
            begun.1@ == TxActionView::GetTransaction(txid@),
    {
        (TxWait { txid, left: WAIT_ATTEMPTS, phase: TxPhase::Fetching }, TxAction::GetTransaction(txid))
    }

    fn end(&mut self, outcome: Outcome) -> (action: TxAction)
        ensures
            (final(self)@, action@) == old(self)@.end(outcome),
    {
        self.phase = TxPhase::Finished(outcome);
        TxAction::Done(outcome)
    }

    fn again(&mut self) -> (action: TxAction)
        ensures
            (final(self)@, action@) == old(self)@.again(),
    {
        if self.left > 0 {
            self.phase = TxPhase::Fetching;
            TxAction::GetTransaction(self.txid)
        } else {
            self.end(Outcome::GaveUp)
        }
    }

    fn spend(&mut self)
        ensures
            final(self)@ == (TxWaitView { left: spent(old(self)@.left), ..old(self)@ }),
    {
        if self.left > 0 {
            self.left = self.left - 1;
        }
    }

    fn miss(&mut self) -> (action: TxAction)
        ensures
            (final(self)@, action@) == old(self)@.miss(),
    {
        self.spend();
        self.phase = TxPhase::Sleeping;
        TxAction::Sleep(WAIT_INTERVAL_MS)
    }

    /// Takes in what the bytes that the daemon returned for the transaction
    /// decode to: the hash of the transaction and the scripts of its
    /// outputs, in order; `None` for each where the bytes are no
    /// transaction.
    pub fn on_transaction(&mut self, hash: Option<TxHash>, scripts: Option<Vec<Vec<u8>>>) -> (action:
        TxAction)
        ensures
            (final(self)@, action@) == old(self)@.on_transaction(
                hash_view(hash),
                scripts_view(scripts),
            ),
    {
        match (hash, scripts) {
            (Some(hash), Some(scripts)) => {
                if same_hash(&hash, &self.txid) {
                    let mut scripts = scripts;
                    if scripts.len() == 0 {
                        self.end(Outcome::Observed)
                    } else {
                        let first = scripts.swap_remove(0);
                        self.phase = TxPhase::CheckingHistory;
                        TxAction::GetHistory(first)
                    }
                } else {
                    self.miss()
                }
            },
            _ => self.miss(),
        }
    }

    /// Takes in what came of the last action and says what to do next.
    pub fn step(&mut self, event: TxEvent) -> (action: TxAction)
        ensures
            (final(self)@, action@) == old(self)@.step(event@),
    {
        match (self.phase, event) {
            (TxPhase::Fetching, TxEvent::TxFound(raw)) => match decode(&raw) {
                Some((hash, scripts)) => self.on_transaction(Some(hash), Some(scripts)),
                None => self.on_transaction(None, None),
            },
            (TxPhase::Fetching, TxEvent::TxMissing) => self.miss(),
            (TxPhase::CheckingHistory, TxEvent::History(history)) => {
                if history_contains(&history, &self.txid) {
                    self.end(Outcome::Observed)
                } else {
                    self.miss()
                }
            },
            (TxPhase::CheckingHistory, TxEvent::HistoryFailed) => self.miss(),
            (TxPhase::Sleeping, TxEvent::Slept) => self.again(),
            _ => TxAction::Ignored,
        }
    }
}

impl ElectrsD {
    /// Begins a wait, of up to a minute, until the daemon has indexed up to
    /// `height`.
    pub fn wait_height(&self, height: usize) -> (begun: (HeightWait, HeightAction))
        ensures
            begun == (HeightWait::start_spec(height), HeightAction::Probe(height)),
    {
        HeightWait::start(height)
    }

    /// Begins a wait, of up to a minute, until the daemon has indexed the
    /// transaction with the hash `txid`.
    pub fn wait_tx(&self, txid: &TxHash) -> (begun: (TxWait, TxAction))
        ensures
            begun.0@ == tx_wait_start(*txid),
            begun.1@ == TxActionView::GetTransaction(txid@),
    {
        TxWait::start(*txid)
    }
}

} // verus!
