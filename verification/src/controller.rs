//! The handle on a running daemon, and the decisions of its teardown.
//!
//! An [`ElectrsD`] holds no process. It knows what the daemon was started
//! with and whether it has been stopped, and it says which signal to send or
//! which wait to make; whoever holds the subprocess does it and reports back
//! with a [`TeardownEvent`].

use crate::args::{NodeParams, NodeParamsView};
use crate::conf::{Conf, ConfView};
use crate::datadir::{DataDir, DataDirView};
use crate::endpoints::{bind_address, bind_address_spec};
use crate::error::{Error, ErrorView};
use crate::launch::{
    answer, awaited, first_action, initial, last_asked, lemma_last_asked_is_awaited,
    lemma_retries_reach_ready, lemma_run_wf, refused_polls, retries, run, step, Action,
    ActionView, EventView, Launch, LaunchView, LostAttempt, Phase, PollStep, POLL_ATTEMPTS,
};
use crate::text::option_text;
use crate::versions::Capabilities;
use vstd::prelude::*;

verus! {

/// A signal for the daemon.
#[derive(Debug, Clone, Copy, PartialEq, Eq, Structural)]
pub enum Signal {
    /// Index now: the user-defined signal 1.
    SyncNow,
    /// Stop gracefully: the interrupt signal.
    Interrupt,
}

/// Where the subprocess of a controller stands.
#[derive(Debug, Clone, Copy, PartialEq, Eq, Structural)]
pub enum Status {
    /// The subprocess has not been stopped.
    Running,
    /// Waiting to hear whether the interrupt was delivered.
    Interrupting,
    /// Waiting to hear whether the kill was delivered.
    Killing,
    /// Waiting for the subprocess to exit.
    Waiting,
    /// The subprocess has been stopped.
    Stopped,
}

/// What came of the last [`TeardownAction`].
#[derive(Debug)]
pub enum TeardownEvent {
    /// The interrupt was delivered.
    SignalSent,
    /// The interrupt could not be delivered.
    SignalFailed(nix::errno::Errno),
    /// The kill was delivered.
    Killed,
    /// The kill could not be delivered.
    KillFailed(std::io::Error),
    /// The subprocess has exited.
    Exited,
    /// The wait for the subprocess failed.
    WaitFailed(std::io::Error),
}

/// What the holder of the subprocess is to do next.
#[derive(Debug)]
pub enum TeardownAction {
    /// Send this signal to the subprocess.
    Send(Signal),
    /// Kill the subprocess at once.
    ForceKill,
    /// Block until the subprocess has exited.
    WaitExit,
    /// The teardown is over.
    Done,
    /// The teardown failed with this error.
    Fail(Error),
    /// The event answered nothing that was asked; nothing has changed.
    Ignored,
}

/// The mathematical content of a [`TeardownAction`].
pub enum TeardownActionView {
    Send(Signal),
    ForceKill,
    WaitExit,
    Done,
    Fail(ErrorView),
    Ignored,
}

impl View for TeardownAction {
    type V = TeardownActionView;

    open spec fn view(&self) -> TeardownActionView {
        match self {
            TeardownAction::Send(signal) => TeardownActionView::Send(*signal),
            TeardownAction::ForceKill => TeardownActionView::ForceKill,
            TeardownAction::WaitExit => TeardownActionView::WaitExit,
            TeardownAction::Done => TeardownActionView::Done,
            TeardownAction::Fail(error) => TeardownActionView::Fail(error@),
            TeardownAction::Ignored => TeardownActionView::Ignored,
        }
    }
}

/// The controller of a daemon that answered a handshake.
#[derive(Debug)]
pub struct ElectrsD {
    /// The address of the Electrum protocol.
    pub electrum_url: String,
    /// The address of the HTTP endpoint, where the daemon serves one.
    pub esplora_url: Option<String>,
    work_dir: DataDir,
    signals: bool,
    status: Status,
    implicit: bool,
}

/// The mathematical content of an [`ElectrsD`].
pub struct ElectrsDView {
    /// The address of the Electrum protocol.
    pub electrum_url: Seq<char>,
    /// The address of the HTTP endpoint, where the daemon serves one.
    pub esplora_url: Option<Seq<char>>,
    /// The data directory.
    pub work_dir: DataDirView,
    /// The platform delivers signals.
    pub signals: bool,
    /// Where the subprocess stands.
    pub status: Status,
    /// The teardown under way was begun by a release, not by a call.
    pub implicit: bool,
}

impl ElectrsDView {
    /// What holds of every controller that a launch handed over, whatever
    /// was done with it since: only a daemon with a persistent directory is
    /// ever interrupted or waited for, and it is interrupted only where the
    /// platform delivers signals.
    pub open spec fn wf(self) -> bool {
        &&& (self.status is Interrupting ==> self.graceful() && self.signals)
        &&& (self.status is Waiting ==> self.graceful())
    }

    /// The controller in another status.
    pub open spec fn at(self, status: Status) -> ElectrsDView {
        ElectrsDView { status, ..self }
    }

    /// The data must be flushed before the teardown is over.
    pub open spec fn graceful(self) -> bool {
        self.work_dir is Persistent
    }

    /// The signal that a trigger sends, if it sends one: none where the
    /// platform delivers no signals, and none to a stopped daemon.
    pub open spec fn trigger(self) -> Option<Signal> {
        if self.signals && !(self.status is Stopped) {
            Some(Signal::SyncNow)
        } else {
            None
        }
    }

    /// The beginning of a teardown. A stopped daemon is left alone. A
    /// daemon with a persistent directory is interrupted, so that it can
    /// flush its data (killed, where the platform delivers no signals); one
    /// with a temporary directory is killed at once.
    pub open spec fn begin(self, implicit: bool) -> (ElectrsDView, TeardownActionView) {
        if self.status is Stopped {
            (self, TeardownActionView::Done)
        } else if self.graceful() && self.signals {
            (
                ElectrsDView { status: Status::Interrupting, implicit, ..self },
                TeardownActionView::Send(Signal::Interrupt),
            )
        } else {
            (
                ElectrsDView { status: Status::Killing, implicit, ..self },
                TeardownActionView::ForceKill,
            )
        }
    }

    /// The end of a teardown that failed: the daemon counts as running, and
    /// the error is handed out unless the teardown was implicit.
    pub open spec fn give_up(self, error: ErrorView) -> (ElectrsDView, TeardownActionView) {
        (
            self.at(Status::Running),
            if self.implicit {
                TeardownActionView::Done
            } else {
                TeardownActionView::Fail(error)
            },
        )
    }

    /// The controller after an event of its teardown, and what it asks for
    /// next.
    pub open spec fn after(self, event: TeardownEvent) -> (ElectrsDView, TeardownActionView) {
        match self.status {
            Status::Interrupting => match event {
                TeardownEvent::SignalSent => (
                    self.at(Status::Waiting),
                    TeardownActionView::WaitExit,
                ),
                TeardownEvent::SignalFailed(e) => self.give_up(ErrorView::Nix(e)),
                _ => (self, TeardownActionView::Ignored),
            },
            Status::Killing => match event {
                TeardownEvent::Killed => if self.graceful() {
                    (self.at(Status::Waiting), TeardownActionView::WaitExit)
                } else {
                    (self.at(Status::Stopped), TeardownActionView::Done)
                },
                TeardownEvent::KillFailed(e) => self.give_up(ErrorView::Io(e)),
                _ => (self, TeardownActionView::Ignored),
            },
            Status::Waiting => match event {
                TeardownEvent::Exited => (self.at(Status::Stopped), TeardownActionView::Done),
                TeardownEvent::WaitFailed(e) => self.give_up(ErrorView::Io(e)),
                _ => (self, TeardownActionView::Ignored),
            },
            _ => (self, TeardownActionView::Ignored),
        }
    }
}

/// The controller of the daemon that a launch brought up, on a platform
/// that delivers signals or not.
pub open spec fn controller_of(launch: LaunchView, signals: bool) -> ElectrsDView {
    ElectrsDView {
        electrum_url: bind_address_spec(launch.ports[0]),
        esplora_url: if launch.conf.http_enabled {
            Some(bind_address_spec(launch.ports[2]))
        } else {
            None
        },
        work_dir: launch.dir->0,
        signals,
        status: Status::Running,
        implicit: false,
    }
}

/// The daemon that a launch hands over answers at the address it reports:
/// a launch ends with success only on the answer to a handshake, and that
/// handshake was tried at the controller's Electrum address.
pub proof fn lemma_controller_answers(s: LaunchView, event: EventView, signals: bool)
    requires
        s.wf(),
        step(s, event).1 is Done,
    ensures
        event is Connected,
        step(s, event).0.phase is Ready,
        awaited(s) == ActionView::Handshake(
            controller_of(step(s, event).0, signals).electrum_url,
        ),
        controller_of(step(s, event).0, signals).status is Running,
        controller_of(step(s, event).0, signals).wf(),
{
}

/// Right after a launch has ended with success, a handshake at the address
/// that the controller reports has just been answered: the last event was
/// the answer, and the last thing asked before it was the handshake at that
/// address.
pub proof fn lemma_ready_right_after_handshake(
    conf: ConfView,
    caps: Capabilities,
    node: NodeParamsView,
    env_root: Option<Seq<char>>,
    events: Seq<EventView>,
    signals: bool,
)
    requires
        conf.attempts <= u8::MAX,
        events.len() > 0,
        answer(initial(conf, caps, node, env_root), events) is Done,
    ensures
        events.last() is Connected,
        run(initial(conf, caps, node, env_root), events).phase is Ready,
        last_asked(initial(conf, caps, node, env_root), events.drop_last())
            == ActionView::Handshake(
            controller_of(run(initial(conf, caps, node, env_root), events), signals).electrum_url,
        ),
{
    let begun = initial(conf, caps, node, env_root);
    lemma_run_wf(begun, events.drop_last());
    lemma_last_asked_is_awaited(begun, events.drop_last());
    lemma_controller_answers(run(begun, events.drop_last()), events.last(), signals);
}

/// After attempts lost in a row the controller reports the ports that were
/// handed out last: its Electrum address is the first of them, the
/// handshake that was answered was tried there, and its data directory is
/// the one the launch had all along.
pub proof fn lemma_retries_hand_over_last_ports(
    s: LaunchView,
    rounds: Seq<LostAttempt>,
    last_refusals: Seq<Seq<char>>,
    signals: bool,
)
    requires
        s.wf(),
        s.phase == Phase::Polling(PollStep::CheckingExit),
        s.polls == POLL_ATTEMPTS,
        0 < rounds.len() <= s.budget,
        forall|i: int| 0 <= i < rounds.len() ==> (#[trigger] rounds[i]).fits(s.conf),
        last_refusals.len() < POLL_ATTEMPTS,
    ensures
        ({
            let polling = run(s, retries(rounds));
            let waited = run(polling, refused_polls(last_refusals));
            let ready = step(step(waited, EventView::StillRunning).0, EventView::Connected).0;
            let controller = controller_of(ready, signals);
            &&& ready.phase is Ready
            &&& controller.electrum_url == bind_address_spec(rounds.last().fresh[0])
            &&& controller.work_dir == s.dir->0
            &&& step(waited, EventView::StillRunning).1 == ActionView::Handshake(
                controller.electrum_url,
            )
        }),
{
    lemma_retries_reach_ready(s, rounds, last_refusals);
}

/// A controller stays well-formed through its teardown, which changes
/// nothing but where the subprocess stands.
pub proof fn lemma_teardown_wf(c: ElectrsDView, implicit: bool, event: TeardownEvent)
    requires
        c.wf(),
    ensures
        c.begin(implicit).0.wf(),
        c.after(event).0.wf(),
        c.begin(implicit).0 == (ElectrsDView {
            status: c.begin(implicit).0.status,
            implicit: c.begin(implicit).0.implicit,
            ..c
        }),
        c.after(event).0 == c.at(c.after(event).0.status),
{
}

/// With a persistent directory a teardown is over only once the subprocess
/// has exited: the daemon is first told to stop, then waited for, and only
/// the end of that wait stops the controller.
pub proof fn lemma_graceful_teardown_waits(c: ElectrsDView, implicit: bool, event: TeardownEvent)
    requires
        c.graceful(),
    ensures
        !(c.status is Stopped) ==> c.begin(implicit).1 == TeardownActionView::Send(
            Signal::Interrupt,
        ) || c.begin(implicit).1 is ForceKill,
        !(c.status is Stopped) ==> !(c.begin(implicit).0.status is Stopped),
        !c.implicit && c.after(event).1 is Done ==> c.status is Waiting && event is Exited,
        c.status is Interrupting && event is SignalSent ==> c.after(event).1 is WaitExit,
        c.status is Killing && event is Killed ==> c.after(event).1 is WaitExit,
        c.after(event).0.status is Stopped && !(c.status is Stopped) ==> {
            &&& c.status is Waiting
            &&& event is Exited
            &&& c.after(event).1 is Done
        },
{
}

/// With a temporary directory a teardown never waits: the daemon is killed
/// at once, and the teardown is over as soon as the kill is delivered.
pub proof fn lemma_forceful_teardown_is_prompt(
    c: ElectrsDView,
    implicit: bool,
    event: TeardownEvent,
)
    requires
        c.wf(),
        !c.graceful(),
    ensures
        !(c.status is Stopped) ==> c.begin(implicit) == (
            ElectrsDView { status: Status::Killing, implicit, ..c },
            TeardownActionView::ForceKill,
        ),
        !(c.after(event).1 is WaitExit),
        !(c.after(event).1 is Send),
        !(c.after(event).0.status is Waiting),
        c.status is Killing && event is Killed ==> c.after(event) == (
            c.at(Status::Stopped),
            TeardownActionView::Done,
        ),
{
}

/// Giving up a controller whose daemon has not been stopped always asks for
/// the daemon's end, and whatever comes of it no error is handed out.
pub proof fn lemma_release_stops_quietly(c: ElectrsDView, event: TeardownEvent)
    ensures
        !(c.status is Stopped) ==> c.begin(true).1 == TeardownActionView::Send(Signal::Interrupt)
            || c.begin(true).1 is ForceKill,
        !(c.status is Stopped) ==> c.begin(true).0.implicit,
        !(c.begin(true).1 is Fail),
        c.implicit ==> !(c.after(event).1 is Fail),
        c.after(event).0.implicit == c.implicit,
{
}

/// Stopping twice is stopping once: a stopped controller asks for nothing
/// and does not change.
pub proof fn lemma_kill_is_idempotent(c: ElectrsDView, implicit: bool, event: TeardownEvent)
    requires
        c.status is Stopped,
    ensures
        c.begin(implicit) == (c, TeardownActionView::Done),
        c.after(event) == (c, TeardownActionView::Ignored),
        c.trigger() is None,
{
}

impl View for ElectrsD {
    type V = ElectrsDView;

    closed spec fn view(&self) -> ElectrsDView {
        ElectrsDView {
            electrum_url: self.electrum_url@,
            esplora_url: option_text(self.esplora_url),
            work_dir: self.work_dir@,
            signals: self.signals,
            status: self.status,
            implicit: self.implicit,
        }
    }
}

impl ElectrsD {
    /// Begins the launch of a daemon with the usual configuration for its
    /// capabilities, and says what to do first.
    pub fn new(caps: Capabilities, node: NodeParams, env_root: Option<String>) -> (begun: (
        Launch,
        Action,
    ))
        ensures
            begun.0@ == initial(
                crate::conf::default_conf(caps),
                caps,
                node@,
                option_text(env_root),
            ),
            begun.1@ == first_action(crate::conf::default_conf(caps)),
    {
        let conf = Conf::default_for(caps);
        (Launch::begin(&conf, caps, node, env_root), Action::QueryNode)
    }

    /// Begins the launch of a daemon with the given configuration, and says
    /// what to do first: to ask the node for its state, or, where both
    /// directory roots are set, to give up with the directory conflict.
    pub fn with_conf(
        conf: &Conf,
        caps: Capabilities,
        node: NodeParams,
        env_root: Option<String>,
    ) -> (begun: (Launch, Action))
        ensures
            begun.0@ == initial(conf@, caps, node@, option_text(env_root)),
            begun.1@ == first_action(conf@),
    {
        let first = if conf.dirs_conflict() {
            Action::Fail(Error::BothDirsSpecified)
        } else {
            Action::QueryNode
        };
        (Launch::begin(conf, caps, node, env_root), first)
    }

    /// The address of the Electrum protocol.
    pub fn electrum_url(&self) -> (url: &String)
        ensures
            url@ == self@.electrum_url,
    {
        &self.electrum_url
    }

    /// The address of the HTTP endpoint, where the daemon serves one.
    pub fn esplora_url(&self) -> (url: &Option<String>)
        ensures
            option_text(*url) == self@.esplora_url,
    {
        &self.esplora_url
    }

    /// Where the subprocess stands.
    pub fn status(&self) -> (status: Status)
        ensures
            status == self@.status,
    {
        self.status
    }

    /// The path of the daemon's data directory.
    pub fn workdir(&self) -> (path: String)
        ensures
            path@ == self@.work_dir.path(),
    {
        self.work_dir.path()
    }

    /// The signal that makes the daemon index now, if one is to be sent.
    /// Nothing is awaited after it.
    pub fn trigger(&self) -> (signal: Option<Signal>)
        ensures
            signal == self@.trigger(),
    {
        if self.signals && self.status != Status::Stopped {
            Some(Signal::SyncNow)
        } else {
            None
        }
    }

    fn begin(&mut self, implicit: bool) -> (action: TeardownAction)
        ensures
            (final(self)@, action@) == old(self)@.begin(implicit),
    {
        if self.status == Status::Stopped {
            TeardownAction::Done
        } else if self.work_dir.is_persistent() && self.signals {
            self.status = Status::Interrupting;
            self.implicit = implicit;
            TeardownAction::Send(Signal::Interrupt)
        } else {
            self.status = Status::Killing;
            self.implicit = implicit;
            TeardownAction::ForceKill
        }
    }

    /// Begins the teardown of the daemon and says what to do first.
    pub fn kill(&mut self) -> (action: TeardownAction)
        ensures
            (final(self)@, action@) == old(self)@.begin(false),
    {
        self.begin(false)
    }

    /// Begins the teardown that goes with giving the controller up. It asks
    /// for what [`ElectrsD::kill`] asks for, but no failure of it is handed
    /// out.
    pub fn release(&mut self) -> (action: TeardownAction)
        ensures
            (final(self)@, action@) == old(self)@.begin(true),
    {
        self.begin(true)
    }

    fn give_up(&mut self, error: Error) -> (action: TeardownAction)
        ensures
            (final(self)@, action@) == old(self)@.give_up(error@),
    {
        self.status = Status::Running;
        if self.implicit {
            TeardownAction::Done
        } else {
            TeardownAction::Fail(error)
        }
    }

    /// Takes in what came of the last teardown action and says what to do
    /// next.
    pub fn after(&mut self, event: TeardownEvent) -> (action: TeardownAction)
        ensures
            (final(self)@, action@) == old(self)@.after(event),
    {
        match self.status {
            Status::Interrupting => match event {
                TeardownEvent::SignalSent => {
                    self.status = Status::Waiting;
                    TeardownAction::WaitExit
                },
                TeardownEvent::SignalFailed(e) => self.give_up(Error::Nix(e)),
                _ => TeardownAction::Ignored,
            },
            Status::Killing => match event {
                TeardownEvent::Killed => if self.work_dir.is_persistent() {
                    self.status = Status::Waiting;
                    TeardownAction::WaitExit
                } else {
                    self.status = Status::Stopped;
                    TeardownAction::Done
                },
                TeardownEvent::KillFailed(e) => self.give_up(Error::Io(e)),
                _ => TeardownAction::Ignored,
            },
            Status::Waiting => match event {
                TeardownEvent::Exited => {
                    self.status = Status::Stopped;
                    TeardownAction::Done
                },
                TeardownEvent::WaitFailed(e) => self.give_up(Error::Io(e)),
                _ => TeardownAction::Ignored,
            },
            _ => TeardownAction::Ignored,
        }
    }
}

impl Launch {
    /// The controller of the daemon that this launch brought up, on a
    /// platform that delivers signals or not; `None` unless the launch has
    /// ended in [`Phase::Ready`].
    pub fn finish(&self, signals: bool) -> (controller: Option<ElectrsD>)
        ensures
            self@.phase is Ready <==> controller is Some,
            controller is Some ==> controller->0@ == controller_of(self@, signals),
    {
        match self.ready_parts() {
            Some((electrum, http, work_dir)) => Some(
                ElectrsD {
                    electrum_url: bind_address(electrum),
                    esplora_url: match http {
                        Some(port) => Some(bind_address(port)),
                        None => None,
                    },
                    work_dir,
                    signals,
                    status: Status::Running,
                    implicit: false,
                },
            ),
            None => None,
        }
    }
}

} // verus!
