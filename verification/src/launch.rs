//! Starting the daemon: the decisions between one outside step and the next.
//!
//! A [`Launch`] never touches the outside world. It asks for one thing at a
//! time with an [`Action`]; whoever drives it does that thing and reports what
//! came of it with an [`Event`].
//!
//! A configuration with both directory roots set ends the launch before
//! anything is asked for. Else the order is: ask the companion node whether
//! it is still in its initial sync (and wake it with a block if so), make the
//! data directory, read the cookie where the daemon wants its value, get the
//! ports, spawn, and then poll until the daemon answers a handshake or is
//! found dead. A daemon found dead is launched again on fresh ports while the
//! budget lasts.
//!
//! An early exit is no phase of its own: the event that reports it moves the
//! launch on at once, to new ports or to its end. The poll of one subprocess
//! is bounded: after [`POLL_ATTEMPTS`] refused handshakes the launch gives
//! up, with the failure of the last one.

use crate::args::{
    launch_args, launch_args_spec, stderr_of, NodeParams, NodeParamsView, SpawnRequest,
    SpawnRequestView, Stdio,
};
use crate::conf::{Conf, ConfView};
use crate::datadir::{
    dir_made, dir_request, DataDir, DataDirView, DirRequest, DirRequestView,
};
use crate::endpoints::{bind_address, bind_address_spec, endpoints_at, EndpointSet, Ports};
use crate::error::{Error, ErrorView, ExitStatus};
use crate::node::{in_initial_sync, node_needs_block};
use crate::text::{copy_text, option_text, owned_texts, strings};
use crate::versions::Capabilities;
use vstd::prelude::*;
use vstd::string::StringExecFns;

verus! {

/// The pause between two polls of a freshly spawned daemon, in milliseconds.
pub const POLL_INTERVAL_MS: u64 = 500;

/// The number of handshakes that are tried with one subprocess: a minute's
/// worth of polls.
pub const POLL_ATTEMPTS: u16 = 120;

/// The number of blocks that wake a node from its initial sync.
pub const WAKE_BLOCKS: u64 = 1;

/// Where a poll of the spawned daemon stands.
#[derive(Debug, Clone, Copy, PartialEq, Eq, Structural)]
pub enum PollStep {
    /// Waiting to hear whether the subprocess is still alive.
    CheckingExit,
    /// Waiting to hear whether the daemon answered a handshake.
    Handshaking,
    /// Waiting for the pause to end.
    Sleeping,
}

/// Where a launch stands.
#[derive(Debug, Clone, Copy, PartialEq, Eq, Structural)]
pub enum Phase {
    /// Waiting for the node's sync status.
    QueryingNode,
    /// Waiting for the node to generate a block.
    WakingNode,
    /// Waiting for the data directory.
    CreatingDir,
    /// Waiting for the cookie's value.
    ReadingCookie,
    /// Waiting for a port.
    Allocating,
    /// Waiting for the subprocess.
    Spawning,
    /// The subprocess runs; waiting for it to answer or die.
    Polling(PollStep),
    /// The daemon answered a handshake.
    Ready,
    /// The daemon died and no attempt was left.
    BudgetExhausted,
    /// A step outside failed, or the configuration cannot be used.
    Failed,
}

impl Phase {
    /// Nothing more will be asked for.
    pub open spec fn is_final(self) -> bool {
        self is Ready || self is BudgetExhausted || self is Failed
    }

    /// The data directory exists.
    pub open spec fn has_dir(self) -> bool {
        self is ReadingCookie || self.has_cookie()
    }

    /// The authentication material is known.
    pub open spec fn has_cookie(self) -> bool {
        self is Allocating || self.has_ports()
    }

    /// All ports of the current attempt are known.
    pub open spec fn has_ports(self) -> bool {
        self is Spawning || self is Polling || self is Ready
    }

    /// A subprocess of the current attempt has been asked for.
    pub open spec fn has_spawned(self) -> bool {
        self is Spawning || self is Polling
    }
}

/// What came of the last [`Action`].
#[derive(Debug)]
pub enum Event {
    /// The node answered the query of its blockchain state with this.
    NodeInfo(corepc_node::serde_json::Value),
    /// A control call to the node failed, with this message.
    NodeFailed(String),
    /// The node generated the blocks.
    BlockGenerated,
    /// The data directory exists, at this path.
    DirReady(String),
    /// The cookie file holds this value.
    CookieRead(String),
    /// The operating system handed out this port.
    PortAllocated(u16),
    /// The subprocess was spawned.
    Spawned,
    /// The subprocess has not exited.
    StillRunning,
    /// The subprocess has exited.
    Exited(ExitStatus),
    /// The daemon answered the handshake.
    Connected,
    /// The daemon did not answer the handshake; the client failed with this
    /// message.
    Refused(String),
    /// The pause is over.
    Slept,
    /// The operating system refused the last action.
    IoFailed(std::io::Error),
}

/// The mathematical content of an [`Event`].
pub enum EventView {
    NodeInfo(corepc_node::serde_json::Value),
    NodeFailed(Seq<char>),
    BlockGenerated,
    DirReady(Seq<char>),
    CookieRead(Seq<char>),
    PortAllocated(u16),
    Spawned,
    StillRunning,
    Exited(ExitStatus),
    Connected,
    Refused(Seq<char>),
    Slept,
    IoFailed(std::io::Error),
}

impl View for Event {
    type V = EventView;

    open spec fn view(&self) -> EventView {
        match self {
            Event::NodeInfo(info) => EventView::NodeInfo(*info),
            Event::NodeFailed(message) => EventView::NodeFailed(message@),
            Event::BlockGenerated => EventView::BlockGenerated,
            Event::DirReady(path) => EventView::DirReady(path@),
            Event::CookieRead(value) => EventView::CookieRead(value@),
            Event::PortAllocated(port) => EventView::PortAllocated(*port),
            Event::Spawned => EventView::Spawned,
            Event::StillRunning => EventView::StillRunning,
            Event::Exited(status) => EventView::Exited(*status),
            Event::Connected => EventView::Connected,
            Event::Refused(message) => EventView::Refused(message@),
            Event::Slept => EventView::Slept,
            Event::IoFailed(e) => EventView::IoFailed(*e),
        }
    }
}

/// What the driver of a launch is to do next.
#[derive(Debug)]
pub enum Action {
    /// Ask the node for its blockchain state.
    QueryNode,
    /// Have the node generate this many blocks to an address of its own.
    GenerateBlocks(u64),
    /// Make the data directory.
    CreateDir(DirRequest),
    /// Read the cookie file at this path.
    ReadCookie(String),
    /// Get a free port from the operating system.
    AllocatePort,
    /// Spawn the daemon.
    Spawn(SpawnRequest),
    /// Look, without blocking, whether the subprocess has exited.
    CheckExit,
    /// Try a protocol handshake at this address.
    Handshake(String),
    /// Pause for this many milliseconds.
    Sleep(u64),
    /// The daemon is up: take the controller.
    Done,
    /// Give up with this error.
    Fail(Error),
    /// Give up: the daemon follows the node's peer traffic, and the node has
    /// no peer endpoint.
    NoPeerEndpoint,
    /// The event answered nothing that was asked; nothing has changed.
    Ignored,
}

/// The mathematical content of an [`Action`].
pub enum ActionView {
    QueryNode,
    GenerateBlocks(u64),
    CreateDir(DirRequestView),
    ReadCookie(Seq<char>),
    AllocatePort,
    Spawn(SpawnRequestView),
    CheckExit,
    Handshake(Seq<char>),
    Sleep(u64),
    Done,
    Fail(ErrorView),
    NoPeerEndpoint,
    Ignored,
}

impl ActionView {
    /// The launch is given up.
    pub open spec fn gives_up(self) -> bool {
        self is Fail || self is NoPeerEndpoint
    }
}

impl View for Action {
    type V = ActionView;

    open spec fn view(&self) -> ActionView {
        match self {
            Action::QueryNode => ActionView::QueryNode,
            Action::GenerateBlocks(count) => ActionView::GenerateBlocks(*count),
            Action::CreateDir(request) => ActionView::CreateDir(request@),
            Action::ReadCookie(path) => ActionView::ReadCookie(path@),
            Action::AllocatePort => ActionView::AllocatePort,
            Action::Spawn(request) => ActionView::Spawn(request@),
            Action::CheckExit => ActionView::CheckExit,
            Action::Handshake(address) => ActionView::Handshake(address@),
            Action::Sleep(millis) => ActionView::Sleep(*millis),
            Action::Done => ActionView::Done,
            Action::Fail(error) => ActionView::Fail(error@),
            Action::NoPeerEndpoint => ActionView::NoPeerEndpoint,
            Action::Ignored => ActionView::Ignored,
        }
    }
}

/// The mathematical content of a [`Launch`].
pub struct LaunchView {
    /// Where the launch stands.
    pub phase: Phase,
    /// The configuration it was begun with.
    pub conf: ConfView,
    /// What the daemon understands.
    pub caps: Capabilities,
    /// How to reach the node.
    pub node: NodeParamsView,
    /// The root for temporary directories that the environment names.
    pub env_root: Option<Seq<char>>,
    /// The fresh launches that are left.
    pub budget: nat,
    /// The data directory, once it exists.
    pub dir: Option<DataDirView>,
    /// The authentication material, once it is known.
    pub cookie: Option<Seq<char>>,
    /// The ports of the current attempt, in the order they were handed out.
    pub ports: Seq<u16>,
    /// The handshakes that may still be tried with the current subprocess.
    pub polls: nat,
    /// A subprocess of this launch was spawned and has not been seen to
    /// exit.
    pub alive: bool,
}

impl LaunchView {
    /// What holds of every launch that was begun by [`initial`] and moved by
    /// [`step`].
    pub open spec fn wf(self) -> bool {
        &&& self.budget <= self.conf.attempts
        &&& self.conf.attempts <= u8::MAX
        &&& self.polls <= POLL_ATTEMPTS
        &&& (self.phase.has_cookie() ==> self.node.serves(self.caps))
        &&& (self.phase is Spawning ==> self.polls == POLL_ATTEMPTS)
        &&& (self.phase is Polling ==> self.polls > 0)
        &&& self.ports.len() <= self.conf.ports_needed()
        &&& (self.conf.dirs_conflict() ==> self.phase is Failed)
        &&& (self.phase is Polling || self.phase is Ready ==> self.alive)
        &&& (self.alive ==> self.phase is Polling || self.phase is Ready || self.phase is Failed)
        &&& (self.phase.has_dir() ==> self.dir is Some)
        &&& (self.phase.has_cookie() ==> self.cookie is Some)
        &&& (self.phase is Allocating ==> self.ports.len() < self.conf.ports_needed())
        &&& (self.phase.has_ports() ==> self.ports.len() == self.conf.ports_needed())
    }

    /// The ports of the current attempt by their use: the first for the
    /// Electrum protocol, the second for monitoring, the third for HTTP.
    pub open spec fn ports_by_use(self) -> Ports {
        Ports {
            electrum: self.ports[0],
            monitoring: self.ports[1],
            http: if self.conf.http_enabled {
                Some(self.ports[2])
            } else {
                None
            },
        }
    }

    /// The spawn that the current attempt asks for.
    pub open spec fn spawn_request(self) -> SpawnRequestView {
        SpawnRequestView {
            args: launch_args_spec(
                self.conf.args,
                self.conf.network,
                self.caps,
                self.dir->0.path(),
                self.cookie->0,
                self.node,
                endpoints_at(self.ports_by_use()),
            ),
            stdout: Stdio::Null,
            stderr: stderr_of(self.conf.view_stderr),
        }
    }

    /// The launch in another phase.
    pub open spec fn at(self, phase: Phase) -> LaunchView {
        LaunchView { phase, ..self }
    }

    /// Giving up with `error`.
    pub open spec fn fail(self, error: ErrorView) -> (LaunchView, ActionView) {
        (self.at(Phase::Failed), ActionView::Fail(error))
    }

    /// An event that answers nothing that was asked.
    pub open spec fn ignore(self) -> (LaunchView, ActionView) {
        (self, ActionView::Ignored)
    }

    /// Turning to the data directory.
    pub open spec fn enter_dir(self) -> (LaunchView, ActionView) {
        (self.at(Phase::CreatingDir), ActionView::CreateDir(dir_request(self.conf, self.env_root)))
    }

    /// The launch was given up while a subprocess of its own may still run:
    /// that subprocess is to be stopped.
    pub open spec fn must_stop_subprocess(self) -> bool {
        self.phase is Failed && self.alive
    }

    /// Turning to the ports, with none in hand. A daemon that follows the
    /// node's peer traffic gets no further against a node without a peer
    /// endpoint.
    pub open spec fn enter_ports(self) -> (LaunchView, ActionView) {
        if self.node.serves(self.caps) {
            (
                LaunchView { phase: Phase::Allocating, ports: Seq::empty(), ..self },
                ActionView::AllocatePort,
            )
        } else {
            (self.at(Phase::Failed), ActionView::NoPeerEndpoint)
        }
    }

    /// The handshake was refused: a pause and another poll while a handshake
    /// is left for this subprocess, else the end, with the failure of this
    /// one.
    pub open spec fn refused(self, message: Seq<char>) -> (LaunchView, ActionView) {
        if self.polls > 1 {
            (
                LaunchView {
                    phase: Phase::Polling(PollStep::Sleeping),
                    polls: (self.polls - 1) as nat,
                    ..self
                },
                ActionView::Sleep(POLL_INTERVAL_MS),
            )
        } else {
            (
                LaunchView { phase: Phase::Failed, polls: 0, ..self },
                ActionView::Fail(ErrorView::ElectrumClient(message)),
            )
        }
    }

    /// Taking a port: the spawn follows the last one.
    pub open spec fn take_port(self, port: u16) -> (LaunchView, ActionView) {
        let ports = self.ports.push(port);
        if ports.len() == self.conf.ports_needed() {
            let next = LaunchView {
                phase: Phase::Spawning,
                ports,
                polls: POLL_ATTEMPTS as nat,
                ..self
            };
            (next, ActionView::Spawn(next.spawn_request()))
        } else {
            (LaunchView { ports, ..self }, ActionView::AllocatePort)
        }
    }

    /// The subprocess was found dead: a fresh launch on new ports while the
    /// budget lasts, else the end, with the status it died with.
    pub open spec fn early_exit(self, status: ExitStatus) -> (LaunchView, ActionView) {
        if self.budget > 0 {
            LaunchView { budget: (self.budget - 1) as nat, alive: false, ..self }.enter_ports()
        } else {
            (
                LaunchView { phase: Phase::BudgetExhausted, alive: false, ..self },
                ActionView::Fail(ErrorView::EarlyExit(status)),
            )
        }
    }
}

/// What a launch asks for first: nothing but its end where both directory
/// roots are set, and else the node's state.
pub open spec fn first_action(conf: ConfView) -> ActionView {
    if conf.dirs_conflict() {
        ActionView::Fail(ErrorView::BothDirsSpecified)
    } else {
        ActionView::QueryNode
    }
}

/// The launch as it begins: ended already where both directory roots are
/// set, and else waiting for the node's state.
pub open spec fn initial(
    conf: ConfView,
    caps: Capabilities,
    node: NodeParamsView,
    env_root: Option<Seq<char>>,
) -> LaunchView {
    LaunchView {
        phase: if conf.dirs_conflict() {
            Phase::Failed
        } else {
            Phase::QueryingNode
        },
        conf,
        caps,
        node,
        env_root,
        budget: conf.attempts,
        dir: None,
        cookie: None,
        ports: Seq::empty(),
        polls: 0,
        alive: false,
    }
}

/// The launch after `event`, and what it asks for next.
pub open spec fn step(s: LaunchView, event: EventView) -> (LaunchView, ActionView) {
    match s.phase {
        Phase::QueryingNode => match event {
            EventView::NodeInfo(info) => if in_initial_sync(info) {
                (s.at(Phase::WakingNode), ActionView::GenerateBlocks(WAKE_BLOCKS))
            } else {
                s.enter_dir()
            },
            EventView::NodeFailed(message) => s.fail(ErrorView::Bitcoind(message)),
            _ => s.ignore(),
        },
        Phase::WakingNode => match event {
            EventView::BlockGenerated => s.enter_dir(),
            EventView::NodeFailed(message) => s.fail(ErrorView::Bitcoind(message)),
            _ => s.ignore(),
        },
        Phase::CreatingDir => match event {
            EventView::DirReady(path) => {
                let dir = Some(dir_made(dir_request(s.conf, s.env_root), path));
                if s.caps.inline_cookie {
                    (
                        LaunchView { phase: Phase::ReadingCookie, dir, ..s },
                        ActionView::ReadCookie(s.node.cookie_file),
                    )
                } else {
                    LaunchView { dir, cookie: Some(s.node.cookie_file), ..s }.enter_ports()
                }
            },
            EventView::IoFailed(e) => s.fail(ErrorView::Io(e)),
            _ => s.ignore(),
        },
        Phase::ReadingCookie => match event {
            EventView::CookieRead(value) => LaunchView { cookie: Some(value), ..s }.enter_ports(),
            EventView::IoFailed(e) => s.fail(ErrorView::Io(e)),
            _ => s.ignore(),
        },
        Phase::Allocating => match event {
            EventView::PortAllocated(port) => s.take_port(port),
            EventView::IoFailed(e) => s.fail(ErrorView::Io(e)),
            _ => s.ignore(),
        },
        Phase::Spawning => match event {
            EventView::Spawned => (
                LaunchView { phase: Phase::Polling(PollStep::CheckingExit), alive: true, ..s },
                ActionView::CheckExit,
            ),
            EventView::IoFailed(e) => s.fail(ErrorView::Io(e)),
            _ => s.ignore(),
        },
        Phase::Polling(PollStep::CheckingExit) => match event {
            EventView::StillRunning => (
                s.at(Phase::Polling(PollStep::Handshaking)),
                ActionView::Handshake(bind_address_spec(s.ports[0])),
            ),
            EventView::Exited(status) => s.early_exit(status),
            EventView::IoFailed(e) => s.fail(ErrorView::Io(e)),
            _ => s.ignore(),
        },
        Phase::Polling(PollStep::Handshaking) => match event {
            EventView::Connected => (s.at(Phase::Ready), ActionView::Done),
            EventView::Refused(message) => s.refused(message),
            _ => s.ignore(),
        },
        Phase::Polling(PollStep::Sleeping) => match event {
            EventView::Slept => (
                s.at(Phase::Polling(PollStep::CheckingExit)),
                ActionView::CheckExit,
            ),
            _ => s.ignore(),
        },
        Phase::Ready => s.ignore(),
        Phase::BudgetExhausted => s.ignore(),
        Phase::Failed => s.ignore(),
    }
}

/// What a launch is waiting to hear about: the last thing it asked for. A
/// launch that has ended in failure waits for nothing.
pub open spec fn awaited(s: LaunchView) -> ActionView {
    match s.phase {
        Phase::QueryingNode => ActionView::QueryNode,
        Phase::WakingNode => ActionView::GenerateBlocks(WAKE_BLOCKS),
        Phase::CreatingDir => ActionView::CreateDir(dir_request(s.conf, s.env_root)),
        Phase::ReadingCookie => ActionView::ReadCookie(s.node.cookie_file),
        Phase::Allocating => ActionView::AllocatePort,
        Phase::Spawning => ActionView::Spawn(s.spawn_request()),
        Phase::Polling(PollStep::CheckingExit) => ActionView::CheckExit,
        Phase::Polling(PollStep::Handshaking) => ActionView::Handshake(
            bind_address_spec(s.ports[0]),
        ),
        Phase::Polling(PollStep::Sleeping) => ActionView::Sleep(POLL_INTERVAL_MS),
        Phase::Ready => ActionView::Done,
        Phase::BudgetExhausted => ActionView::Ignored,
        Phase::Failed => ActionView::Ignored,
    }
}

/// The launch after a sequence of events.
pub open spec fn run(s: LaunchView, events: Seq<EventView>) -> LaunchView
    decreases events.len(),
{
    if events.len() == 0 {
        s
    } else {
        step(run(s, events.drop_last()), events.last()).0
    }
}

/// What the launch asks for after the last of a sequence of events.
pub open spec fn answer(s: LaunchView, events: Seq<EventView>) -> ActionView
    recommends
        events.len() > 0,
{
    step(run(s, events.drop_last()), events.last()).1
}

/// The last thing that the launch asked for over a sequence of events, not
/// counting the events it ignored; before any event, what it waits for.
pub open spec fn last_asked(s: LaunchView, events: Seq<EventView>) -> ActionView
    decreases events.len(),
{
    if events.len() == 0 {
        awaited(s)
    } else if answer(s, events) is Ignored {
        last_asked(s, events.drop_last())
    } else {
        answer(s, events)
    }
}

/// How many times the launch asks for a spawn over a sequence of events.
pub open spec fn spawns(s: LaunchView, events: Seq<EventView>) -> nat
    decreases events.len(),
{
    if events.len() == 0 {
        0
    } else {
        spawns(s, events.drop_last()) + if answer(s, events) is Spawn {
            1nat
        } else {
            0nat
        }
    }
}

/// How many spawns a launch may still ask for.
pub open spec fn spawns_left(s: LaunchView) -> nat {
    if s.phase.is_final() {
        0
    } else if s.phase.has_spawned() {
        s.budget
    } else {
        s.budget + 1
    }
}

/// A launch begins well-formed.
pub proof fn lemma_initial_wf(
    conf: ConfView,
    caps: Capabilities,
    node: NodeParamsView,
    env_root: Option<Seq<char>>,
)
    requires
        conf.attempts <= u8::MAX,
    ensures
        initial(conf, caps, node, env_root).wf(),
{
}

/// A step keeps a launch well-formed, never changes what it was begun with,
/// and never raises its budget.
pub proof fn lemma_step_wf(s: LaunchView, event: EventView)
    requires
        s.wf(),
    ensures
        step(s, event).0.wf(),
        step(s, event).0.conf == s.conf,
        step(s, event).0.caps == s.caps,
        step(s, event).0.node == s.node,
        step(s, event).0.env_root == s.env_root,
        step(s, event).0.budget <= s.budget,
{
}

/// What a step asks for is what the launch then waits for: an event that
/// was not ignored leaves the launch either waiting for the answer to the
/// action just returned, or ended with a failure just handed out.
pub proof fn lemma_step_asks_awaited(s: LaunchView, event: EventView)
    requires
        s.wf(),
    ensures
        step(s, event).1 is Ignored ==> step(s, event).0 == s,
        s.phase.is_final() ==> step(s, event).1 is Ignored,
        !(step(s, event).1 is Ignored) ==> {
            ||| step(s, event).1 == awaited(step(s, event).0)
            ||| step(s, event).1.gives_up() && (step(s, event).0.phase is Failed || step(
                s,
                event,
            ).0.phase is BudgetExhausted)
        },
{
}

/// Over any sequence of events a launch stays well-formed and keeps what it
/// was begun with, and a launch that has ended stays as it is.
pub proof fn lemma_run_wf(s: LaunchView, events: Seq<EventView>)
    requires
        s.wf(),
    ensures
        run(s, events).wf(),
        run(s, events).conf == s.conf,
        run(s, events).caps == s.caps,
        run(s, events).node == s.node,
        run(s, events).budget <= s.budget,
        s.phase.is_final() ==> run(s, events) == s,
    decreases events.len(),
{
    if events.len() > 0 {
        lemma_run_wf(s, events.drop_last());
        lemma_step_wf(run(s, events.drop_last()), events.last());
    }
}

/// A launch that has not failed waits for the answer to the last thing it
/// asked for, whatever the events were.
pub proof fn lemma_last_asked_is_awaited(s: LaunchView, events: Seq<EventView>)
    requires
        s.wf(),
    ensures
        ({
            let now = run(s, events);
            ||| last_asked(s, events) == awaited(now)
            ||| (now.phase is Failed || now.phase is BudgetExhausted) && !(s.phase is Failed)
                && !(s.phase is BudgetExhausted) && last_asked(s, events).gives_up()
        }),
    decreases events.len(),
{
    if events.len() > 0 {
        let before = run(s, events.drop_last());
        lemma_last_asked_is_awaited(s, events.drop_last());
        lemma_run_wf(s, events.drop_last());
        lemma_step_asks_awaited(before, events.last());
    }
}

/// A configuration with both directory roots set fails with the directory
/// conflict before anything is done: the first thing the launch says is its
/// end with that error, and whatever the events, it asks for nothing at all,
/// neither of the node nor of the operating system.
pub proof fn lemma_conflict_fails_first(
    conf: ConfView,
    caps: Capabilities,
    node: NodeParamsView,
    env_root: Option<Seq<char>>,
    events: Seq<EventView>,
)
    requires
        conf.dirs_conflict(),
    ensures
        first_action(conf) == ActionView::Fail(ErrorView::BothDirsSpecified),
        initial(conf, caps, node, env_root).phase is Failed,
        run(initial(conf, caps, node, env_root), events) == initial(conf, caps, node, env_root),
        events.len() > 0 ==> answer(initial(conf, caps, node, env_root), events) is Ignored,
        spawns(initial(conf, caps, node, env_root), events) == 0,
        steps_taken(initial(conf, caps, node, env_root), events) == 0,
    decreases events.len(),
{
    if events.len() > 0 {
        lemma_conflict_fails_first(conf, caps, node, env_root, events.drop_last());
    }
}

/// A configuration whose directory roots do not conflict begins with the
/// query of the node, and never ends with the directory conflict.
pub proof fn lemma_no_conflict_no_report(
    conf: ConfView,
    caps: Capabilities,
    node: NodeParamsView,
    env_root: Option<Seq<char>>,
    events: Seq<EventView>,
)
    requires
        !conf.dirs_conflict(),
        conf.attempts <= u8::MAX,
    ensures
        first_action(conf) == ActionView::QueryNode,
        first_action(conf) == awaited(initial(conf, caps, node, env_root)),
        events.len() > 0 ==> answer(initial(conf, caps, node, env_root), events)
            != ActionView::Fail(ErrorView::BothDirsSpecified),
{
    if events.len() > 0 {
        lemma_run_wf(initial(conf, caps, node, env_root), events.drop_last());
    }
}

/// The retries are bounded: over any sequence of events a launch asks for
/// no more spawns than it has in hand, which at its beginning is one more
/// than the configured attempts.
pub proof fn lemma_spawns_bounded(s: LaunchView, events: Seq<EventView>)
    requires
        s.wf(),
    ensures
        spawns(s, events) + spawns_left(run(s, events)) <= spawns_left(s),
    decreases events.len(),
{
    if events.len() > 0 {
        lemma_spawns_bounded(s, events.drop_last());
        lemma_run_wf(s, events.drop_last());
    }
}

/// From its beginning a launch asks for at most one spawn more than the
/// configured attempts.
pub proof fn lemma_spawns_within_attempts(
    conf: ConfView,
    caps: Capabilities,
    node: NodeParamsView,
    env_root: Option<Seq<char>>,
    events: Seq<EventView>,
)
    requires
        conf.attempts <= u8::MAX,
    ensures
        spawns(initial(conf, caps, node, env_root), events) <= conf.attempts + 1,
{
    lemma_spawns_bounded(initial(conf, caps, node, env_root), events);
}

/// A spawn is asked for only when the attempt's last port has just been
/// handed out, and the daemon is told to bind exactly the ports of
/// that attempt, in the directory that was made before.
pub proof fn lemma_spawn_binds_fresh_ports(s: LaunchView, event: EventView)
    requires
        s.wf(),
        step(s, event).1 is Spawn,
    ensures
        s.phase is Allocating,
        event is PortAllocated,
        step(s, event).0.phase is Spawning,
        step(s, event).0.ports == s.ports.push(event->PortAllocated_0),
        step(s, event).0.ports.len() == s.conf.ports_needed(),
        step(s, event).0.dir == s.dir,
        s.dir is Some,
        step(s, event).1 == ActionView::Spawn(
            SpawnRequestView {
                args: launch_args_spec(
                    s.conf.args,
                    s.conf.network,
                    s.caps,
                    s.dir->0.path(),
                    s.cookie->0,
                    s.node,
                    endpoints_at(step(s, event).0.ports_by_use()),
                ),
                stdout: Stdio::Null,
                stderr: stderr_of(s.conf.view_stderr),
            },
        ),
{
}

/// How many times the launch asks for a handshake over a sequence of
/// events.
pub open spec fn handshakes(s: LaunchView, events: Seq<EventView>) -> nat
    decreases events.len(),
{
    if events.len() == 0 {
        0
    } else {
        handshakes(s, events.drop_last()) + if answer(s, events) is Handshake {
            1nat
        } else {
            0nat
        }
    }
}

/// How many handshakes a launch may still ask for with the subprocess it
/// has.
pub open spec fn handshakes_in_hand(s: LaunchView) -> nat {
    match s.phase {
        Phase::Spawning => s.polls,
        Phase::Polling(PollStep::CheckingExit) => s.polls,
        Phase::Polling(PollStep::Sleeping) => s.polls,
        Phase::Polling(PollStep::Handshaking) => (s.polls - 1) as nat,
        _ => 0,
    }
}

/// The poll of one subprocess is bounded: over any sequence of events a
/// launch asks for no more handshakes than it has in hand, and
/// [`POLL_ATTEMPTS`] more for each spawn it asks for.
pub proof fn lemma_handshakes_bounded(s: LaunchView, events: Seq<EventView>)
    requires
        s.wf(),
    ensures
        handshakes(s, events) + handshakes_in_hand(run(s, events)) <= handshakes_in_hand(s)
            + POLL_ATTEMPTS * spawns(s, events),
    decreases events.len(),
{
    if events.len() > 0 {
        lemma_handshakes_bounded(s, events.drop_last());
        lemma_run_wf(s, events.drop_last());
    }
}

/// From its beginning a launch asks for at most [`POLL_ATTEMPTS`]
/// handshakes with each of its subprocesses, of which there are at most one
/// more than the configured attempts.
pub proof fn lemma_handshakes_within_attempts(
    conf: ConfView,
    caps: Capabilities,
    node: NodeParamsView,
    env_root: Option<Seq<char>>,
    events: Seq<EventView>,
)
    requires
        conf.attempts <= u8::MAX,
    ensures
        handshakes(initial(conf, caps, node, env_root), events) <= POLL_ATTEMPTS * spawns(
            initial(conf, caps, node, env_root),
            events,
        ),
        handshakes(initial(conf, caps, node, env_root), events) <= POLL_ATTEMPTS * (conf.attempts
            + 1),
{
    let begun = initial(conf, caps, node, env_root);
    lemma_handshakes_bounded(begun, events);
    lemma_spawns_within_attempts(conf, caps, node, env_root, events);
    assert(POLL_ATTEMPTS * spawns(begun, events) <= POLL_ATTEMPTS * (conf.attempts + 1))
        by (nonlinear_arith)
        requires
            spawns(begun, events) <= conf.attempts + 1,
    ;
}

/// The most steps that one subprocess can take: its ports, its spawn, and
/// three steps for each poll.
pub open spec fn attempt_steps() -> nat {
    (3 * POLL_ATTEMPTS + 5) as nat
}

/// The most steps that a launch can still take.
pub open spec fn steps_left(s: LaunchView) -> nat {
    let later = s.budget * attempt_steps();
    match s.phase {
        Phase::QueryingNode => later + attempt_steps() + 4,
        Phase::WakingNode => later + attempt_steps() + 3,
        Phase::CreatingDir => later + attempt_steps() + 2,
        Phase::ReadingCookie => later + attempt_steps() + 1,
        Phase::Allocating => (later + 3 * POLL_ATTEMPTS + 2 + s.conf.ports_needed()
            - s.ports.len()) as nat,
        Phase::Spawning => later + 3 * s.polls + 1,
        Phase::Polling(PollStep::CheckingExit) => later + 3 * s.polls,
        Phase::Polling(PollStep::Handshaking) => (later + 3 * s.polls - 1) as nat,
        Phase::Polling(PollStep::Sleeping) => later + 3 * s.polls + 1,
        Phase::Ready => 0,
        Phase::BudgetExhausted => 0,
        Phase::Failed => 0,
    }
}

/// How many events of a sequence the launch did not ignore.
pub open spec fn steps_taken(s: LaunchView, events: Seq<EventView>) -> nat
    decreases events.len(),
{
    if events.len() == 0 {
        0
    } else {
        steps_taken(s, events.drop_last()) + if answer(s, events) is Ignored {
            0nat
        } else {
            1nat
        }
    }
}

/// Every step brings a launch nearer to its end: an event that is not
/// ignored lowers the number of steps that are left.
pub proof fn lemma_step_nears_end(s: LaunchView, event: EventView)
    requires
        s.wf(),
        !(step(s, event).1 is Ignored),
    ensures
        steps_left(step(s, event).0) < steps_left(s),
{
    let next = step(s, event).0;
    if next.budget < s.budget {
        assert(next.budget * attempt_steps() + attempt_steps() <= s.budget * attempt_steps())
            by (nonlinear_arith)
            requires
                next.budget + 1 <= s.budget,
        ;
    }
}

/// A launch ends: whatever the events, it takes no more steps than are left
/// to it, which at its beginning is a number fixed by the configured
/// attempts.
pub proof fn lemma_launch_ends(s: LaunchView, events: Seq<EventView>)
    requires
        s.wf(),
    ensures
        steps_taken(s, events) + steps_left(run(s, events)) <= steps_left(s),
    decreases events.len(),
{
    if events.len() > 0 {
        let before = run(s, events.drop_last());
        lemma_launch_ends(s, events.drop_last());
        lemma_run_wf(s, events.drop_last());
        if !(step(before, events.last()).1 is Ignored) {
            lemma_step_nears_end(before, events.last());
        }
    }
}

/// A daemon found dead is launched again on fresh ports while an attempt is
/// left, at the cost of that attempt; without one the launch ends with the
/// status the daemon died with. Nothing else ends a launch with an early
/// exit.
pub proof fn lemma_early_exit(s: LaunchView, event: EventView)
    requires
        s.wf(),
    ensures
        s.phase == Phase::Polling(PollStep::CheckingExit) && event is Exited && s.budget > 0 ==> {
            &&& step(s, event).1 == ActionView::AllocatePort
            &&& step(s, event).0.phase is Allocating
            &&& step(s, event).0.budget == s.budget - 1
            &&& step(s, event).0.ports.len() == 0
            &&& step(s, event).0.dir == s.dir
        },
        s.phase == Phase::Polling(PollStep::CheckingExit) && event is Exited && s.budget == 0
            ==> {
            &&& step(s, event).1 == ActionView::Fail(ErrorView::EarlyExit(event->Exited_0))
            &&& step(s, event).0.phase is BudgetExhausted
        },
        step(s, event).1 is Fail && step(s, event).1->Fail_0 is EarlyExit ==> {
            &&& s.phase == Phase::Polling(PollStep::CheckingExit)
            &&& s.budget == 0
            &&& event == EventView::Exited(step(s, event).1->Fail_0->EarlyExit_0)
        },
        step(s, event).0.phase is BudgetExhausted && !(s.phase is BudgetExhausted) ==> step(
            s,
            event,
        ).1 is Fail && step(s, event).1->Fail_0 is EarlyExit,
{
}

/// Events one after the other are taken in one after the other.
pub proof fn lemma_run_concat(s: LaunchView, first: Seq<EventView>, then: Seq<EventView>)
    ensures
        run(s, first + then) == run(run(s, first), then),
        spawns(s, first + then) == spawns(s, first) + spawns(run(s, first), then),
        handshakes(s, first + then) == handshakes(s, first) + handshakes(run(s, first), then),
    decreases then.len(),
{
    if then.len() == 0 {
        assert(first + then =~= first);
    } else {
        lemma_run_concat(s, first, then.drop_last());
        assert((first + then).drop_last() =~= first + then.drop_last());
        assert((first + then).last() == then.last());
    }
}

/// One more event is one more step.
pub proof fn lemma_run_push(s: LaunchView, events: Seq<EventView>, event: EventView)
    ensures
        run(s, events.push(event)) == step(run(s, events), event).0,
        answer(s, events.push(event)) == step(run(s, events), event).1,
        spawns(s, events.push(event)) == spawns(s, events) + if step(
            run(s, events),
            event,
        ).1 is Spawn {
            1nat
        } else {
            0nat
        },
        handshakes(s, events.push(event)) == handshakes(s, events) + if step(
            run(s, events),
            event,
        ).1 is Handshake {
            1nat
        } else {
            0nat
        },
{
    assert(events.push(event).drop_last() =~= events);
}

/// The events that hand out the ports of one attempt.
pub open spec fn port_events(fresh: Seq<u16>) -> Seq<EventView> {
    fresh.map_values(|port: u16| EventView::PortAllocated(port))
}

/// The events of polls that the daemon does not answer: for each, the
/// subprocess is seen alive, the handshake is refused with a message, and
/// the pause ends.
pub open spec fn refused_polls(refusals: Seq<Seq<char>>) -> Seq<EventView>
    decreases refusals.len(),
{
    if refusals.len() == 0 {
        Seq::empty()
    } else {
        refused_polls(refusals.drop_last()) + seq![
            EventView::StillRunning,
            EventView::Refused(refusals.last()),
            EventView::Slept,
        ]
    }
}

/// The events of the end of one attempt that is lost: the subprocess is
/// found dead, fresh ports are handed out, and the next subprocess is
/// spawned.
pub open spec fn retry_events(status: ExitStatus, fresh: Seq<u16>) -> Seq<EventView> {
    seq![EventView::Exited(status)] + port_events(fresh) + seq![EventView::Spawned]
}

/// An attempt that is lost: the subprocess refuses some handshakes, then it
/// is found dead, and fresh ports are handed out for the next one.
pub struct LostAttempt {
    /// The messages of the handshakes that were refused.
    pub refusals: Seq<Seq<char>>,
    /// The status that the subprocess died with.
    pub status: ExitStatus,
    /// The ports handed out after it.
    pub fresh: Seq<u16>,
}

impl LostAttempt {
    /// The events of the attempt.
    pub open spec fn events(self) -> Seq<EventView> {
        refused_polls(self.refusals) + retry_events(self.status, self.fresh)
    }

    /// The attempt is one that a launch with this configuration can lose:
    /// the subprocess dies before the poll has reached its ceiling, and as
    /// many ports are handed out as the daemon binds.
    pub open spec fn fits(self, conf: ConfView) -> bool {
        self.refusals.len() < POLL_ATTEMPTS && self.fresh.len() == conf.ports_needed()
    }
}

/// The events of attempts lost in a row.
pub open spec fn retries(rounds: Seq<LostAttempt>) -> Seq<EventView>
    decreases rounds.len(),
{
    if rounds.len() == 0 {
        Seq::empty()
    } else {
        retries(rounds.drop_last()) + rounds.last().events()
    }
}

/// Handshakes that are refused below the ceiling change nothing but the
/// count of those that are left: the launch comes back to the check of its
/// subprocess, and no spawn is asked for.
pub proof fn lemma_refused_polls_wait(s: LaunchView, refusals: Seq<Seq<char>>)
    requires
        s.wf(),
        s.phase == Phase::Polling(PollStep::CheckingExit),
        refusals.len() < s.polls,
    ensures
        run(s, refused_polls(refusals)) == (LaunchView {
            polls: (s.polls - refusals.len()) as nat,
            ..s
        }),
        spawns(s, refused_polls(refusals)) == 0,
        handshakes(s, refused_polls(refusals)) == refusals.len(),
    decreases refusals.len(),
{
    if refusals.len() > 0 {
        let earlier = refused_polls(refusals.drop_last());
        lemma_refused_polls_wait(s, refusals.drop_last());
        let nothing = Seq::<EventView>::empty();
        let alive = EventView::StillRunning;
        let refused = EventView::Refused(refusals.last());
        let before = run(s, earlier);
        assert(run(before, nothing) == before);
        assert(spawns(before, nothing) == 0);
        assert(handshakes(before, nothing) == 0);
        lemma_run_push(before, nothing, alive);
        lemma_run_push(before, nothing.push(alive), refused);
        lemma_run_push(before, nothing.push(alive).push(refused), EventView::Slept);
        assert(nothing.push(alive).push(refused).push(EventView::Slept) =~= seq![
            alive,
            refused,
            EventView::Slept,
        ]);
        lemma_run_concat(s, earlier, seq![alive, refused, EventView::Slept]);
    }
}

/// With as many ports handed out as the daemon binds, a launch that waits
/// for its first port arrives at one spawn, on exactly those ports.
pub proof fn lemma_ports_reach_spawn(s: LaunchView, fresh: Seq<u16>)
    requires
        s.wf(),
        s.phase is Allocating,
        s.ports.len() == 0,
        fresh.len() == s.conf.ports_needed(),
    ensures
        run(s, port_events(fresh)) == (LaunchView {
            phase: Phase::Spawning,
            ports: fresh,
            polls: POLL_ATTEMPTS as nat,
            ..s
        }),
        spawns(s, port_events(fresh)) == 1,
        handshakes(s, port_events(fresh)) == 0,
        answer(s, port_events(fresh)) is Spawn,
{
    let events = port_events(fresh);
    let nothing = Seq::<EventView>::empty();
    assert(run(s, nothing) == s);
    assert(spawns(s, nothing) == 0);
    assert(handshakes(s, nothing) == 0);
    lemma_run_push(s, nothing, events[0]);
    lemma_run_push(s, nothing.push(events[0]), events[1]);
    let two = nothing.push(events[0]).push(events[1]);
    assert(run(s, two).ports =~= fresh.take(2));
    if s.conf.http_enabled {
        lemma_run_push(s, two, events[2]);
        assert(two.push(events[2]) =~= events);
        assert(run(s, events).ports =~= fresh);
    } else {
        assert(two =~= events);
        assert(fresh.take(2) =~= fresh);
    }
}

/// The end of one lost attempt costs one attempt of the budget and one
/// spawn: when the daemon is found dead while an attempt is left, the launch
/// polls the next subprocess on the fresh ports, in the directory it had,
/// with the whole ceiling of handshakes before it.
pub proof fn lemma_retry_polls_again(s: LaunchView, status: ExitStatus, fresh: Seq<u16>)
    requires
        s.wf(),
        s.phase == Phase::Polling(PollStep::CheckingExit),
        s.budget > 0,
        fresh.len() == s.conf.ports_needed(),
    ensures
        run(s, retry_events(status, fresh)) == (LaunchView {
            budget: (s.budget - 1) as nat,
            ports: fresh,
            polls: POLL_ATTEMPTS as nat,
            ..s
        }),
        spawns(s, retry_events(status, fresh)) == 1,
        handshakes(s, retry_events(status, fresh)) == 0,
{
    let nothing = Seq::<EventView>::empty();
    let exited = seq![EventView::Exited(status)];
    let spawned = seq![EventView::Spawned];
    let dead = step(s, EventView::Exited(status)).0;
    assert(run(s, nothing) == s);
    assert(spawns(s, nothing) == 0);
    assert(handshakes(s, nothing) == 0);
    lemma_run_push(s, nothing, EventView::Exited(status));
    assert(nothing.push(EventView::Exited(status)) =~= exited);
    lemma_step_wf(s, EventView::Exited(status));
    lemma_ports_reach_spawn(dead, fresh);
    lemma_run_concat(s, exited, port_events(fresh));
    lemma_run_concat(s, exited + port_events(fresh), spawned);
    let spawning = run(dead, port_events(fresh));
    assert(run(spawning, nothing) == spawning);
    assert(spawns(spawning, nothing) == 0);
    assert(handshakes(spawning, nothing) == 0);
    lemma_run_push(spawning, nothing, EventView::Spawned);
    assert(nothing.push(EventView::Spawned) =~= spawned);
}

/// One lost attempt, with the handshakes its subprocess refused before it
/// died, costs one attempt of the budget and one spawn, and leaves the
/// launch polling the next subprocess.
pub proof fn lemma_lost_attempt(s: LaunchView, lost: LostAttempt)
    requires
        s.wf(),
        s.phase == Phase::Polling(PollStep::CheckingExit),
        s.polls == POLL_ATTEMPTS,
        s.budget > 0,
        lost.fits(s.conf),
    ensures
        run(s, lost.events()) == (LaunchView {
            budget: (s.budget - 1) as nat,
            ports: lost.fresh,
            ..s
        }),
        spawns(s, lost.events()) == 1,
        handshakes(s, lost.events()) == lost.refusals.len(),
{
    lemma_refused_polls_wait(s, lost.refusals);
    let waited = run(s, refused_polls(lost.refusals));
    lemma_retry_polls_again(waited, lost.status, lost.fresh);
    lemma_run_concat(s, refused_polls(lost.refusals), retry_events(lost.status, lost.fresh));
}

/// Construction succeeds within the budget: when `k` subprocesses in a row
/// are lost, each after refusing fewer handshakes than the ceiling, `k`
/// being no more than the attempts that are left, and the next one answers
/// before the ceiling, the launch ends ready after exactly `k` more spawns,
/// on the ports that were handed out last, and in the directory it had.
pub proof fn lemma_retries_reach_ready(
    s: LaunchView,
    rounds: Seq<LostAttempt>,
    last_refusals: Seq<Seq<char>>,
)
    requires
        s.wf(),
        s.phase == Phase::Polling(PollStep::CheckingExit),
        s.polls == POLL_ATTEMPTS,
        rounds.len() <= s.budget,
        forall|i: int| 0 <= i < rounds.len() ==> (#[trigger] rounds[i]).fits(s.conf),
        last_refusals.len() < POLL_ATTEMPTS,
    ensures
        ({
            let polling = run(s, retries(rounds));
            let waited = run(polling, refused_polls(last_refusals));
            let answered = step(step(waited, EventView::StillRunning).0, EventView::Connected);
            &&& polling == (LaunchView {
                budget: (s.budget - rounds.len()) as nat,
                ports: if rounds.len() > 0 {
                    rounds.last().fresh
                } else {
                    s.ports
                },
                ..s
            })
            &&& spawns(s, retries(rounds)) == rounds.len()
            &&& spawns(polling, refused_polls(last_refusals)) == 0
            &&& answered.1 is Done
            &&& answered.0 == (LaunchView {
                phase: Phase::Ready,
                polls: (POLL_ATTEMPTS - last_refusals.len()) as nat,
                ..polling
            })
        }),
    decreases rounds.len(),
{
    if rounds.len() > 0 {
        let earlier = rounds.drop_last();
        lemma_retries_reach_ready(s, earlier, last_refusals);
        let before = run(s, retries(earlier));
        lemma_lost_attempt(before, rounds.last());
        lemma_run_concat(s, retries(earlier), rounds.last().events());
    }
    lemma_run_wf(s, retries(rounds));
    lemma_refused_polls_wait(run(s, retries(rounds)), last_refusals);
}

/// A launch is over with success only when the daemon has just answered a
/// handshake, and that handshake was tried at the address of the Electrum
/// protocol: the first port that the successful attempt was given.
pub proof fn lemma_ready_follows_handshake(s: LaunchView, event: EventView)
    requires
        s.wf(),
        step(s, event).1 is Done || (step(s, event).0.phase is Ready && !(s.phase is Ready)),
    ensures
        s.phase == Phase::Polling(PollStep::Handshaking),
        event is Connected,
        step(s, event) == (s.at(Phase::Ready), ActionView::Done),
        awaited(s) == ActionView::Handshake(bind_address_spec(step(s, event).0.ports[0])),
{
}

/// A launch in progress.
#[derive(Debug)]
pub struct Launch {
    phase: Phase,
    args: Vec<String>,
    view_stderr: bool,
    http_enabled: bool,
    network: String,
    tmpdir: Option<String>,
    staticdir: Option<String>,
    attempts: u8,
    caps: Capabilities,
    node: NodeParams,
    env_root: Option<String>,
    budget: u8,
    dir: Option<DataDir>,
    cookie: Option<String>,
    ports: Vec<u16>,
    polls: u16,
    alive: bool,
}

impl View for Launch {
    type V = LaunchView;

    closed spec fn view(&self) -> LaunchView {
        LaunchView {
            phase: self.phase,
            conf: ConfView {
                args: strings(self.args@),
                view_stderr: self.view_stderr,
                http_enabled: self.http_enabled,
                network: self.network@,
                tmpdir: option_text(self.tmpdir),
                staticdir: option_text(self.staticdir),
                attempts: self.attempts as nat,
            },
            caps: self.caps,
            node: self.node@,
            env_root: option_text(self.env_root),
            budget: self.budget as nat,
            dir: match self.dir {
                Some(dir) => Some(dir@),
                None => None,
            },
            cookie: option_text(self.cookie),
            ports: self.ports@,
            polls: self.polls as nat,
            alive: self.alive,
        }
    }
}

impl Launch {
    #[verifier::type_invariant]
    spec fn inv(&self) -> bool {
        self@.wf()
    }

    /// Begins a launch; what to do first is for the caller to say.
    pub(crate) fn begin(
        conf: &Conf,
        caps: Capabilities,
        node: NodeParams,
        env_root: Option<String>,
    ) -> (launch: Launch)
        ensures
            launch@ == initial(conf@, caps, node@, option_text(env_root)),
    {
        Launch {
            phase: if conf.dirs_conflict() {
                Phase::Failed
            } else {
                Phase::QueryingNode
            },
            args: owned_texts(&conf.args),
            view_stderr: conf.view_stderr,
            http_enabled: conf.http_enabled,
            network: String::from_str(conf.network),
            tmpdir: copy_text(&conf.tmpdir),
            staticdir: copy_text(&conf.staticdir),
            attempts: conf.attempts,
            caps,
            node,
            env_root,
            budget: conf.attempts,
            dir: None,
            cookie: None,
            ports: Vec::new(),
            polls: 0,
            alive: false,
        }
    }

    /// Where the launch stands.
    pub fn phase(&self) -> (phase: Phase)
        ensures
            phase == self@.phase,
    {
        self.phase
    }

    /// The fresh launches that are left.
    pub fn budget(&self) -> (budget: u8)
        ensures
            budget == self@.budget,
    {
        self.budget
    }

    /// Tells whether the launch was given up while a subprocess of its own
    /// may still run. Such a subprocess is to be stopped.
    pub fn must_stop_subprocess(&self) -> (stop: bool)
        ensures
            stop == self@.must_stop_subprocess(),
    {
        self.alive && self.phase == Phase::Failed
    }

    /// The ports of the current attempt, in the order they were handed out.
    pub fn ports(&self) -> (ports: &Vec<u16>)
        ensures
            ports@ == self@.ports,
    {
        &self.ports
    }

    fn ports_by_use(&self) -> (ports: Ports)
        requires
            self@.ports.len() == self@.conf.ports_needed(),
        ensures
            ports == self@.ports_by_use(),
    {
        Ports {
            electrum: self.ports[0],
            monitoring: self.ports[1],
            http: if self.http_enabled {
                Some(self.ports[2])
            } else {
                None
            },
        }
    }

    fn spawn_request(&self) -> (request: SpawnRequest)
        requires
            self@.phase.has_ports(),
        ensures
            request@ == self@.spawn_request(),
    {
        proof {
            use_type_invariant(self);
        }
        let endpoints = EndpointSet::at(self.ports_by_use());
        let db_dir = match &self.dir {
            Some(dir) => dir.path(),
            None => String::new(),
        };
        let cookie = match &self.cookie {
            Some(cookie) => cookie.as_str(),
            None => "",
        };
        SpawnRequest {
            args: launch_args(
                &self.args,
                self.network.as_str(),
                self.caps,
                db_dir.as_str(),
                cookie,
                &self.node,
                &endpoints,
            ),
            stdout: Stdio::Null,
            stderr: if self.view_stderr {
                Stdio::Inherit
            } else {
                Stdio::Null
            },
        }
    }

    fn fail(self, error: Error) -> (next: (Launch, Action))
        ensures
            (next.0@, next.1@) == self@.fail(error@),
    {
        proof {
            use_type_invariant(&self);
        }
        (Launch { phase: Phase::Failed, ..self }, Action::Fail(error))
    }

    fn enter_dir(self) -> (next: (Launch, Action))
        requires
            self@.phase is QueryingNode || self@.phase is WakingNode,
        ensures
            (next.0@, next.1@) == self@.enter_dir(),
    {
        proof {
            use_type_invariant(&self);
        }
        match DirRequest::plan(&self.tmpdir, &self.staticdir, &self.env_root) {
            Ok(request) => (
                Launch { phase: Phase::CreatingDir, ..self },
                Action::CreateDir(request),
            ),
            Err(error) => self.fail(error),
        }
    }

    fn enter_ports(self) -> (next: (Launch, Action))
        requires
            self@.phase is CreatingDir || self@.phase is ReadingCookie,
            self@.dir is Some,
            self@.cookie is Some,
        ensures
            (next.0@, next.1@) == self@.enter_ports(),
    {
        proof {
            use_type_invariant(&self);
        }
        if self.node.serves(self.caps) {
            (Launch { phase: Phase::Allocating, ports: Vec::new(), ..self }, Action::AllocatePort)
        } else {
            (Launch { phase: Phase::Failed, ..self }, Action::NoPeerEndpoint)
        }
    }

    fn refused(self, message: String) -> (next: (Launch, Action))
        requires
            self@.phase is Polling,
        ensures
            (next.0@, next.1@) == self@.refused(message@),
    {
        proof {
            use_type_invariant(&self);
        }
        if self.polls > 1 {
            let polls = self.polls - 1;
            (
                Launch { phase: Phase::Polling(PollStep::Sleeping), polls, ..self },
                Action::Sleep(POLL_INTERVAL_MS),
            )
        } else {
            (
                Launch { phase: Phase::Failed, polls: 0, ..self },
                Action::Fail(Error::ElectrumClient(message)),
            )
        }
    }

    fn take_port(self, port: u16) -> (next: (Launch, Action))
        requires
            self@.phase is Allocating,
        ensures
            (next.0@, next.1@) == self@.take_port(port),
    {
        proof {
            use_type_invariant(&self);
        }
        let needed: usize = if self.http_enabled {
            3
        } else {
            2
        };
        let mut ports = self.ports;
        ports.push(port);
        if ports.len() == needed {
            let next = Launch {
                phase: Phase::Spawning,
                ports,
                polls: POLL_ATTEMPTS,
                alive: self.alive,
                args: self.args,
                view_stderr: self.view_stderr,
                http_enabled: self.http_enabled,
                network: self.network,
                tmpdir: self.tmpdir,
                staticdir: self.staticdir,
                attempts: self.attempts,
                caps: self.caps,
                node: self.node,
                env_root: self.env_root,
                budget: self.budget,
                dir: self.dir,
                cookie: self.cookie,
            };
            let request = next.spawn_request();
            (next, Action::Spawn(request))
        } else {
            (
                Launch {
                    phase: self.phase,
                    ports,
                    polls: self.polls,
                    alive: self.alive,
                    args: self.args,
                    view_stderr: self.view_stderr,
                    http_enabled: self.http_enabled,
                    network: self.network,
                    tmpdir: self.tmpdir,
                    staticdir: self.staticdir,
                    attempts: self.attempts,
                    caps: self.caps,
                    node: self.node,
                    env_root: self.env_root,
                    budget: self.budget,
                    dir: self.dir,
                    cookie: self.cookie,
                },
                Action::AllocatePort,
            )
        }
    }

    fn early_exit(self, status: ExitStatus) -> (next: (Launch, Action))
        requires
            self@.phase is Polling,
        ensures
            (next.0@, next.1@) == self@.early_exit(status),
    {
        proof {
            use_type_invariant(&self);
        }
        if self.budget > 0 {
            let budget = self.budget - 1;
            (
                Launch {
                    phase: Phase::Allocating,
                    ports: Vec::new(),
                    budget,
                    alive: false,
                    ..self
                },
                Action::AllocatePort,
            )
        } else {
            (
                Launch { phase: Phase::BudgetExhausted, alive: false, ..self },
                Action::Fail(Error::EarlyExit(status)),
            )
        }
    }

    /// The Electrum port, the HTTP port and the data directory of a daemon
    /// that answered; `None` unless the launch has ended in
    /// [`Phase::Ready`].
    pub(crate) fn ready_parts(&self) -> (parts: Option<(u16, Option<u16>, DataDir)>)
        ensures
            self@.phase is Ready <==> parts is Some,
            parts matches Some((electrum, http, dir)) ==> {
                &&& self@.wf()
                &&& electrum == self@.ports[0]
                &&& http == (if self@.conf.http_enabled {
                    Some(self@.ports[2])
                } else {
                    None
                })
                &&& dir@ == self@.dir->0
            },
    {
        proof {
            use_type_invariant(self);
        }
        match (self.phase, &self.dir) {
            (Phase::Ready, Some(dir)) => Some(
                (
                    self.ports[0],
                    if self.http_enabled {
                        Some(self.ports[2])
                    } else {
                        None
                    },
                    dir.duplicate(),
                ),
            ),
            _ => None,
        }
    }

    /// Takes in what came of the last action and says what to do next.
    ///
    /// An event that does not answer the last action changes nothing and is
    /// answered with [`Action::Ignored`]; so is every event once the launch
    /// has ended. After [`Action::Fail`] and [`Action::NoPeerEndpoint`] the
    /// launch has ended; [`Launch::must_stop_subprocess`] then tells whether
    /// a subprocess of it is left to be stopped.
    pub fn step(self, event: Event) -> (next: (Launch, Action))
        ensures
            (next.0@, next.1@) == step(self@, event@),
    {
        proof {
            use_type_invariant(&self);
        }
        match self.phase {
            Phase::QueryingNode => match event {
                Event::NodeInfo(info) => if node_needs_block(&info) {
                    (Launch { phase: Phase::WakingNode, ..self }, Action::GenerateBlocks(WAKE_BLOCKS))
                } else {
                    self.enter_dir()
                },
                Event::NodeFailed(message) => self.fail(Error::Bitcoind(message)),
                _ => (self, Action::Ignored),
            },
            Phase::WakingNode => match event {
                Event::BlockGenerated => self.enter_dir(),
                Event::NodeFailed(message) => self.fail(Error::Bitcoind(message)),
                _ => (self, Action::Ignored),
            },
            Phase::CreatingDir => match event {
                Event::DirReady(path) => {
                    let dir = match DirRequest::plan(
                        &self.tmpdir,
                        &self.staticdir,
                        &self.env_root,
                    ) {
                        Ok(request) => Some(request.made(path)),
                        Err(_) => None,
                    };
                    if self.caps.inline_cookie {
                        let cookie_file = self.node.cookie_file.clone();
                        (
                            Launch { phase: Phase::ReadingCookie, dir, ..self },
                            Action::ReadCookie(cookie_file),
                        )
                    } else {
                        let cookie = Some(self.node.cookie_file.clone());
                        Launch { dir, cookie, ..self }.enter_ports()
                    }
                },
                Event::IoFailed(e) => self.fail(Error::Io(e)),
                _ => (self, Action::Ignored),
            },
            Phase::ReadingCookie => match event {
                Event::CookieRead(value) => Launch { cookie: Some(value), ..self }.enter_ports(),
                Event::IoFailed(e) => self.fail(Error::Io(e)),
                _ => (self, Action::Ignored),
            },
            Phase::Allocating => match event {
                Event::PortAllocated(port) => self.take_port(port),
                Event::IoFailed(e) => self.fail(Error::Io(e)),
                _ => (self, Action::Ignored),
            },
            Phase::Spawning => match event {
                Event::Spawned => (
                    Launch { phase: Phase::Polling(PollStep::CheckingExit), alive: true, ..self },
                    Action::CheckExit,
                ),
                Event::IoFailed(e) => self.fail(Error::Io(e)),
                _ => (self, Action::Ignored),
            },
            Phase::Polling(PollStep::CheckingExit) => match event {
                Event::StillRunning => {
                    let address = bind_address(self.ports[0]);
                    (
                        Launch { phase: Phase::Polling(PollStep::Handshaking), ..self },
                        Action::Handshake(address),
                    )
                },
                Event::Exited(status) => self.early_exit(status),
                Event::IoFailed(e) => self.fail(Error::Io(e)),
                _ => (self, Action::Ignored),
            },
            Phase::Polling(PollStep::Handshaking) => match event {
                Event::Connected => (Launch { phase: Phase::Ready, ..self }, Action::Done),
                Event::Refused(message) => self.refused(message),
                _ => (self, Action::Ignored),
            },
            Phase::Polling(PollStep::Sleeping) => match event {
                Event::Slept => (
                    Launch { phase: Phase::Polling(PollStep::CheckingExit), ..self },
                    Action::CheckExit,
                ),
                _ => (self, Action::Ignored),
            },
            Phase::Ready => (self, Action::Ignored),
            Phase::BudgetExhausted => (self, Action::Ignored),
            Phase::Failed => (self, Action::Ignored),
        }
    }
}

} // verus!
