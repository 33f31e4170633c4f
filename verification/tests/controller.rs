use corepc_node::serde_json::Value;
use electrsd::args::NodeParams;
use electrsd::conf::Conf;
use electrsd::controller::{ElectrsD, Signal, Status, TeardownAction, TeardownEvent};
use electrsd::error::Error;
use electrsd::launch::{Action, Event};
use electrsd::versions::Capabilities;
use nix::errno::Errno;

fn node() -> NodeParams {
    NodeParams {
        cookie_file: String::from("/node/regtest/.cookie"),
        rpc_socket: String::from("127.0.0.1:18443"),
        p2p_socket: Some(String::from("127.0.0.1:18444")),
    }
}

/// A controller as a launch hands it over.
fn controller(staticdir: Option<&str>, signals: bool) -> ElectrsD {
    let mut conf = Conf::default();
    conf.staticdir = staticdir.map(String::from);
    let (launch, _) = ElectrsD::with_conf(&conf, Capabilities::of(None, false), node(), None);
    let (launch, _) = launch.step(Event::NodeInfo(Value::Null));
    let (launch, _) = launch.step(Event::DirReady(String::from("/tmp/.tmp123")));
    let (launch, _) = launch.step(Event::PortAllocated(50001));
    let (launch, _) = launch.step(Event::PortAllocated(4224));
    let (launch, _) = launch.step(Event::Spawned);
    let (launch, _) = launch.step(Event::StillRunning);
    let (launch, action) = launch.step(Event::Connected);
    assert!(matches!(action, Action::Done));
    launch.finish(signals).unwrap()
}

fn io_error() -> std::io::Error {
    std::io::Error::new(std::io::ErrorKind::Other, "gone")
}

#[test]
fn workdir_is_the_data_directory() {
    assert_eq!(controller(None, true).workdir(), "/tmp/.tmp123");
    assert_eq!(controller(Some("/var/electrs"), true).workdir(), "/var/electrs");
}

#[test]
fn addresses_are_reported() {
    let c = controller(None, true);
    assert_eq!(c.electrum_url(), "0.0.0.0:50001");
    assert_eq!(c.electrum_url, "0.0.0.0:50001");
    assert_eq!(c.esplora_url(), &None);
}

#[test]
fn trigger_sends_the_sync_signal() {
    assert_eq!(controller(None, true).trigger(), Some(Signal::SyncNow));
    assert_eq!(controller(Some("/var/electrs"), true).trigger(), Some(Signal::SyncNow));
}

#[test]
fn trigger_does_nothing_without_signals() {
    assert_eq!(controller(None, false).trigger(), None);
    assert_eq!(controller(Some("/var/electrs"), false).trigger(), None);
}

#[test]
fn a_persistent_daemon_is_interrupted_and_waited_for() {
    let mut c = controller(Some("/var/electrs"), true);
    assert!(matches!(c.kill(), TeardownAction::Send(Signal::Interrupt)));
    assert_eq!(c.status(), Status::Interrupting);
    assert!(matches!(c.after(TeardownEvent::SignalSent), TeardownAction::WaitExit));
    assert_eq!(c.status(), Status::Waiting);
    assert!(matches!(c.after(TeardownEvent::Exited), TeardownAction::Done));
    assert_eq!(c.status(), Status::Stopped);
}

#[test]
fn a_persistent_daemon_is_not_stopped_before_it_has_exited() {
    let mut c = controller(Some("/var/electrs"), true);
    c.kill();
    assert_ne!(c.status(), Status::Stopped);
    assert!(matches!(c.after(TeardownEvent::Killed), TeardownAction::Ignored));
    assert!(matches!(c.after(TeardownEvent::Exited), TeardownAction::Ignored));
    assert_ne!(c.status(), Status::Stopped);
    c.after(TeardownEvent::SignalSent);
    assert_ne!(c.status(), Status::Stopped);
    assert!(matches!(c.after(TeardownEvent::SignalSent), TeardownAction::Ignored));
    assert_ne!(c.status(), Status::Stopped);
}

#[test]
fn a_temporary_daemon_is_killed_without_waiting() {
    let mut c = controller(None, true);
    assert!(matches!(c.kill(), TeardownAction::ForceKill));
    assert_eq!(c.status(), Status::Killing);
    assert!(matches!(c.after(TeardownEvent::Killed), TeardownAction::Done));
    assert_eq!(c.status(), Status::Stopped);
}

#[test]
fn without_signals_a_persistent_daemon_is_killed_and_waited_for() {
    let mut c = controller(Some("/var/electrs"), false);
    assert!(matches!(c.kill(), TeardownAction::ForceKill));
    assert!(matches!(c.after(TeardownEvent::Killed), TeardownAction::WaitExit));
    assert_eq!(c.status(), Status::Waiting);
    assert!(matches!(c.after(TeardownEvent::Exited), TeardownAction::Done));
    assert_eq!(c.status(), Status::Stopped);
}

#[test]
fn kill_twice_is_kill_once() {
    let mut c = controller(None, true);
    c.kill();
    c.after(TeardownEvent::Killed);
    assert!(matches!(c.kill(), TeardownAction::Done));
    assert_eq!(c.status(), Status::Stopped);
    assert!(matches!(c.release(), TeardownAction::Done));
    assert_eq!(c.status(), Status::Stopped);
    assert!(matches!(c.after(TeardownEvent::Killed), TeardownAction::Ignored));
    assert_eq!(c.trigger(), None);
}

#[test]
fn a_failed_signal_is_handed_out() {
    let mut c = controller(Some("/var/electrs"), true);
    c.kill();
    match c.after(TeardownEvent::SignalFailed(Errno::ESRCH)) {
        TeardownAction::Fail(Error::Nix(e)) => assert_eq!(e, Errno::ESRCH),
        other => panic!("{:?}", other),
    }
    assert_eq!(c.status(), Status::Running);
}

#[test]
fn a_failed_kill_or_wait_is_handed_out() {
    let mut c = controller(None, true);
    c.kill();
    assert!(matches!(c.after(TeardownEvent::KillFailed(io_error())), TeardownAction::Fail(Error::Io(_))));
    assert_eq!(c.status(), Status::Running);
    let mut c = controller(Some("/var/electrs"), true);
    c.kill();
    c.after(TeardownEvent::SignalSent);
    assert!(matches!(c.after(TeardownEvent::WaitFailed(io_error())), TeardownAction::Fail(Error::Io(_))));
    assert_eq!(c.status(), Status::Running);
}

#[test]
fn release_asks_for_the_end_of_the_daemon() {
    let mut c = controller(None, true);
    assert!(matches!(c.release(), TeardownAction::ForceKill));
    assert!(matches!(c.after(TeardownEvent::Killed), TeardownAction::Done));
    assert_eq!(c.status(), Status::Stopped);
    let mut c = controller(Some("/var/electrs"), true);
    assert!(matches!(c.release(), TeardownAction::Send(Signal::Interrupt)));
    assert!(matches!(c.after(TeardownEvent::SignalSent), TeardownAction::WaitExit));
    assert!(matches!(c.after(TeardownEvent::Exited), TeardownAction::Done));
    assert_eq!(c.status(), Status::Stopped);
}

#[test]
fn release_swallows_every_failure() {
    let mut c = controller(Some("/var/electrs"), true);
    c.release();
    assert!(matches!(c.after(TeardownEvent::SignalFailed(Errno::EPERM)), TeardownAction::Done));
    let mut c = controller(None, true);
    c.release();
    assert!(matches!(c.after(TeardownEvent::KillFailed(io_error())), TeardownAction::Done));
    let mut c = controller(Some("/var/electrs"), true);
    c.release();
    c.after(TeardownEvent::SignalSent);
    assert!(matches!(c.after(TeardownEvent::WaitFailed(io_error())), TeardownAction::Done));
}

#[test]
fn a_teardown_that_failed_can_be_tried_again() {
    let mut c = controller(Some("/var/electrs"), true);
    c.kill();
    c.after(TeardownEvent::SignalFailed(Errno::EPERM));
    assert!(matches!(c.kill(), TeardownAction::Send(Signal::Interrupt)));
    c.after(TeardownEvent::SignalSent);
    assert!(matches!(c.after(TeardownEvent::Exited), TeardownAction::Done));
    assert_eq!(c.status(), Status::Stopped);
}
