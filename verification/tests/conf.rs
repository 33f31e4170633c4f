use electrsd::conf::{Conf, DEFAULT_ATTEMPTS};
use electrsd::versions::{Capabilities, Version};

#[test]
fn default_values() {
    let mut conf = Conf::default();
    conf.view_stderr = false;
    conf.http_enabled = false;
    conf.network = "regtest";
    conf.tmpdir = None;
    conf.staticdir = None;
    assert_eq!(conf, Conf::default());
}

#[test]
fn default_has_no_arguments_and_three_attempts() {
    let conf = Conf::default();
    assert!(conf.args.is_empty());
    assert_eq!(conf.attempts, 3);
    assert_eq!(DEFAULT_ATTEMPTS, 3);
    assert_eq!(conf.network, "regtest");
    assert!(!conf.view_stderr);
    assert!(!conf.http_enabled);
    assert_eq!(conf.tmpdir, None);
    assert_eq!(conf.staticdir, None);
}

#[test]
fn default_for_a_verbose_daemon_asks_for_logs() {
    let conf = Conf::default_for(Capabilities::of(Some(Version::V0_9_1), false));
    assert_eq!(conf.args, vec!["-vvv"]);
    let conf = Conf::default_for(Capabilities::of(Some(Version::V0_8_10), false));
    assert_eq!(conf.args, vec!["-vvv"]);
    let conf = Conf::default_for(Capabilities::of(Some(Version::EsploraA33e97e1), false));
    assert_eq!(conf.args, vec!["-vvv"]);
    let conf = Conf::default_for(Capabilities::of(None, true));
    assert_eq!(conf.args, vec!["-vvv"]);
}

#[test]
fn default_for_a_quiet_daemon_has_no_arguments() {
    let conf = Conf::default_for(Capabilities::of(Some(Version::V0_9_11), false));
    assert!(conf.args.is_empty());
    let conf = Conf::default_for(Capabilities::of(Some(Version::V0_10_6), false));
    assert!(conf.args.is_empty());
    assert_eq!(conf, Conf::default());
}

#[test]
fn directories_conflict_only_when_both_are_set() {
    let mut conf = Conf::default();
    assert!(!conf.dirs_conflict());
    conf.tmpdir = Some(String::from("/tmp/a"));
    assert!(!conf.dirs_conflict());
    conf.staticdir = Some(String::from("/var/b"));
    assert!(conf.dirs_conflict());
    conf.tmpdir = None;
    assert!(!conf.dirs_conflict());
}

#[test]
fn http_takes_a_third_port() {
    let mut conf = Conf::default();
    assert_eq!(conf.ports_needed(), 2);
    conf.http_enabled = true;
    assert_eq!(conf.ports_needed(), 3);
}
