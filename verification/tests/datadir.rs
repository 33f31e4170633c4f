use electrsd::conf::Conf;
use electrsd::datadir::{plan_dir, DataDir, DirRequest};
use electrsd::error::Error;

#[test]
fn both_roots_are_refused() {
    let mut conf = Conf::default();
    conf.tmpdir = Some(String::from("/tmp/x"));
    conf.staticdir = Some(String::from("/var/x"));
    assert!(matches!(plan_dir(&conf, &None), Err(Error::BothDirsSpecified)));
    assert!(matches!(plan_dir(&conf, &Some(String::from("/ram"))), Err(Error::BothDirsSpecified)));
}

#[test]
fn persistent_root_wins_over_the_environment() {
    let mut conf = Conf::default();
    conf.staticdir = Some(String::from("/var/electrs"));
    assert_eq!(
        plan_dir(&conf, &Some(String::from("/ram"))).unwrap(),
        DirRequest::Persistent(String::from("/var/electrs"))
    );
    assert_eq!(
        plan_dir(&conf, &None).unwrap(),
        DirRequest::Persistent(String::from("/var/electrs"))
    );
}

#[test]
fn temporary_root_wins_over_the_environment() {
    let mut conf = Conf::default();
    conf.tmpdir = Some(String::from("/scratch"));
    assert_eq!(
        plan_dir(&conf, &Some(String::from("/ram"))).unwrap(),
        DirRequest::TemporaryIn(String::from("/scratch"))
    );
}

#[test]
fn environment_root_is_used_when_nothing_is_set() {
    let conf = Conf::default();
    assert_eq!(plan_dir(&conf, &Some(String::from("/ram"))).unwrap(), DirRequest::TemporaryIn(String::from("/ram")));
}

#[test]
fn default_place_is_the_last_resort() {
    let conf = Conf::default();
    assert_eq!(plan_dir(&conf, &None).unwrap(), DirRequest::TemporaryDefault);
}

#[test]
fn a_persistent_directory_keeps_the_path_asked_for() {
    let request = DirRequest::Persistent(String::from("/var/electrs"));
    let dir = request.made(String::from("/somewhere/else"));
    assert_eq!(dir, DataDir::Persistent(String::from("/var/electrs")));
    assert!(dir.is_persistent());
    assert_eq!(dir.path(), "/var/electrs");
}

#[test]
fn a_temporary_directory_is_where_it_was_made() {
    let dir = DirRequest::TemporaryIn(String::from("/scratch")).made(String::from("/scratch/.tmpA1"));
    assert_eq!(dir, DataDir::Temporary(String::from("/scratch/.tmpA1")));
    assert!(!dir.is_persistent());
    assert_eq!(dir.path(), "/scratch/.tmpA1");
    let dir = DirRequest::TemporaryDefault.made(String::from("/tmp/.tmpB2"));
    assert_eq!(dir, DataDir::Temporary(String::from("/tmp/.tmpB2")));
    assert_eq!(dir.duplicate(), dir);
}
