use electrsd::error::{Error, ExitStatus};
use nix::errno::Errno;

#[test]
fn io_errors_are_wrapped() {
    let e = std::io::Error::new(std::io::ErrorKind::NotFound, "no such file");
    match Error::from(e) {
        Error::Io(inner) => assert_eq!(inner.kind(), std::io::ErrorKind::NotFound),
        other => panic!("{:?}", other),
    }
}

#[test]
fn signal_errors_are_wrapped() {
    match Error::from(Errno::ESRCH) {
        Error::Nix(inner) => assert_eq!(inner, Errno::ESRCH),
        other => panic!("{:?}", other),
    }
}

#[test]
fn question_mark_converts() {
    fn failing() -> Result<(), Error> {
        Err(std::io::Error::new(std::io::ErrorKind::Other, "x"))?;
        Ok(())
    }
    assert!(matches!(failing(), Err(Error::Io(_))));
}

#[test]
fn errors_can_be_shown() {
    assert_eq!(format!("{:?}", Error::BothDirsSpecified), "BothDirsSpecified");
    assert_eq!(format!("{:?}", Error::BothEnvVars), "BothEnvVars");
    assert_eq!(format!("{:?}", Error::NoElectrsExecutableFound), "NoElectrsExecutableFound");
    assert_eq!(
        format!("{:?}", Error::EarlyExit(ExitStatus { code: Some(1) })),
        "EarlyExit(ExitStatus { code: Some(1) })"
    );
    assert_eq!(format!("{:?}", Error::Bitcoind(String::from("down"))), "Bitcoind(\"down\")");
    assert_eq!(
        format!("{:?}", Error::ElectrumClient(String::from("closed"))),
        "ElectrumClient(\"closed\")"
    );
}
