//! The errors that starting, driving and stopping the daemon can end in.

use vstd::prelude::*;
use vstd::std_specs::convert::FromSpecImpl;

verus! {

/// `std::io::Error`, carried through as an opaque value.
#[verifier::external_type_specification]
#[verifier::external_body]
pub struct ExIoError(std::io::Error);

/// `nix::errno::Errno`, the error of every `nix` call, carried through as an
/// opaque value.
#[verifier::external_type_specification]
#[verifier::external_body]
pub struct ExErrno(nix::errno::Errno);

/// How a subprocess ended: its exit code, or `None` when a signal ended it.
#[derive(Debug, Clone, Copy, PartialEq, Eq, Structural)]
pub struct ExitStatus {
    pub code: Option<i32>,
}

/// All the possible errors of this crate.
#[derive(Debug)]
pub enum Error {
    /// An I/O error of the operating system.
    Io(std::io::Error),
    /// A failed control call to the companion node, by its message.
    Bitcoind(String),
    /// A failure of the Electrum client, by its message.
    ElectrumClient(String),
    /// An error of signal delivery.
    Nix(nix::errno::Errno),
    /// The daemon exited before it became reachable and no attempt is left.
    EarlyExit(ExitStatus),
    /// Both a temporary and a persistent directory root were configured.
    BothDirsSpecified,
    /// No daemon executable could be resolved.
    NoElectrsExecutableFound,
    /// Both executable overrides were given.
    BothEnvVars,
}

impl From<std::io::Error> for Error {
    fn from(e: std::io::Error) -> (r: Self) {
        Error::Io(e)
    }
}

impl FromSpecImpl<std::io::Error> for Error {
    open spec fn obeys_from_spec() -> bool {
        true
    }

    open spec fn from_spec(e: std::io::Error) -> Self {
        Error::Io(e)
    }
}

impl From<nix::errno::Errno> for Error {
    fn from(e: nix::errno::Errno) -> (r: Self) {
        Error::Nix(e)
    }
}

impl FromSpecImpl<nix::errno::Errno> for Error {
    open spec fn obeys_from_spec() -> bool {
        true
    }

    open spec fn from_spec(e: nix::errno::Errno) -> Self {
        Error::Nix(e)
    }
}

/// The mathematical content of an [`Error`].
pub enum ErrorView {
    Io(std::io::Error),
    Bitcoind(Seq<char>),
    ElectrumClient(Seq<char>),
    Nix(nix::errno::Errno),
    EarlyExit(ExitStatus),
    BothDirsSpecified,
    NoElectrsExecutableFound,
    BothEnvVars,
}

impl View for Error {
    type V = ErrorView;

    open spec fn view(&self) -> ErrorView {
        match self {
            Error::Io(e) => ErrorView::Io(*e),
            Error::Bitcoind(message) => ErrorView::Bitcoind(message@),
            Error::ElectrumClient(message) => ErrorView::ElectrumClient(message@),
            Error::Nix(e) => ErrorView::Nix(*e),
            Error::EarlyExit(status) => ErrorView::EarlyExit(*status),
            Error::BothDirsSpecified => ErrorView::BothDirsSpecified,
            Error::NoElectrsExecutableFound => ErrorView::NoElectrsExecutableFound,
            Error::BothEnvVars => ErrorView::BothEnvVars,
        }
    }
}

} // verus!
