//! The configuration of a daemon instance.

use crate::text::{option_text, texts};
use crate::versions::Capabilities;
use vstd::prelude::*;

verus! {

/// The number of fresh launches that a configuration allows after an early
/// exit, unless changed.
pub const DEFAULT_ATTEMPTS: u8 = 3;

/// Configuration parameters of the daemon. [`Conf::default`] gives the most
/// common choice; change the public fields from there.
#[derive(Debug, PartialEq, Eq, Clone)]
#[non_exhaustive]
pub struct Conf<'a> {
    /// Command line arguments handed to the daemon before the ones this crate
    /// adds. The options this crate sets itself (`--db-dir`, `--network`,
    /// `--cookie`, `--cookie-file`, `--daemon-rpc-addr`,
    /// `--daemon-p2p-addr`, `--jsonrpc-import`, `--electrum-rpc-addr`,
    /// `--monitoring-addr`, `--http-addr`) must not occur here.
    pub args: Vec<&'a str>,
    /// If `true`, the daemon's standard error is shown.
    pub view_stderr: bool,
    /// If `true`, the daemon also serves HTTP.
    pub http_enabled: bool,
    /// The network; it must be the companion node's.
    pub network: &'a str,
    /// The root under which a fresh temporary data directory is made.
    pub tmpdir: Option<String>,
    /// The persistent data directory. It cannot be set together with
    /// `tmpdir`.
    pub staticdir: Option<String>,
    /// How many times the daemon is launched afresh when it exits before it
    /// is reachable. The operating system hands out free ports without
    /// reserving them, so another process may take one before the daemon
    /// binds it; a new launch gets new ports.
    pub attempts: u8,
}

/// The mathematical content of a [`Conf`].
pub struct ConfView {
    pub args: Seq<Seq<char>>,
    pub view_stderr: bool,
    pub http_enabled: bool,
    pub network: Seq<char>,
    pub tmpdir: Option<Seq<char>>,
    pub staticdir: Option<Seq<char>>,
    pub attempts: nat,
}

impl ConfView {
    /// Both directory roots are set, which no daemon can be started with.
    pub open spec fn dirs_conflict(self) -> bool {
        self.tmpdir is Some && self.staticdir is Some
    }

    /// The number of ports that the daemon binds.
    pub open spec fn ports_needed(self) -> nat {
        if self.http_enabled {
            3
        } else {
            2
        }
    }
}

/// The arguments that a daemon with the given capabilities starts with when
/// the caller names none.
pub open spec fn default_args(caps: Capabilities) -> Seq<Seq<char>> {
    if caps.verbose {
        seq!["-vvv"@]
    } else {
        Seq::empty()
    }
}

/// The configuration that [`Conf::default_for`] gives.
pub open spec fn default_conf(caps: Capabilities) -> ConfView {
    ConfView {
        args: default_args(caps),
        view_stderr: false,
        http_enabled: false,
        network: "regtest"@,
        tmpdir: None,
        staticdir: None,
        attempts: DEFAULT_ATTEMPTS as nat,
    }
}

impl<'a> View for Conf<'a> {
    type V = ConfView;

    open spec fn view(&self) -> ConfView {
        ConfView {
            args: texts(self.args@),
            view_stderr: self.view_stderr,
            http_enabled: self.http_enabled,
            network: self.network@,
            tmpdir: option_text(self.tmpdir),
            staticdir: option_text(self.staticdir),
            attempts: self.attempts as nat,
        }
    }
}

impl<'a> Conf<'a> {
    /// The most common configuration for a daemon with the given
    /// capabilities: the `regtest` network, a temporary directory in the
    /// default place, no HTTP, standard error hidden.
    pub fn default_for(caps: Capabilities) -> (conf: Conf<'static>)
        ensures
            conf@ == default_conf(caps),
    {
        let mut args: Vec<&'static str> = Vec::new();
        if caps.verbose {
            args.push("-vvv");
        }
        let conf = Conf {
            args,
            view_stderr: false,
            http_enabled: false,
            network: "regtest",
            tmpdir: None,
            staticdir: None,
            attempts: DEFAULT_ATTEMPTS,
        };
        assert(conf@.args =~= default_args(caps));
        conf
    }

    /// Tells whether both directory roots are set.
    pub fn dirs_conflict(&self) -> (b: bool)
        ensures
            b == self@.dirs_conflict(),
    {
        self.tmpdir.is_some() && self.staticdir.is_some()
    }

    /// The number of ports that the daemon binds: one for the Electrum
    /// protocol, one for monitoring, and one for HTTP where that is enabled.
    pub fn ports_needed(&self) -> (n: u8)
        ensures
            n == self@.ports_needed(),
    {
        if self.http_enabled {
            3
        } else {
            2
        }
    }
}

impl Default for Conf<'_> {
    /// The configuration for a current daemon: [`Conf::default_for`] with no
    /// capability set.
    fn default() -> (conf: Self)
        ensures
            conf@ == default_conf(
                Capabilities { inline_cookie: false, bulk_import: false, verbose: false },
            ),
    {
        Conf::default_for(
            Capabilities { inline_cookie: false, bulk_import: false, verbose: false },
        )
    }
}

} // verus!
