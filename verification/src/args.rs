//! The command line of the daemon.

use crate::endpoints::{EndpointSet, EndpointSetView};
use crate::text::{push_text, strings};
use crate::versions::Capabilities;
use vstd::prelude::*;

verus! {

/// How to reach the companion node.
#[derive(Debug, Clone, PartialEq, Eq)]
pub struct NodeParams {
    /// The path of the node's cookie file.
    pub cookie_file: String,
    /// The address of the node's control endpoint.
    pub rpc_socket: String,
    /// The address of the node's peer endpoint, if it has one.
    pub p2p_socket: Option<String>,
}

/// The mathematical content of a [`NodeParams`].
pub struct NodeParamsView {
    pub cookie_file: Seq<char>,
    pub rpc_socket: Seq<char>,
    pub p2p_socket: Option<Seq<char>>,
}

impl View for NodeParams {
    type V = NodeParamsView;

    open spec fn view(&self) -> NodeParamsView {
        NodeParamsView {
            cookie_file: self.cookie_file@,
            rpc_socket: self.rpc_socket@,
            p2p_socket: match self.p2p_socket {
                Some(address) => Some(address@),
                None => None,
            },
        }
    }
}

impl NodeParamsView {
    /// The node offers what a daemon with these capabilities connects to: a
    /// daemon that follows peer traffic needs the node's peer endpoint.
    pub open spec fn serves(self, caps: Capabilities) -> bool {
        !caps.bulk_import ==> self.p2p_socket is Some
    }
}

impl NodeParams {
    /// Tells whether the node offers what a daemon with these capabilities
    /// connects to.
    pub fn serves(&self, caps: Capabilities) -> (b: bool)
        ensures
            b == self@.serves(caps),
    {
        caps.bulk_import || self.p2p_socket.is_some()
    }
}

/// Where a standard stream of the subprocess goes.
#[derive(Debug, Clone, Copy, PartialEq, Eq, Structural)]
pub enum Stdio {
    /// To the stream of the parent.
    Inherit,
    /// Nowhere.
    Null,
}

/// All that is needed to spawn the daemon, but the executable.
#[derive(Debug, Clone, PartialEq, Eq)]
pub struct SpawnRequest {
    /// The arguments, in order.
    pub args: Vec<String>,
    /// Where standard output goes: always nowhere.
    pub stdout: Stdio,
    /// Where standard error goes.
    pub stderr: Stdio,
}

/// The mathematical content of a [`SpawnRequest`].
pub struct SpawnRequestView {
    pub args: Seq<Seq<char>>,
    pub stdout: Stdio,
    pub stderr: Stdio,
}

impl View for SpawnRequest {
    type V = SpawnRequestView;

    open spec fn view(&self) -> SpawnRequestView {
        SpawnRequestView { args: strings(self.args@), stdout: self.stdout, stderr: self.stderr }
    }
}

/// The authentication option of the daemon and its value.
pub open spec fn cookie_args(caps: Capabilities, cookie: Seq<char>) -> Seq<Seq<char>> {
    if caps.inline_cookie {
        seq!["--cookie"@, cookie]
    } else {
        seq!["--cookie-file"@, cookie]
    }
}

/// The option by which the daemon gets its blocks: the node's peer endpoint,
/// or a bulk import over the control endpoint.
pub open spec fn block_source_args(caps: Capabilities, p2p_socket: Option<Seq<char>>) -> Seq<
    Seq<char>,
> {
    if caps.bulk_import {
        seq!["--jsonrpc-import"@]
    } else {
        seq!["--daemon-p2p-addr"@, p2p_socket->0]
    }
}

/// The options that name the addresses the daemon binds.
pub open spec fn endpoint_args(endpoints: EndpointSetView) -> Seq<Seq<char>> {
    seq![
        "--electrum-rpc-addr"@,
        endpoints.electrum_url,
        "--monitoring-addr"@,
        endpoints.monitoring_url,
    ] + match endpoints.esplora_url {
        Some(url) => seq!["--http-addr"@, url],
        None => Seq::empty(),
    }
}

/// The whole argument vector: the caller's arguments, the data directory,
/// the network, the authentication material, the node's control endpoint,
/// the block source, and the addresses to bind.
pub open spec fn launch_args_spec(
    conf_args: Seq<Seq<char>>,
    network: Seq<char>,
    caps: Capabilities,
    db_dir: Seq<char>,
    cookie: Seq<char>,
    node: NodeParamsView,
    endpoints: EndpointSetView,
) -> Seq<Seq<char>> {
    conf_args + seq!["--db-dir"@, db_dir, "--network"@, network] + cookie_args(caps, cookie)
        + seq!["--daemon-rpc-addr"@, node.rpc_socket] + block_source_args(caps, node.p2p_socket)
        + endpoint_args(endpoints)
}

/// Where the daemon's standard error goes.
pub open spec fn stderr_of(view_stderr: bool) -> Stdio {
    if view_stderr {
        Stdio::Inherit
    } else {
        Stdio::Null
    }
}

/// Builds the daemon's argument vector. `cookie` is the path of the node's
/// cookie file, or the cookie's value for a daemon that takes it inline;
/// `db_dir` is the path of the data directory.
pub fn launch_args(
    conf_args: &Vec<String>,
    network: &str,
    caps: Capabilities,
    db_dir: &str,
    cookie: &str,
    node: &NodeParams,
    endpoints: &EndpointSet,
) -> (args: Vec<String>)
    requires
        node@.serves(caps),
    ensures
        strings(args@) == launch_args_spec(
            strings(conf_args@),
            network@,
            caps,
            db_dir@,
            cookie@,
            node@,
            endpoints@,
        ),
{
    let mut args: Vec<String> = Vec::new();
    let mut i: usize = 0;
    while i < conf_args.len()
        invariant
            0 <= i <= conf_args.len(),
            strings(args@) == strings(conf_args@).subrange(0, i as int),
        decreases conf_args.len() - i,
    {
        push_text(&mut args, conf_args[i].as_str());
        i = i + 1;
    }
    push_text(&mut args, "--db-dir");
    push_text(&mut args, db_dir);
    push_text(&mut args, "--network");
    push_text(&mut args, network);
    if caps.inline_cookie {
        push_text(&mut args, "--cookie");
    } else {
        push_text(&mut args, "--cookie-file");
    }
    push_text(&mut args, cookie);
    push_text(&mut args, "--daemon-rpc-addr");
    push_text(&mut args, node.rpc_socket.as_str());
    if caps.bulk_import {
        push_text(&mut args, "--jsonrpc-import");
    } else {
        push_text(&mut args, "--daemon-p2p-addr");
        match &node.p2p_socket {
            Some(address) => push_text(&mut args, address.as_str()),
            None => {},
        }
    }
    push_text(&mut args, "--electrum-rpc-addr");
    push_text(&mut args, endpoints.electrum_url.as_str());
    push_text(&mut args, "--monitoring-addr");
    push_text(&mut args, endpoints.monitoring_url.as_str());
    match &endpoints.esplora_url {
        Some(url) => {
            push_text(&mut args, "--http-addr");
            push_text(&mut args, url.as_str());
        },
        None => {},
    }
    assert(strings(args@) =~= launch_args_spec(
        strings(conf_args@),
        network@,
        caps,
        db_dir@,
        cookie@,
        node@,
        endpoints@,
    ));
    args
}

} // verus!
