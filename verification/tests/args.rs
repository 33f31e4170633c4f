use electrsd::args::{launch_args, NodeParams};
use electrsd::endpoints::{EndpointSet, Ports};
use electrsd::versions::{Capabilities, Version};

fn node() -> NodeParams {
    NodeParams {
        cookie_file: String::from("/node/regtest/.cookie"),
        rpc_socket: String::from("127.0.0.1:18443"),
        p2p_socket: Some(String::from("127.0.0.1:18444")),
    }
}

fn owned(args: &[&str]) -> Vec<String> {
    args.iter().map(|s| String::from(*s)).collect()
}

#[test]
fn arguments_of_a_current_daemon() {
    let endpoints = EndpointSet::at(Ports { electrum: 50001, monitoring: 4224, http: None });
    let args = launch_args(
        &owned(&[]),
        "regtest",
        Capabilities::of(None, false),
        "/tmp/db",
        "/node/regtest/.cookie",
        &node(),
        &endpoints,
    );
    assert_eq!(
        args,
        owned(&[
            "--db-dir",
            "/tmp/db",
            "--network",
            "regtest",
            "--cookie-file",
            "/node/regtest/.cookie",
            "--daemon-rpc-addr",
            "127.0.0.1:18443",
            "--daemon-p2p-addr",
            "127.0.0.1:18444",
            "--electrum-rpc-addr",
            "0.0.0.0:50001",
            "--monitoring-addr",
            "0.0.0.0:4224",
        ])
    );
}

#[test]
fn arguments_of_the_caller_come_first() {
    let endpoints = EndpointSet::at(Ports { electrum: 1, monitoring: 2, http: None });
    let args = launch_args(
        &owned(&["-vvv", "--index-batch-size=10"]),
        "signet",
        Capabilities::of(Some(Version::V0_9_1), false),
        "/d",
        "/c",
        &node(),
        &endpoints,
    );
    assert_eq!(args[0], "-vvv");
    assert_eq!(args[1], "--index-batch-size=10");
    assert_eq!(args[2], "--db-dir");
    assert_eq!(args[3], "/d");
    assert_eq!(args[4], "--network");
    assert_eq!(args[5], "signet");
    assert_eq!(args.len(), 16);
}

#[test]
fn an_old_daemon_imports_in_bulk() {
    let endpoints = EndpointSet::at(Ports { electrum: 50001, monitoring: 4224, http: Some(3002) });
    let mut node = node();
    node.p2p_socket = None;
    let args = launch_args(
        &owned(&["-vvv"]),
        "regtest",
        Capabilities::of(Some(Version::EsploraA33e97e1), false),
        "/tmp/db",
        "/node/regtest/.cookie",
        &node,
        &endpoints,
    );
    assert_eq!(
        args,
        owned(&[
            "-vvv",
            "--db-dir",
            "/tmp/db",
            "--network",
            "regtest",
            "--cookie-file",
            "/node/regtest/.cookie",
            "--daemon-rpc-addr",
            "127.0.0.1:18443",
            "--jsonrpc-import",
            "--electrum-rpc-addr",
            "0.0.0.0:50001",
            "--monitoring-addr",
            "0.0.0.0:4224",
            "--http-addr",
            "0.0.0.0:3002",
        ])
    );
}

#[test]
fn a_legacy_daemon_takes_the_cookie_inline() {
    let endpoints = EndpointSet::at(Ports { electrum: 50001, monitoring: 4224, http: None });
    let args = launch_args(
        &owned(&[]),
        "regtest",
        Capabilities::of(None, true),
        "/tmp/db",
        "__cookie__:secret",
        &node(),
        &endpoints,
    );
    assert_eq!(
        args,
        owned(&[
            "--db-dir",
            "/tmp/db",
            "--network",
            "regtest",
            "--cookie",
            "__cookie__:secret",
            "--daemon-rpc-addr",
            "127.0.0.1:18443",
            "--jsonrpc-import",
            "--electrum-rpc-addr",
            "0.0.0.0:50001",
            "--monitoring-addr",
            "0.0.0.0:4224",
        ])
    );
}

#[test]
fn a_node_without_peer_endpoint_serves_only_bulk_importers() {
    let mut node = node();
    assert!(node.serves(Capabilities::of(None, false)));
    node.p2p_socket = None;
    assert!(!node.serves(Capabilities::of(None, false)));
    assert!(!node.serves(Capabilities::of(Some(Version::V0_10_6), false)));
    assert!(node.serves(Capabilities::of(Some(Version::V0_8_10), false)));
    assert!(node.serves(Capabilities::of(None, true)));
}
