use electrsd::endpoints::{bind_address, EndpointSet, Ports};
use electrsd::text::decimal_string;

#[test]
fn numerals() {
    assert_eq!(decimal_string(0), "0");
    assert_eq!(decimal_string(7), "7");
    assert_eq!(decimal_string(9), "9");
    assert_eq!(decimal_string(10), "10");
    assert_eq!(decimal_string(99), "99");
    assert_eq!(decimal_string(100), "100");
    assert_eq!(decimal_string(1234), "1234");
    assert_eq!(decimal_string(50001), "50001");
    assert_eq!(decimal_string(60401), "60401");
    assert_eq!(decimal_string(65535), "65535");
}

#[test]
fn numerals_agree_with_the_standard_library() {
    let mut n: u16 = 0;
    loop {
        assert_eq!(decimal_string(n), format!("{}", n));
        if n > 65535 - 257 {
            break;
        }
        n += 257;
    }
}

#[test]
fn address_on_all_interfaces() {
    assert_eq!(bind_address(0), "0.0.0.0:0");
    assert_eq!(bind_address(80), "0.0.0.0:80");
    assert_eq!(bind_address(60401), "0.0.0.0:60401");
    assert_eq!(bind_address(65535), "0.0.0.0:65535");
}

#[test]
fn different_ports_different_addresses() {
    assert_ne!(bind_address(1), bind_address(10));
    assert_ne!(bind_address(10), bind_address(100));
    assert_ne!(bind_address(6040), bind_address(60401));
}

#[test]
fn endpoints_without_http() {
    let endpoints = EndpointSet::at(Ports { electrum: 50001, monitoring: 4224, http: None });
    assert_eq!(endpoints.electrum_url, "0.0.0.0:50001");
    assert_eq!(endpoints.monitoring_url, "0.0.0.0:4224");
    assert_eq!(endpoints.esplora_url, None);
}

#[test]
fn endpoints_with_http() {
    let endpoints = EndpointSet::at(Ports { electrum: 50001, monitoring: 4224, http: Some(3002) });
    assert_eq!(endpoints.electrum_url, "0.0.0.0:50001");
    assert_eq!(endpoints.monitoring_url, "0.0.0.0:4224");
    assert_eq!(endpoints.esplora_url, Some(String::from("0.0.0.0:3002")));
}

#[test]
fn two_daemons_on_different_ports_share_no_address() {
    let first = EndpointSet::at(Ports { electrum: 40001, monitoring: 40002, http: Some(40003) });
    let second = EndpointSet::at(Ports { electrum: 40004, monitoring: 40005, http: Some(40006) });
    let of_first = vec![
        first.electrum_url.clone(),
        first.monitoring_url.clone(),
        first.esplora_url.clone().unwrap(),
    ];
    let of_second = vec![
        second.electrum_url.clone(),
        second.monitoring_url.clone(),
        second.esplora_url.clone().unwrap(),
    ];
    for a in &of_first {
        for b in &of_second {
            assert_ne!(a, b);
        }
    }
}
