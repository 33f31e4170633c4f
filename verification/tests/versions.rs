use electrsd::versions::{Capabilities, Os, Version};
use electrsd::electrs_name;

#[test]
fn name_of_a_release_on_linux() {
    assert_eq!(electrs_name(Os::Linux, Some(Version::V0_9_11)), "electrs_linux_v0.9.11");
}

#[test]
fn name_without_a_release() {
    assert_eq!(electrs_name(Os::Macos, None), "electrs_macos_NA");
    assert_eq!(electrs_name(Os::Undefined, None), "electrs_undefined_NA");
}

#[test]
fn capabilities_by_release() {
    let current = Capabilities::of(None, false);
    assert!(!current.inline_cookie && !current.bulk_import && !current.verbose);
    let old = Capabilities::of(Some(Version::V0_8_10), false);
    assert!(!old.inline_cookie && old.bulk_import && old.verbose);
    let legacy = Capabilities::of(None, true);
    assert!(legacy.inline_cookie && legacy.bulk_import && legacy.verbose);
    let chatty = Capabilities::of(Some(Version::V0_9_1), false);
    assert!(!chatty.inline_cookie && !chatty.bulk_import && chatty.verbose);
}
