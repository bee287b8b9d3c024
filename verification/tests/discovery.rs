use qu::discovery::{
    choose_mixer, choose_upstream, device_name, discovery_reply, first_lowest, is_discovery_request,
};
use qu::protocol::DISCOVERY_MESSAGE;

fn names(list: &[&str]) -> Vec<String> {
    list.iter().map(|name| name.to_string()).collect()
}

#[test]
fn recognises_discovery_request() {
    assert!(is_discovery_request(b"QU Find"));
    assert!(is_discovery_request(&DISCOVERY_MESSAGE));
    assert!(!is_discovery_request(b"QU Find\0"));
    assert!(!is_discovery_request(b"QU"));
    assert!(!is_discovery_request(&[]));
}

#[test]
fn discovery_reply_is_device_name() {
    assert_eq!(
        discovery_reply(b"QU Find", b"squib\0"),
        Some(b"squib\0".to_vec())
    );
    assert_eq!(discovery_reply(b"QU Lost", b"squib\0"), None);
}

#[test]
fn device_name_drops_terminating_nul() {
    assert_eq!(device_name(b"squib\0"), "squib");
    assert_eq!(device_name(b"Qu-16"), "Qu-16");
    assert_eq!(device_name(b"Qu\0\0"), "Qu\0");
    assert_eq!(device_name(b""), "");
}

#[test]
fn device_name_replaces_invalid_utf8() {
    assert_eq!(device_name(&[0x51, 0xff, 0x00]), "Q\u{FFFD}");
}

#[test]
fn first_lowest_picks_first_of_ties() {
    assert_eq!(first_lowest(&[3, 1, 2, 1]), Some(1));
    assert_eq!(first_lowest(&[2, 2]), Some(0));
    assert_eq!(first_lowest(&[]), None);
}

#[test]
fn proxy_prefers_real_mixers() {
    assert_eq!(choose_upstream(&names(&["Quippi", "Qu-16", "squib"])), Some(1));
    assert_eq!(choose_upstream(&names(&["quippi", "squib"])), Some(1));
    assert_eq!(choose_upstream(&names(&["quippi"])), Some(0));
    assert_eq!(choose_upstream(&[]), None);
}

#[test]
fn proxy_ranks_names_case_insensitively() {
    assert_eq!(choose_upstream(&names(&["QUIPPI", "squib"])), Some(1));
    assert_eq!(choose_upstream(&names(&["SQUIB", "Qu-32"])), Some(1));
}

#[test]
fn control_surface_prefers_proxies() {
    assert_eq!(choose_mixer(&names(&["Qu-16", "squib", "QUIPPI"])), Some(2));
    assert_eq!(choose_mixer(&names(&["Qu-16", "Squib"])), Some(1));
    assert_eq!(choose_mixer(&names(&["Qu-16", "Qu-24"])), Some(0));
    assert_eq!(choose_mixer(&[]), None);
}
