use netservices::noise::{PeerAddr, XkAddr};

#[test]
fn upgrade_promotes_once() {
    let mut addr: XkAddr<u64, String> = XkAddr::Partial(String::from("10.0.0.1:4000"));
    assert_eq!(addr.as_addr(), "10.0.0.1:4000");
    assert!(addr.upgrade(7));
    assert_eq!(addr, XkAddr::Full(PeerAddr::new(7, String::from("10.0.0.1:4000"))));
    assert_eq!(addr.as_addr(), "10.0.0.1:4000");
    assert!(!addr.upgrade(8));
    assert_eq!(addr, XkAddr::Full(PeerAddr::new(7, String::from("10.0.0.1:4000"))));
    assert_eq!(addr.as_addr(), "10.0.0.1:4000");
}

#[test]
fn an_address_with_an_identity_is_never_upgraded() {
    let mut addr: XkAddr<u8, u16> = XkAddr::Full(PeerAddr::new(1, 80));
    assert!(!addr.upgrade(1));
    assert!(!addr.upgrade(2));
    assert_eq!(addr, XkAddr::Full(PeerAddr { id: 1, addr: 80 }));
}

#[test]
fn the_verified_form_is_there_once_promoted() {
    let mut addr: XkAddr<u8, u16> = XkAddr::Partial(80);
    assert_eq!(addr.as_verified(), None);
    addr.upgrade(3);
    assert_eq!(addr.as_verified(), Some(&PeerAddr::new(3, 80)));
    assert_eq!(addr.expect_peer_addr(), &PeerAddr::new(3, 80));
    assert_eq!(addr.expect_peer_addr().id, 3);
    assert_eq!(addr.expect_peer_addr().addr, 80);
}

#[test]
fn bare_and_promoted_addresses_are_distinct() {
    let bare: XkAddr<u8, u16> = XkAddr::Partial(80);
    let promoted: XkAddr<u8, u16> = XkAddr::Full(PeerAddr::new(0, 80));
    assert_ne!(bare, promoted);
    assert_ne!(promoted, bare);
    assert_ne!(bare.cmp(&promoted), std::cmp::Ordering::Equal);
    assert_eq!(bare, XkAddr::Partial(80));
    assert_ne!(bare, XkAddr::Partial(81));
    assert_eq!(promoted, XkAddr::Full(PeerAddr::new(0, 80)));
    assert_ne!(promoted, XkAddr::Full(PeerAddr::new(1, 80)));
    assert_ne!(promoted, XkAddr::Full(PeerAddr::new(0, 81)));
    let mut keys = std::collections::BTreeMap::new();
    keys.insert(bare, "before");
    keys.insert(promoted, "after");
    assert_eq!(keys.len(), 2);
}

#[test]
fn copies_are_equal() {
    let bare: XkAddr<u8, String> = XkAddr::Partial(String::from("a"));
    assert_eq!(bare.duplicate(), bare);
    let peer = PeerAddr::new(9u8, String::from("b"));
    assert_eq!(peer.duplicate(), peer);
    assert_eq!(XkAddr::Full(peer.duplicate()).duplicate(), XkAddr::Full(peer));
}
