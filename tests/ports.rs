use zcash_local_net::{
    localhost_uri, localhost_uri_text, pick_unused_port, settle_port, PortError,
};

#[test]
fn picked_port_lies_in_range() {
    let port = pick_unused_port(None).expect("a free port");
    assert!((15000..25000).contains(&port));
}

#[test]
fn free_fixed_port_is_kept() {
    let port = pick_unused_port(None).expect("a free port");
    assert_eq!(pick_unused_port(Some(port)), Ok(port));
}

#[test]
fn fixed_port_in_use_is_refused() {
    assert_eq!(settle_port(Some(18232), false, Some(16000)), Err(PortError::FixedPortInUse(18232)));
    assert_eq!(settle_port(Some(18232), true, None), Ok(18232));
}

#[test]
fn drawn_port_outside_range_is_refused() {
    assert_eq!(settle_port(None, false, Some(16000)), Ok(16000));
    assert_eq!(settle_port(None, false, Some(40000)), Err(PortError::NoFreePort));
    assert_eq!(settle_port(None, false, Some(25000)), Err(PortError::NoFreePort));
    assert_eq!(settle_port(None, false, Some(15000)), Ok(15000));
    assert_eq!(settle_port(None, true, None), Err(PortError::NoFreePort));
}

#[test]
fn localhost_address() {
    assert_eq!(localhost_uri_text(1234), "http://127.0.0.1:1234");
    assert_eq!(localhost_uri_text(0), "http://127.0.0.1:0");
    let uri = localhost_uri(18232).expect("valid uri");
    assert_eq!(uri.scheme_str(), Some("http"));
    assert_eq!(uri.host(), Some("127.0.0.1"));
    assert_eq!(uri.port_u16(), Some(18232));
}
