//! Behaviour of the per-request extension store.

use reqfilter::addr::PeerAddress;
use reqfilter::context::Context;
use reqfilter::store::{ExtensionValue, Extensions, ProtocolParams};

#[test]
fn empty_store_holds_no_facts() {
    let e = Extensions::empty();
    assert_eq!(e.get_peer(), None);
    assert_eq!(e.get_protocol(), None);
}

#[test]
fn inserting_twice_overwrites_rather_than_accumulates() {
    let first = PeerAddress::v4(10, 0, 0, 1, 8080);
    let second = PeerAddress::v4(192, 0, 2, 1, 443);
    let mut e = Extensions::empty();
    e.insert_peer(first);
    assert_eq!(e.get_peer(), Some(first));
    e.insert_peer(second);
    assert_eq!(e.get_peer(), Some(second));
}

#[test]
fn distinct_fact_types_are_distinct_keys() {
    let a = PeerAddress::v4(10, 0, 0, 1, 8080);
    let p = ProtocolParams { version: 2, max_frame: 16384 };
    let mut e = Extensions::empty();
    e.insert_peer(a);
    e.insert_protocol(p);
    assert_eq!(e.get_peer(), Some(a));
    assert_eq!(e.get_protocol(), Some(p));
}

#[test]
fn generic_get_returns_the_stored_fact() {
    let a = PeerAddress::v4(10, 0, 0, 1, 8080);
    let mut e = Extensions::empty();
    assert_eq!(e.get(reqfilter::store::PEER_TAG), None);
    e.insert(ExtensionValue::Peer(a));
    assert_eq!(e.get(reqfilter::store::PEER_TAG), Some(ExtensionValue::Peer(a)));
}

#[test]
fn context_records_a_fact_inserted_after_construction() {
    let a = PeerAddress::v4(203, 0, 113, 9, 9000);
    let mut ctx = Context::new("GET".to_string(), "/".to_string(), Vec::new(), None);
    assert_eq!(ctx.peer(), None);
    ctx.insert_extension(ExtensionValue::Peer(a));
    assert_eq!(ctx.peer(), Some(a));
}
