//! Behaviour of the built-in extractors and the filter combinators.

use reqfilter::addr::PeerAddress;
use reqfilter::builtin::{header, pass, remote, FallbackAddr};
use reqfilter::context::{Context, HeaderPair};
use reqfilter::filter::{evaluate, ExtractValue, FilterExt, Rejection};

fn ctx_without_addr() -> Context {
    Context::new("GET".to_string(), "/".to_string(), Vec::new(), None)
}

fn ctx_with_addr(a: PeerAddress) -> Context {
    Context::new("GET".to_string(), "/".to_string(), Vec::new(), Some(a))
}

fn doc_addr() -> PeerAddress {
    PeerAddress::v4(192, 0, 2, 1, 443)
}

#[test]
fn remote_without_stored_address_yields_absent() {
    let ctx = ctx_without_addr();
    let r = evaluate(&remote(), &ctx);
    assert_eq!(r, Ok(vec![ExtractValue::OptAddr(None)]));
}

#[test]
fn remote_with_stored_address_yields_it_present() {
    let a = doc_addr();
    let ctx = ctx_with_addr(a);
    let r = evaluate(&remote(), &ctx);
    assert_eq!(r, Ok(vec![ExtractValue::OptAddr(Some(a))]));
}

#[test]
fn remote_repeated_over_one_context_agrees() {
    let a = doc_addr();
    let ctx = ctx_with_addr(a);
    let first = evaluate(&remote(), &ctx);
    let second = evaluate(&remote(), &ctx);
    assert_eq!(first, second);
    assert_eq!(first, Ok(vec![ExtractValue::OptAddr(Some(a))]));
}

#[test]
fn chained_remote_flattens_to_the_pair() {
    let a = doc_addr();
    let ctx = ctx_with_addr(a);
    let f = remote().and(remote());
    let r = evaluate(&f, &ctx);
    assert_eq!(
        r,
        Ok(vec![
            ExtractValue::OptAddr(Some(a)),
            ExtractValue::OptAddr(Some(a)),
        ])
    );
}

#[test]
fn zero_output_filter_contributes_nothing_to_a_chain() {
    let a = doc_addr();
    let ctx = ctx_with_addr(a);
    let alone = evaluate(&remote(), &ctx);
    let chained = evaluate(&pass().and(remote()), &ctx);
    assert_eq!(chained, alone);
    let chained_right = evaluate(&remote().and(pass()), &ctx);
    assert_eq!(chained_right, alone);
}

#[test]
fn alternation_short_circuits_on_left_success() {
    let a = doc_addr();
    let ctx = ctx_with_addr(a);
    let f = remote().or(header(b"host".to_vec()));
    let r = evaluate(&f, &ctx);
    assert_eq!(r, Ok(vec![ExtractValue::OptAddr(Some(a))]));
}

#[test]
fn alternation_recovers_from_left_rejection() {
    let ctx = ctx_without_addr();
    let f = header(b"host".to_vec()).or(remote());
    let r = evaluate(&f, &ctx);
    assert_eq!(r, Ok(vec![ExtractValue::OptAddr(None)]));
}

#[test]
fn alternation_surfaces_the_last_rejection() {
    let ctx = ctx_without_addr();
    let f = header(b"host".to_vec()).or(header(b"accept".to_vec()));
    let r = evaluate(&f, &ctx);
    assert_eq!(r, Err(Rejection::MissingHeader));
}

#[test]
fn rejection_short_circuits_sequencing() {
    let ctx = ctx_without_addr();
    let f = header(b"host".to_vec()).and(remote());
    let r = evaluate(&f, &ctx);
    assert_eq!(r, Err(Rejection::MissingHeader));
}

#[test]
fn header_present_extracts_its_value() {
    let headers = vec![
        HeaderPair::new(b"host".to_vec(), b"example.net".to_vec()),
        HeaderPair::new(b"accept".to_vec(), b"*/*".to_vec()),
    ];
    let ctx = Context::new("GET".to_string(), "/".to_string(), headers, None);
    let r = evaluate(&header(b"accept".to_vec()), &ctx);
    assert_eq!(r, Ok(vec![ExtractValue::Text(b"*/*".to_vec())]));
}

#[test]
fn header_lookup_takes_the_first_of_duplicates() {
    let headers = vec![
        HeaderPair::new(b"x-tag".to_vec(), b"first".to_vec()),
        HeaderPair::new(b"x-tag".to_vec(), b"second".to_vec()),
    ];
    let ctx = Context::new("GET".to_string(), "/".to_string(), headers, None);
    let r = evaluate(&header(b"x-tag".to_vec()), &ctx);
    assert_eq!(r, Ok(vec![ExtractValue::Text(b"first".to_vec())]));
}

#[test]
fn missing_header_rejects_the_request() {
    let ctx = ctx_without_addr();
    let r = evaluate(&header(b"host".to_vec()), &ctx);
    assert_eq!(r, Err(Rejection::MissingHeader));
}

#[test]
fn mapping_replaces_an_absent_address_with_the_fallback() {
    let fallback = PeerAddress::v4(127, 0, 0, 1, 80);
    let ctx = ctx_without_addr();
    let f = remote().map(FallbackAddr { fallback });
    let r = evaluate(&f, &ctx);
    assert_eq!(r, Ok(vec![ExtractValue::Addr(fallback)]));
}

#[test]
fn mapping_keeps_a_present_address() {
    let a = doc_addr();
    let fallback = PeerAddress::v4(127, 0, 0, 1, 80);
    let ctx = ctx_with_addr(a);
    let f = remote().map(FallbackAddr { fallback });
    let r = evaluate(&f, &ctx);
    assert_eq!(r, Ok(vec![ExtractValue::Addr(a)]));
}

#[test]
fn mapping_passes_a_rejection_through() {
    let fallback = PeerAddress::v4(127, 0, 0, 1, 80);
    let ctx = ctx_without_addr();
    let f = header(b"host".to_vec()).map(FallbackAddr { fallback });
    let r = evaluate(&f, &ctx);
    assert_eq!(r, Err(Rejection::MissingHeader));
}

#[test]
fn context_exposes_its_metadata() {
    let ctx = Context::new("POST".to_string(), "/items".to_string(), Vec::new(), None);
    assert_eq!(ctx.method(), "POST");
    assert_eq!(ctx.path(), "/items");
}
