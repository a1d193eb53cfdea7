//! Built-in extractors: small filters over the request context and its
//! extension store that exercise the composition contract.

use vstd::prelude::*;

verus! {

use crate::addr::PeerAddress;
use crate::context::{header_lookup, Context, CtxView};
use crate::filter::{
    extract_view, ExtractVal, ExtractValue, Filter, Rejection, Transform,
};
use crate::store::peer_of;

/// The filter that extracts the remote peer address: present when the
/// transport recorded one, absent when it did not. It never rejects.
#[derive(Clone, Copy, Debug, PartialEq, Eq, Structural)]
pub struct Remote;

impl Filter for Remote {
    open spec fn spec_eval(&self, ctx: CtxView) -> Result<Seq<ExtractVal>, Rejection> {
        Ok(seq![ExtractVal::OptAddr(peer_of(ctx.extensions))])
    }

    fn evaluate(&self, ctx: &Context) -> (r: Result<Vec<ExtractValue>, Rejection>) {
        let a = ctx.peer();
        let mut v: Vec<ExtractValue> = Vec::new();
        v.push(ExtractValue::OptAddr(a));
        proof {
            assert(extract_view(v@) =~= seq![ExtractVal::OptAddr(peer_of(ctx@.extensions))]);
        }
        Ok(v)
    }
}

/// Creates a filter that extracts the remote address of the connection.
///
/// If the underlying transport does not use socket addresses, the filter
/// yields an absent value rather than rejecting the request.
pub fn remote() -> (r: Remote)
    ensures
        r == Remote,
{
    Remote
}

/// The filter that matches every request, extracts nothing, and never
/// rejects: the unit of sequencing.
#[derive(Clone, Copy, Debug, PartialEq, Eq, Structural)]
pub struct Pass;

impl Filter for Pass {
    open spec fn spec_eval(&self, ctx: CtxView) -> Result<Seq<ExtractVal>, Rejection> {
        Ok(Seq::<ExtractVal>::empty())
    }

    fn evaluate(&self, ctx: &Context) -> (r: Result<Vec<ExtractValue>, Rejection>) {
        let v: Vec<ExtractValue> = Vec::new();
        proof {
            assert(extract_view(v@) =~= Seq::<ExtractVal>::empty());
        }
        Ok(v)
    }
}

/// Creates a filter that matches every request and extracts nothing.
pub fn pass() -> (r: Pass)
    ensures
        r == Pass,
{
    Pass
}

/// The filter that extracts the value of one named header, and rejects
/// the request when the header is absent.
#[derive(Clone, Debug)]
pub struct Header {
    /// The header name looked up, as raw bytes.
    pub name: Vec<u8>,
}

impl Filter for Header {
    open spec fn spec_eval(&self, ctx: CtxView) -> Result<Seq<ExtractVal>, Rejection> {
        match header_lookup(ctx.headers, self.name@) {
            Some(v) => Ok(seq![ExtractVal::Text(v)]),
            None => Err(Rejection::MissingHeader),
        }
    }

    fn evaluate(&self, ctx: &Context) -> (r: Result<Vec<ExtractValue>, Rejection>) {
        match ctx.header_value(&self.name) {
            Some(value) => {
                let owned = clone_bytes(value);
                let mut v: Vec<ExtractValue> = Vec::new();
                v.push(ExtractValue::Text(owned));
                proof {
                    assert(extract_view(v@) =~= seq![
                        ExtractVal::Text(header_lookup(ctx@.headers, self.name@).unwrap()),
                    ]);
                }
                Ok(v)
            },
            None => Err(Rejection::MissingHeader),
        }
    }
}

/// Creates a filter that extracts the value of the header named `name`,
/// rejecting requests that do not carry it.
pub fn header(name: Vec<u8>) -> (r: Header)
    ensures
        r == (Header { name }),
{
    Header { name }
}

/// A copy of a byte string with the same contents.
fn clone_bytes(v: &Vec<u8>) -> (r: Vec<u8>)
    ensures
        r@ == v@,
{
    let r = v.clone();
    proof {
        assert forall|i: int| 0 <= i < v@.len() implies r@[i] == v@[i] by {
            assert(cloned::<u8>(v@[i], r@[i]));
        }
        assert(r@ =~= v@);
    }
    r
}

/// A transformation that settles each optional peer address in an extract:
/// a present address stays itself, an absent one becomes the configured
/// fallback; values of other shapes pass through unchanged.
#[derive(Clone, Copy, Debug, PartialEq, Eq, Structural)]
pub struct FallbackAddr {
    /// The address substituted where none was recorded.
    pub fallback: PeerAddress,
}

impl FallbackAddr {
    /// The transformation on one extracted shape.
    pub open spec fn apply_one(&self, e: ExtractVal) -> ExtractVal {
        match e {
            ExtractVal::OptAddr(Some(a)) => ExtractVal::Addr(a),
            ExtractVal::OptAddr(None) => ExtractVal::Addr(self.fallback),
            other => other,
        }
    }
}

impl Transform for FallbackAddr {
    open spec fn spec_apply(&self, e: Seq<ExtractVal>) -> Seq<ExtractVal> {
        e.map_values(|x: ExtractVal| self.apply_one(x))
    }

    fn apply(&self, e: Vec<ExtractValue>) -> (r: Vec<ExtractValue>) {
        let n = e.len();
        let mut r: Vec<ExtractValue> = Vec::new();
        let mut i: usize = 0;
        while i < n
            invariant
                n == e@.len(),
                i <= n,
                r@.len() == i,
                forall|j: int| 0 <= j < i ==> r@[j]@ == self.apply_one(e@[j]@),
            decreases n - i,
        {
            let next = match &e[i] {
                ExtractValue::OptAddr(Some(a)) => ExtractValue::Addr(*a),
                ExtractValue::OptAddr(None) => ExtractValue::Addr(self.fallback),
                ExtractValue::Addr(a) => ExtractValue::Addr(*a),
                ExtractValue::Text(t) => ExtractValue::Text(clone_bytes(t)),
            };
            r.push(next);
            i += 1;
        }
        proof {
            assert(extract_view(r@) =~= self.spec_apply(extract_view(e@)));
        }
        r
    }
}

} // verus!
