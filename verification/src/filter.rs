//! The filter abstraction: a composable unit of request processing that,
//! evaluated against a request context, either extracts a tuple of values
//! or rejects the request, together with the sequencing, alternation and
//! mapping combinators.
//!
//! Every filter carries a specification-level model of its evaluation,
//! `spec_eval`; the executable `evaluate` is proved to realise it. Filters
//! hold only configuration fixed at construction time and never mutate the
//! context, so one filter value can serve any number of in-flight requests.

use vstd::prelude::*;

verus! {

use crate::addr::PeerAddress;
use crate::context::{Context, CtxView};

/// A typed failure: the request should not continue down this branch of
/// the filter chain. The driver turns a rejection that reaches it into an
/// error response.
#[derive(Clone, Copy, Debug, PartialEq, Eq, Structural)]
pub enum Rejection {
    /// A filter required a header the request does not carry.
    MissingHeader,
}

/// One value extracted by a filter.
#[derive(Clone, Debug, PartialEq)]
pub enum ExtractValue {
    /// A peer address when the transport recorded one, or absent.
    OptAddr(Option<PeerAddress>),
    /// A peer address known to be present.
    Addr(PeerAddress),
    /// Raw bytes, such as a header value.
    Text(Vec<u8>),
}

/// The mathematical shape of one extracted value.
pub enum ExtractVal {
    /// A peer address when the transport recorded one, or absent.
    OptAddr(Option<PeerAddress>),
    /// A peer address known to be present.
    Addr(PeerAddress),
    /// Raw bytes, such as a header value.
    Text(Seq<u8>),
}

impl View for ExtractValue {
    type V = ExtractVal;

    open spec fn view(&self) -> ExtractVal {
        match self {
            ExtractValue::OptAddr(a) => ExtractVal::OptAddr(*a),
            ExtractValue::Addr(a) => ExtractVal::Addr(*a),
            ExtractValue::Text(v) => ExtractVal::Text(v@),
        }
    }
}

/// The tuple of values a filter extracts, as the sequence of their shapes.
/// A filter that extracts nothing contributes the empty sequence, so
/// sequencing concatenates flat tuples rather than nesting them.
pub open spec fn extract_view(v: Seq<ExtractValue>) -> Seq<ExtractVal> {
    v.map_values(|x: ExtractValue| x@)
}

/// Whether the executable outcome `r` realises the specified outcome `s`:
/// success for success with the same extracted shapes, or the same
/// rejection.
pub open spec fn outcome_matches(
    r: Result<Vec<ExtractValue>, Rejection>,
    s: Result<Seq<ExtractVal>, Rejection>,
) -> bool {
    match r {
        Ok(v) => s == Ok::<Seq<ExtractVal>, Rejection>(extract_view(v@)),
        Err(e) => s == Err::<Seq<ExtractVal>, Rejection>(e),
    }
}

/// A composable unit of request processing.
///
/// Evaluation is a pure function of the context: `spec_eval` is the model,
/// and `evaluate` must realise it, so repeated evaluation over one context
/// always yields the same outcome.
pub trait Filter: Sized {
    /// The outcome that evaluating this filter on `ctx` yields: the
    /// extracted tuple, or a rejection.
    spec fn spec_eval(&self, ctx: CtxView) -> Result<Seq<ExtractVal>, Rejection>;

    /// Evaluates this filter against one request context.
    fn evaluate(&self, ctx: &Context) -> (r: Result<Vec<ExtractValue>, Rejection>)
        ensures
            outcome_matches(r, self.spec_eval(ctx@)),
    ;

}

/// The combinator surface every filter offers: sequencing, alternation
/// and mapping. Blanket-implemented for every filter.
pub trait FilterExt: Filter {
    /// Sequencing: this filter, then `other` on the same context. A
    /// rejection of this filter short-circuits; on success the two
    /// extracted tuples are concatenated left to right.
    fn and<B: Filter>(self, other: B) -> (r: And<Self, B>)
        ensures
            r == (And { left: self, right: other }),
    ;

    /// Alternation: this filter, and `other` only if this one rejects.
    /// Success of this filter short-circuits; if both reject, the second
    /// rejection reaches the caller.
    fn or<B: Filter>(self, other: B) -> (r: Or<Self, B>)
        ensures
            r == (Or { left: self, right: other }),
    ;

    /// Mapping: on success, apply a pure transformation to the extracted
    /// tuple; a rejection passes through unchanged.
    fn map<F: Transform>(self, func: F) -> (r: Mapped<Self, F>)
        ensures
            r == (Mapped { inner: self, func }),
    ;
}

impl<A: Filter> FilterExt for A {
    fn and<B: Filter>(self, other: B) -> (r: And<Self, B>) {
        And { left: self, right: other }
    }

    fn or<B: Filter>(self, other: B) -> (r: Or<Self, B>) {
        Or { left: self, right: other }
    }

    fn map<F: Transform>(self, func: F) -> (r: Mapped<Self, F>) {
        Mapped { inner: self, func }
    }
}

/// A pure transformation of an extracted tuple, applied by the mapping
/// combinator.
pub trait Transform: Sized {
    /// The shape-level transformation.
    spec fn spec_apply(&self, e: Seq<ExtractVal>) -> Seq<ExtractVal>;

    /// Applies the transformation to one extracted tuple.
    fn apply(&self, e: Vec<ExtractValue>) -> (r: Vec<ExtractValue>)
        ensures
            extract_view(r@) == self.spec_apply(extract_view(e@)),
    ;
}

/// Sequencing of two filters: both must succeed, and their extracted
/// tuples concatenate left to right.
#[derive(Clone, Copy, Debug)]
pub struct And<A, B> {
    /// Evaluated first.
    pub left: A,
    /// Evaluated second, only if `left` succeeded.
    pub right: B,
}

impl<A: Filter, B: Filter> Filter for And<A, B> {
    open spec fn spec_eval(&self, ctx: CtxView) -> Result<Seq<ExtractVal>, Rejection> {
        match self.left.spec_eval(ctx) {
            Err(e) => Err(e),
            Ok(x) => match self.right.spec_eval(ctx) {
                Err(e) => Err(e),
                Ok(y) => Ok(x + y),
            },
        }
    }

    fn evaluate(&self, ctx: &Context) -> (r: Result<Vec<ExtractValue>, Rejection>) {
        match self.left.evaluate(ctx) {
            Err(e) => Err(e),
            Ok(mut x) => match self.right.evaluate(ctx) {
                Err(e) => Err(e),
                Ok(mut y) => {
                    let ghost xv = x@;
                    let ghost yv = y@;
                    x.append(&mut y);
                    proof {
                        assert(extract_view(xv + yv) =~= extract_view(xv) + extract_view(yv));
                    }
                    Ok(x)
                },
            },
        }
    }
}

/// Alternation of two filters: the first that succeeds wins; if the left
/// one succeeds the right one is never evaluated.
#[derive(Clone, Copy, Debug)]
pub struct Or<A, B> {
    /// Tried first.
    pub left: A,
    /// Tried second, on the same unmodified context, only if `left`
    /// rejected.
    pub right: B,
}

impl<A: Filter, B: Filter> Filter for Or<A, B> {
    open spec fn spec_eval(&self, ctx: CtxView) -> Result<Seq<ExtractVal>, Rejection> {
        match self.left.spec_eval(ctx) {
            Ok(x) => Ok(x),
            Err(_) => self.right.spec_eval(ctx),
        }
    }

    fn evaluate(&self, ctx: &Context) -> (r: Result<Vec<ExtractValue>, Rejection>) {
        match self.left.evaluate(ctx) {
            Ok(x) => Ok(x),
            Err(_) => self.right.evaluate(ctx),
        }
    }
}

/// Mapping over a filter: on success the transformation is applied to the
/// extracted tuple; a rejection passes through unchanged.
#[derive(Clone, Copy, Debug)]
pub struct Mapped<A, F> {
    /// The filter whose extract is transformed.
    pub inner: A,
    /// The pure transformation applied on success.
    pub func: F,
}

impl<A: Filter, F: Transform> Filter for Mapped<A, F> {
    open spec fn spec_eval(&self, ctx: CtxView) -> Result<Seq<ExtractVal>, Rejection> {
        match self.inner.spec_eval(ctx) {
            Ok(x) => Ok(self.func.spec_apply(x)),
            Err(e) => Err(e),
        }
    }

    fn evaluate(&self, ctx: &Context) -> (r: Result<Vec<ExtractValue>, Rejection>) {
        match self.inner.evaluate(ctx) {
            Ok(x) => Ok(self.func.apply(x)),
            Err(e) => Err(e),
        }
    }
}

/// The driver's single entry point: evaluates a composed filter chain
/// against the context of one request.
pub fn evaluate<F: Filter>(filter: &F, ctx: &Context) -> (r: Result<Vec<ExtractValue>, Rejection>)
    ensures
        outcome_matches(r, filter.spec_eval(ctx@)),
{
    filter.evaluate(ctx)
}

} // verus!
