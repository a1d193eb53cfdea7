//! The laws the filter engine obeys, each stated over the specification
//! models that the executable contracts are proved against.

use vstd::prelude::*;

verus! {

use crate::addr::PeerAddress;
use crate::builtin::Remote;
use crate::context::CtxView;
use crate::filter::{
    extract_view, outcome_matches, And, ExtractVal, ExtractValue, Filter, Or, Rejection,
};
use crate::store::{peer_of, ExtensionValue, PEER_TAG};

/// Law: the remote-address filter never rejects a request, whatever the
/// context holds.
pub proof fn lemma_remote_infallible(ctx: CtxView)
    ensures
        Remote.spec_eval(ctx) is Ok,
{
}

/// Law: on a request without a recorded peer-address fact, the
/// remote-address filter yields the absent value, not a rejection.
pub proof fn lemma_remote_absent(ctx: CtxView)
    requires
        peer_of(ctx.extensions) is None,
    ensures
        Remote.spec_eval(ctx) == Ok::<_, Rejection>(seq![
            ExtractVal::OptAddr(None::<PeerAddress>),
        ]),
{
}

/// Law: on a request whose store records the peer-address fact `a`, the
/// remote-address filter yields `a`, present.
pub proof fn lemma_remote_present(ctx: CtxView, a: PeerAddress)
    requires
        ctx.extensions.contains_key(PEER_TAG),
        ctx.extensions[PEER_TAG] == ExtensionValue::Peer(a),
    ensures
        Remote.spec_eval(ctx) == Ok::<_, Rejection>(seq![ExtractVal::OptAddr(Some(a))]),
{
}

/// Law: evaluation is repeatable. Any two outcomes of evaluating one
/// filter over one context extract the same shapes, or carry the same
/// rejection; the store is not mutated between the two evaluations.
pub proof fn lemma_eval_repeatable<F: Filter>(
    f: F,
    ctx: CtxView,
    r1: Result<Vec<ExtractValue>, Rejection>,
    r2: Result<Vec<ExtractValue>, Rejection>,
)
    requires
        outcome_matches(r1, f.spec_eval(ctx)),
        outcome_matches(r2, f.spec_eval(ctx)),
    ensures
        r1 is Ok <==> r2 is Ok,
        r1 is Ok ==> extract_view(r1.unwrap()@) == extract_view(r2.unwrap()@),
        r1 is Err ==> r1 == r2,
{
}

/// Law: statically infallible filters stay infallible under sequencing;
/// the error-handling branch of the combinator is unreachable for them.
pub proof fn lemma_and_infallible<A: Filter, B: Filter>(a: A, b: B, ctx: CtxView)
    requires
        a.spec_eval(ctx) is Ok,
        b.spec_eval(ctx) is Ok,
    ensures
        (And { left: a, right: b }).spec_eval(ctx) is Ok,
{
}

/// Law: inserting a fact under a tag after a prior fact under the same tag
/// overwrites it; the store accumulates nothing.
pub proof fn lemma_insert_overwrite(
    m: Map<u64, ExtensionValue>,
    t: u64,
    a: ExtensionValue,
    b: ExtensionValue,
)
    ensures
        m.insert(t, a).insert(t, b) == m.insert(t, b),
        m.insert(t, a).insert(t, b)[t] == b,
{
    assert(m.insert(t, a).insert(t, b) =~= m.insert(t, b));
}

/// Law: facts of distinct type identities never displace one another;
/// inserting under one tag leaves every other tag's fact unchanged.
pub proof fn lemma_distinct_tags(m: Map<u64, ExtensionValue>, t1: u64, t2: u64, v: ExtensionValue)
    requires
        t1 != t2,
    ensures
        m.insert(t1, v).contains_key(t2) == m.contains_key(t2),
        m.contains_key(t2) ==> m.insert(t1, v)[t2] == m[t2],
{
}

/// Law (flattening): sequencing a zero-output filter with another filter
/// yields exactly the other filter's outcome; an empty extract contributes
/// nothing to the concatenation.
pub proof fn lemma_and_flattens<A: Filter, B: Filter>(a: A, b: B, ctx: CtxView)
    requires
        a.spec_eval(ctx) == Ok::<_, Rejection>(Seq::<ExtractVal>::empty()),
    ensures
        (And { left: a, right: b }).spec_eval(ctx) == b.spec_eval(ctx),
{
    match b.spec_eval(ctx) {
        Ok(y) => {
            assert(Seq::<ExtractVal>::empty() + y =~= y);
        },
        Err(_) => {},
    }
}

/// Law: sequencing concatenates extracted tuples left to right.
pub proof fn lemma_and_concatenates<A: Filter, B: Filter>(
    a: A,
    b: B,
    ctx: CtxView,
    x: Seq<ExtractVal>,
    y: Seq<ExtractVal>,
)
    requires
        a.spec_eval(ctx) == Ok::<_, Rejection>(x),
        b.spec_eval(ctx) == Ok::<_, Rejection>(y),
    ensures
        (And { left: a, right: b }).spec_eval(ctx) == Ok::<_, Rejection>(x + y),
{
}

/// Law: a rejection short-circuits sequencing; the right filter's outcome
/// has no bearing on the result.
pub proof fn lemma_and_short_circuits<A: Filter, B: Filter>(a: A, b: B, ctx: CtxView)
    requires
        a.spec_eval(ctx) is Err,
    ensures
        (And { left: a, right: b }).spec_eval(ctx) == a.spec_eval(ctx),
{
}

/// Law: alternation short-circuits. When the left filter succeeds, the
/// outcome is the left filter's outcome, whatever the right filter would
/// do; the right filter is never evaluated.
pub proof fn lemma_or_short_circuits<A: Filter, B: Filter>(a: A, b: B, ctx: CtxView)
    requires
        a.spec_eval(ctx) is Ok,
    ensures
        (Or { left: a, right: b }).spec_eval(ctx) == a.spec_eval(ctx),
{
}

/// Law: alternation recovers from a rejection by trying the right filter
/// on the same unmodified context, and no rejection is silently swallowed:
/// if both branches reject, the right branch's rejection reaches the
/// driver.
pub proof fn lemma_or_recovers<A: Filter, B: Filter>(a: A, b: B, ctx: CtxView)
    requires
        a.spec_eval(ctx) is Err,
    ensures
        (Or { left: a, right: b }).spec_eval(ctx) == b.spec_eval(ctx),
{
}

} // verus!
