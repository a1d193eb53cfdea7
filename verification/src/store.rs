//! The per-request extension store: a heterogeneous typed map through which
//! an earlier stage of processing attaches facts to a request (the peer
//! address, negotiated protocol parameters) and a later, independently
//! written filter reads them back.
//!
//! Each kind of fact has its own type identity, and the store holds at most
//! one value per identity: a later insertion of the same identity replaces
//! the earlier value. The store's abstract model is a map from identity tags
//! to fact values.

use vstd::prelude::*;

verus! {

use crate::addr::PeerAddress;
use vstd::pervasive::VecAdditionalExecFns;

/// Parameters negotiated with the peer before the request reached the
/// filter chain.
#[derive(Clone, Copy, Debug, PartialEq, Eq, Structural)]
pub struct ProtocolParams {
    pub version: u16,
    pub max_frame: u32,
}

/// One fact attached to a request. Each variant is a distinct type of fact;
/// the store keys facts by that type identity, never by their contents, so
/// two distinct kinds of fact never displace one another.
#[derive(Clone, Copy, Debug, PartialEq, Eq, Structural)]
pub enum ExtensionValue {
    /// The socket address of the connected peer.
    Peer(PeerAddress),
    /// Protocol parameters negotiated by the transport.
    Protocol(ProtocolParams),
}

/// The identity tag under which a peer-address fact is stored.
pub const PEER_TAG: u64 = 1;

/// The identity tag under which a protocol-parameters fact is stored.
pub const PROTOCOL_TAG: u64 = 2;

/// The type identity of a fact: the key it is stored under.
pub open spec fn tag_of(v: ExtensionValue) -> u64 {
    match v {
        ExtensionValue::Peer(_) => PEER_TAG,
        ExtensionValue::Protocol(_) => PROTOCOL_TAG,
    }
}

impl ExtensionValue {
    /// The identity tag this fact is stored under.
    pub fn tag(&self) -> (r: u64)
        ensures
            r == tag_of(*self),
    {
        match self {
            ExtensionValue::Peer(_) => PEER_TAG,
            ExtensionValue::Protocol(_) => PROTOCOL_TAG,
        }
    }
}

/// The first entry of `s` stored under tag `t`, if any.
pub open spec fn lookup_seq(s: Seq<ExtensionValue>, t: u64) -> Option<ExtensionValue>
    decreases s.len(),
{
    if s.len() == 0 {
        None
    } else if tag_of(s[0]) == t {
        Some(s[0])
    } else {
        lookup_seq(s.drop_first(), t)
    }
}

/// The mapping from identity tags to facts that a sequence of entries
/// represents.
pub open spec fn seq_as_map(s: Seq<ExtensionValue>) -> Map<u64, ExtensionValue> {
    Map::new(|t: u64| lookup_seq(s, t) is Some, |t: u64| lookup_seq(s, t).unwrap())
}

/// An entry whose tag occurs nowhere in `s` is not found.
proof fn lemma_lookup_absent(s: Seq<ExtensionValue>, t: u64)
    requires
        forall|j: int| 0 <= j < s.len() ==> tag_of(s[j]) != t,
    ensures
        lookup_seq(s, t) is None,
    decreases s.len(),
{
    if s.len() > 0 {
        lemma_lookup_absent(s.drop_first(), t);
    }
}

/// The first entry carrying tag `t` is what lookup returns.
proof fn lemma_lookup_at(s: Seq<ExtensionValue>, t: u64, i: int)
    requires
        0 <= i < s.len(),
        tag_of(s[i]) == t,
        forall|j: int| 0 <= j < i ==> tag_of(s[j]) != t,
    ensures
        lookup_seq(s, t) == Some(s[i]),
    decreases i,
{
    if i > 0 {
        lemma_lookup_at(s.drop_first(), t, i - 1);
    }
}

/// Replacing the first entry of tag `t` with a fact of the same tag changes
/// lookup exactly at `t` and nowhere else.
proof fn lemma_lookup_update(s: Seq<ExtensionValue>, i: int, v: ExtensionValue, t2: u64)
    requires
        0 <= i < s.len(),
        tag_of(s[i]) == tag_of(v),
        forall|j: int| 0 <= j < i ==> tag_of(s[j]) != tag_of(v),
    ensures
        lookup_seq(s.update(i, v), t2) == (if t2 == tag_of(v) {
            Some(v)
        } else {
            lookup_seq(s, t2)
        }),
    decreases i,
{
    let su = s.update(i, v);
    if i == 0 {
        if t2 != tag_of(v) {
            assert(su.drop_first() =~= s.drop_first());
        }
    } else {
        assert(su[0] == s[0]);
        if tag_of(s[0]) != t2 {
            assert(su.drop_first() =~= s.drop_first().update(i - 1, v));
            lemma_lookup_update(s.drop_first(), i - 1, v, t2);
        }
    }
}

/// Appending an entry affects lookup only at its tag, and only when that tag
/// was absent before.
proof fn lemma_lookup_push(s: Seq<ExtensionValue>, v: ExtensionValue, t2: u64)
    ensures
        lookup_seq(s.push(v), t2) == (if lookup_seq(s, t2) is Some {
            lookup_seq(s, t2)
        } else if t2 == tag_of(v) {
            Some(v)
        } else {
            None::<ExtensionValue>
        }),
    decreases s.len(),
{
    let sp = s.push(v);
    if s.len() == 0 {
        assert(sp[0] == v);
        if t2 != tag_of(v) {
            assert(sp.drop_first() =~= Seq::<ExtensionValue>::empty());
        }
    } else {
        assert(sp[0] == s[0]);
        if tag_of(s[0]) != t2 {
            assert(sp.drop_first() =~= s.drop_first().push(v));
            lemma_lookup_push(s.drop_first(), v, t2);
        }
    }
}

/// Per-request store of facts: at most one fact per type identity.
///
/// Owned by a single request context; it is never shared across requests,
/// so no locking is involved.
pub struct Extensions {
    entries: Vec<ExtensionValue>,
}

impl View for Extensions {
    type V = Map<u64, ExtensionValue>;

    closed spec fn view(&self) -> Map<u64, ExtensionValue> {
        seq_as_map(self.entries@)
    }
}

impl Extensions {
    /// A store holding no facts at all.
    pub fn empty() -> (r: Extensions)
        ensures
            r@ == Map::<u64, ExtensionValue>::empty(),
    {
        let r = Extensions { entries: Vec::new() };
        proof {
            assert(r@ =~= Map::<u64, ExtensionValue>::empty());
        }
        r
    }

    /// The fact stored under tag `t`, if one is present.
    pub fn get(&self, t: u64) -> (r: Option<ExtensionValue>)
        ensures
            r == (if self@.contains_key(t) {
                Some(self@[t])
            } else {
                None::<ExtensionValue>
            }),
    {
        let n = self.entries.len();
        let mut i: usize = 0;
        while i < n
            invariant
                n == self.entries@.len(),
                i <= n,
                forall|j: int| 0 <= j < i ==> tag_of(self.entries@[j]) != t,
            decreases n - i,
        {
            let e = self.entries[i];
            if e.tag() == t {
                proof {
                    lemma_lookup_at(self.entries@, t, i as int);
                }
                return Some(e);
            }
            i += 1;
        }
        proof {
            lemma_lookup_absent(self.entries@, t);
        }
        None
    }

    /// Stores `v` under its type identity, replacing any prior fact of the
    /// same identity; facts of every other identity are untouched. Always
    /// succeeds.
    pub fn insert(&mut self, v: ExtensionValue)
        ensures
            final(self)@ == old(self)@.insert(tag_of(v), v),
    {
        let t = v.tag();
        let n = self.entries.len();
        let mut i: usize = 0;
        while i < n
            invariant
                self.entries@ == old(self).entries@,
                n == self.entries@.len(),
                i <= n,
                t == tag_of(v),
                forall|j: int| 0 <= j < i ==> tag_of(self.entries@[j]) != t,
            decreases n - i,
        {
            if self.entries[i].tag() == t {
                let ghost s = self.entries@;
                let ghost ii = i as int;
                self.entries.set(i, v);
                proof {
                    assert forall|t2: u64|
                        lookup_seq(s.update(ii, v), t2) == (if t2 == tag_of(v) {
                            Some(v)
                        } else {
                            lookup_seq(s, t2)
                        }) by {
                        lemma_lookup_update(s, ii, v, t2);
                    }
                    assert(seq_as_map(s.update(ii, v)) =~= seq_as_map(s).insert(t, v));
                }
                return;
            }
            i += 1;
        }
        let ghost s = self.entries@;
        self.entries.push(v);
        proof {
            lemma_lookup_absent(s, t);
            assert forall|t2: u64|
                lookup_seq(s.push(v), t2) == (if lookup_seq(s, t2) is Some {
                    lookup_seq(s, t2)
                } else if t2 == tag_of(v) {
                    Some(v)
                } else {
                    None::<ExtensionValue>
                }) by {
                lemma_lookup_push(s, v, t2);
            }
            assert(seq_as_map(s.push(v)) =~= seq_as_map(s).insert(t, v));
        }
    }
}

/// The peer address a fact map records, if any.
pub open spec fn peer_of(m: Map<u64, ExtensionValue>) -> Option<PeerAddress> {
    if m.contains_key(PEER_TAG) {
        match m[PEER_TAG] {
            ExtensionValue::Peer(a) => Some(a),
            _ => None,
        }
    } else {
        None
    }
}

/// The protocol parameters a fact map records, if any.
pub open spec fn protocol_of(m: Map<u64, ExtensionValue>) -> Option<ProtocolParams> {
    if m.contains_key(PROTOCOL_TAG) {
        match m[PROTOCOL_TAG] {
            ExtensionValue::Protocol(p) => Some(p),
            _ => None,
        }
    } else {
        None
    }
}

impl Extensions {
    /// The recorded peer address, or absent when the transport never
    /// recorded one. Never fails, never rejects the request.
    pub fn get_peer(&self) -> (r: Option<PeerAddress>)
        ensures
            r == peer_of(self@),
    {
        match self.get(PEER_TAG) {
            Some(ExtensionValue::Peer(a)) => Some(a),
            _ => None,
        }
    }

    /// Records the peer address, replacing any prior one.
    pub fn insert_peer(&mut self, a: PeerAddress)
        ensures
            final(self)@ == old(self)@.insert(PEER_TAG, ExtensionValue::Peer(a)),
    {
        self.insert(ExtensionValue::Peer(a));
    }

    /// The recorded protocol parameters, or absent.
    pub fn get_protocol(&self) -> (r: Option<ProtocolParams>)
        ensures
            r == protocol_of(self@),
    {
        match self.get(PROTOCOL_TAG) {
            Some(ExtensionValue::Protocol(p)) => Some(p),
            _ => None,
        }
    }

    /// Records protocol parameters, replacing any prior ones.
    pub fn insert_protocol(&mut self, p: ProtocolParams)
        ensures
            final(self)@ == old(self)@.insert(PROTOCOL_TAG, ExtensionValue::Protocol(p)),
    {
        self.insert(ExtensionValue::Protocol(p));
    }
}

} // verus!
