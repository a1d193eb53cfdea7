//! The per-request context handed to every filter invocation: immutable
//! request metadata (method, path, headers) together with the request's
//! extension store. One context exists per request; the driver builds it,
//! pre-populates the store with transport facts, and destroys it once the
//! response is produced.

use vstd::prelude::*;

verus! {

use crate::addr::PeerAddress;
use crate::store::{peer_of, ExtensionValue, Extensions, PEER_TAG};

/// One request header: a name and a value, both raw bytes.
#[derive(Clone, Debug)]
pub struct HeaderPair {
    pub name: Vec<u8>,
    pub value: Vec<u8>,
}

impl View for HeaderPair {
    type V = (Seq<u8>, Seq<u8>);

    open spec fn view(&self) -> (Seq<u8>, Seq<u8>) {
        (self.name@, self.value@)
    }
}

impl HeaderPair {
    /// A header built from its raw name and value.
    pub fn new(name: Vec<u8>, value: Vec<u8>) -> (r: HeaderPair)
        ensures
            r@ == (name@, value@),
    {
        HeaderPair { name, value }
    }
}

/// The value of the first header of `hs` named `name`, if any.
pub open spec fn header_lookup(hs: Seq<(Seq<u8>, Seq<u8>)>, name: Seq<u8>) -> Option<Seq<u8>>
    decreases hs.len(),
{
    if hs.len() == 0 {
        None
    } else if hs[0].0 == name {
        Some(hs[0].1)
    } else {
        header_lookup(hs.drop_first(), name)
    }
}

/// The abstract state of a request context.
pub struct CtxView {
    /// The request method.
    pub method: Seq<char>,
    /// The request path.
    pub path: Seq<char>,
    /// The request headers, in order of arrival.
    pub headers: Seq<(Seq<u8>, Seq<u8>)>,
    /// The facts recorded in the extension store, by type identity.
    pub extensions: Map<u64, ExtensionValue>,
}

/// The per-request context. Filters read it; only the driver and the
/// transport layer write to it, before filter evaluation begins.
pub struct Context {
    method: String,
    path: String,
    headers: Vec<HeaderPair>,
    extensions: Extensions,
}

impl View for Context {
    type V = CtxView;

    closed spec fn view(&self) -> CtxView {
        CtxView {
            method: self.method@,
            path: self.path@,
            headers: self.headers@.map_values(|h: HeaderPair| h@),
            extensions: self.extensions@,
        }
    }
}

/// The map of facts that pre-populating a fresh store with an optional
/// peer address produces.
pub open spec fn initial_extensions(peer: Option<PeerAddress>) -> Map<u64, ExtensionValue> {
    match peer {
        None => Map::<u64, ExtensionValue>::empty(),
        Some(a) => Map::<u64, ExtensionValue>::empty().insert(PEER_TAG, ExtensionValue::Peer(a)),
    }
}

/// Two byte strings are equal exactly when their contents are.
fn bytes_eq(a: &Vec<u8>, b: &Vec<u8>) -> (r: bool)
    ensures
        r == (a@ == b@),
{
    if a.len() != b.len() {
        return false;
    }
    let n = a.len();
    let mut i: usize = 0;
    while i < n
        invariant
            n == a@.len(),
            n == b@.len(),
            i <= n,
            forall|j: int| 0 <= j < i ==> a@[j] == b@[j],
        decreases n - i,
    {
        if a[i] != b[i] {
            return false;
        }
        i += 1;
    }
    proof {
        assert(a@ =~= b@);
    }
    true
}

impl Context {
    /// Builds the context for one request from raw transport metadata,
    /// pre-populating the extension store with the peer address when the
    /// transport recorded one.
    pub fn new(method: String, path: String, headers: Vec<HeaderPair>, peer: Option<PeerAddress>) -> (r:
        Context)
        ensures
            r@.method == method@,
            r@.path == path@,
            r@.headers == headers@.map_values(|h: HeaderPair| h@),
            r@.extensions == initial_extensions(peer),
    {
        let mut extensions = Extensions::empty();
        match peer {
            Some(a) => extensions.insert_peer(a),
            None => (),
        }
        Context { method, path, headers, extensions }
    }

    /// The request method.
    pub fn method(&self) -> (r: &String)
        ensures
            r@ == self@.method,
    {
        &self.method
    }

    /// The request path.
    pub fn path(&self) -> (r: &String)
        ensures
            r@ == self@.path,
    {
        &self.path
    }

    /// The request's extension store.
    pub fn extensions(&self) -> (r: &Extensions)
        ensures
            r@ == self@.extensions,
    {
        &self.extensions
    }

    /// Records a fact in the extension store, replacing any prior fact of
    /// the same type identity.
    pub fn insert_extension(&mut self, v: ExtensionValue)
        ensures
            final(self)@ == (CtxView {
                extensions: old(self)@.extensions.insert(crate::store::tag_of(v), v),
                ..old(self)@
            }),
    {
        self.extensions.insert(v);
    }

    /// The recorded peer address, or absent when the transport never
    /// recorded one.
    pub fn peer(&self) -> (r: Option<PeerAddress>)
        ensures
            r == peer_of(self@.extensions),
    {
        self.extensions.get_peer()
    }

    /// The value of the first header named `name`, if the request carries
    /// one.
    pub fn header_value(&self, name: &Vec<u8>) -> (r: Option<&Vec<u8>>)
        ensures
            match r {
                Some(v) => header_lookup(self@.headers, name@) == Some(v@),
                None => header_lookup(self@.headers, name@) is None,
            },
    {
        let n = self.headers.len();
        let mut i: usize = 0;
        while i < n
            invariant
                n == self.headers@.len(),
                i <= n,
                forall|j: int| 0 <= j < i ==> self@.headers[j].0 != name@,
            decreases n - i,
        {
            let h = &self.headers[i];
            if bytes_eq(&h.name, name) {
                proof {
                    lemma_header_at(self@.headers, name@, i as int);
                }
                return Some(&h.value);
            }
            i += 1;
        }
        proof {
            lemma_header_absent(self@.headers, name@);
        }
        None
    }
}

/// A name that occurs in no header of `hs` is not found.
proof fn lemma_header_absent(hs: Seq<(Seq<u8>, Seq<u8>)>, name: Seq<u8>)
    requires
        forall|j: int| 0 <= j < hs.len() ==> hs[j].0 != name,
    ensures
        header_lookup(hs, name) is None,
    decreases hs.len(),
{
    if hs.len() > 0 {
        lemma_header_absent(hs.drop_first(), name);
    }
}

/// The first header carrying `name` is what lookup returns.
proof fn lemma_header_at(hs: Seq<(Seq<u8>, Seq<u8>)>, name: Seq<u8>, i: int)
    requires
        0 <= i < hs.len(),
        hs[i].0 == name,
        forall|j: int| 0 <= j < i ==> hs[j].0 != name,
    ensures
        header_lookup(hs, name) == Some(hs[i].1),
    decreases i,
{
    if i > 0 {
        lemma_header_at(hs.drop_first(), name, i - 1);
    }
}

} // verus!
