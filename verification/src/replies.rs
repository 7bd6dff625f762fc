//! The data carried between a broadcast and its reconciliation.
//!
//! A request is fanned out to every node of a [`NodeSet`]; each node answers
//! with a [`Reply`] (a success payload made of content-addressed sub-results)
//! or a [`NodeError`]. Digests are deterministic fingerprints of payload
//! content: two payloads agree exactly when their digests are equal, so the
//! reconciler never compares full payloads.

use vstd::prelude::*;

verus! {

/// Where an output object of an executed certificate lives.
#[derive(Clone, Copy, PartialEq, Eq, Structural, Debug)]
pub enum OwnerKind {
    /// Owned by an account address.
    AddressOwner(u64),
    /// Owned by another object.
    ObjectOwner(u64),
    /// Shared: anyone may use it, writes go through the ordering layer.
    Shared,
    /// Immutable: frozen forever (a published package, for instance).
    Immutable,
}

/// The identity of one object version: id, version counter, and the digest
/// of its contents.
#[derive(Clone, Copy, PartialEq, Eq, Structural, Debug)]
pub struct ObjectRefInfo {
    pub object_id: u64,
    pub version: u64,
    pub object_digest: u64,
}

/// One object that executing a certificate created, with its ownership.
#[derive(Clone, Copy, PartialEq, Eq, Structural, Debug)]
pub struct CreatedObject {
    pub reference: ObjectRefInfo,
    pub owner: OwnerKind,
}

/// The "effects" sub-result of executing a certificate: what the execution
/// did, fingerprinted by `digest`. Only the created objects are carried in
/// full, since extraction reads them.
#[derive(PartialEq, Eq, Debug)]
pub struct Effects {
    /// Deterministic fingerprint of the whole effects content.
    pub digest: u64,
    /// The objects the execution created, in the order the node reports them.
    pub created: Vec<CreatedObject>,
}

/// The "events" sub-result of executing a certificate, fingerprinted by
/// `digest`.
#[derive(PartialEq, Eq, Debug)]
pub struct Events {
    /// Deterministic fingerprint of the whole event list.
    pub digest: u64,
}

/// One node's successful answer to a submitted certificate: the two
/// content-addressed sub-result categories.
#[derive(PartialEq, Eq, Debug)]
pub struct Reply {
    pub effects: Effects,
    pub events: Events,
}

/// A node's structured refusal, preserved end-to-end across the transport so
/// that transience is classified by variant, never by matching error text.
#[derive(Clone, Copy, PartialEq, Eq, Structural, Debug)]
pub enum NodeError {
    /// The ordering layer has not yet sequenced a dependency of the request;
    /// the node may well accept the identical request later.
    TransientRejection,
    /// The request itself is invalid.
    MalformedRequest,
    /// An attestation on the request failed to verify.
    SignatureFailure,
    /// The node could not be reached or the connection broke.
    NetworkFailure,
}

impl NodeError {
    /// Whether retrying the identical request may succeed. Only the ordering
    /// layer's "not yet sequenced" refusal is transient; every other failure
    /// is a property of the request or of the node and aborts a broadcast.
    pub open spec fn spec_is_transient(&self) -> bool {
        self is TransientRejection
    }

    #[verifier::when_used_as_spec(spec_is_transient)]
    pub fn is_transient(&self) -> (transient: bool)
        ensures
            transient == self.spec_is_transient(),
    {
        matches!(self, NodeError::TransientRejection)
    }
}

/// The committee: the fixed, ordered list of node addresses one broadcast
/// targets. The broadcast driver never changes it; it only defines fan-out
/// breadth, one request per listed address.
pub struct NodeSet {
    addresses: Vec<u64>,
}

impl View for NodeSet {
    type V = Seq<u64>;

    closed spec fn view(&self) -> Seq<u64> {
        self.addresses@
    }
}

impl NodeSet {
    pub fn new(addresses: Vec<u64>) -> (nodes: NodeSet)
        ensures
            nodes@ == addresses@,
    {
        NodeSet { addresses }
    }

    pub fn len(&self) -> (n: usize)
        ensures
            n == self@.len(),
    {
        self.addresses.len()
    }

    pub fn address_at(&self, i: usize) -> (addr: u64)
        requires
            i < self@.len(),
        ensures
            addr == self@[i as int],
    {
        self.addresses[i]
    }
}

} // verus!
