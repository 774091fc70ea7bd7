//! The external-image registry: a mapping from image identifier to the
//! provider kind that owns the image, together with the monotonic allocator
//! that issues the identifiers.
//!
//! The reference design shares one registry between a rendering thread and
//! the subsystem threads that allocate and release images, behind a single
//! exclusive lock. The registry itself is a plain sequential structure; an
//! embedder that shares it across threads wraps it in its own lock.

use vstd::prelude::*;

verus! {

broadcast use vstd::std_specs::hash::group_hash_axioms;

/// The kind of subsystem that owns a class of external images.
#[derive(Clone, Copy, PartialEq, Eq, Structural, Debug)]
pub enum WebrenderImageHandlerType {
    WebGL,
    Media,
}

/// An identifier for an external image.
///
/// Identifiers are unique for the lifetime of the registry that issued them,
/// and the value `0` is never issued, so it can serve callers as an "unset"
/// sentinel.
#[derive(Clone, Copy, PartialEq, Eq, Structural, Debug)]
pub struct ExternalImageId(pub u64);

/// The registry of live external images.
///
/// It maps each issued identifier to the provider kind that owns the image,
/// and holds the counter from which the next identifier is derived.
pub struct WebrenderExternalImageRegistry {
    /// Map of all currently registered external images.
    external_images: std::collections::HashMap<u64, WebrenderImageHandlerType>,
    /// Generator for the next external image identifier.
    next_image_id: u64,
}

impl View for WebrenderExternalImageRegistry {
    type V = Map<u64, WebrenderImageHandlerType>;

    closed spec fn view(&self) -> Map<u64, WebrenderImageHandlerType> {
        self.external_images@
    }
}

impl WebrenderExternalImageRegistry {
    /// The value of the identifier allocator: every identifier issued so far
    /// is at most this, and the next issued identifier is one more.
    pub closed spec fn counter(&self) -> u64 {
        self.next_image_id
    }

    /// Every registered identifier was issued by this registry's own
    /// allocator: it is nonzero and no larger than the counter.
    pub closed spec fn well_formed(&self) -> bool {
        forall|k: u64| self@.contains_key(k) ==> 0 < k <= self.next_image_id
    }

    /// Creates an empty registry whose allocator starts at zero, so that the
    /// first issued identifier is `1`.
    pub fn new() -> (r: Self)
        ensures
            r@ == Map::<u64, WebrenderImageHandlerType>::empty(),
            r.counter() == 0,
            r.well_formed(),
    {
        Self { external_images: std::collections::HashMap::new(), next_image_id: 0 }
    }

    /// The current value of the identifier allocator, so that a caller can
    /// establish that the next allocation stays below the wraparound bound.
    pub fn counter_value(&self) -> (r: u64)
        ensures
            r == self.counter(),
    {
        self.next_image_id
    }

    /// Issues a fresh identifier and registers it for `handler_type`.
    ///
    /// Identifiers are strictly increasing across the registry's lifetime and
    /// never `0`. Counter wraparound is outside the design: the caller may
    /// not allocate once the counter has reached its maximum.
    pub fn next_id(&mut self, handler_type: WebrenderImageHandlerType) -> (r: ExternalImageId)
        requires
            old(self).counter() < u64::MAX,
            old(self).well_formed(),
        ensures
            r.0 == old(self).counter() + 1,
            final(self).counter() == r.0,
            r.0 != 0,
            !old(self)@.contains_key(r.0),
            final(self)@ == old(self)@.insert(r.0, handler_type),
            final(self).well_formed(),
    {
        self.next_image_id = self.next_image_id + 1;
        let key = self.next_image_id;
        self.external_images.insert(key, handler_type);
        ExternalImageId(key)
    }

    /// Deletes the mapping for `key` if it is present; a no-op if it is
    /// absent. Removal is never an error.
    pub fn remove(&mut self, key: &ExternalImageId)
        ensures
            final(self)@ == old(self)@.remove(key.0),
            final(self).counter() == old(self).counter(),
            old(self).well_formed() ==> final(self).well_formed(),
    {
        self.external_images.remove(&key.0);
    }

    /// Looks up the provider kind most recently registered for `key`, or
    /// nothing if `key` is not registered.
    pub fn get(&self, key: &ExternalImageId) -> (r: Option<&WebrenderImageHandlerType>)
        ensures
            match r {
                Some(t) => self@.contains_key(key.0) && self@[key.0] == *t,
                None => !self@.contains_key(key.0),
            },
    {
        self.external_images.get(&key.0)
    }
}

/// The identifiers that `next_id` issues when called `n` times in a row on a
/// registry whose counter holds `c0`: the values `c0 + 1` through `c0 + n`.
pub open spec fn issued_ids(c0: int, n: nat) -> Seq<int> {
    Seq::new(n, |i: int| c0 + i + 1)
}

/// Law: over any sequence of allocations, the issued identifiers are pairwise
/// distinct and strictly increasing, and none of them is `0`.
pub proof fn lemma_issued_ids_strictly_increasing(c0: int, n: nat)
    requires
        0 <= c0,
    ensures
        forall|i: int, j: int|
            0 <= i < j < n ==> issued_ids(c0, n)[i] < issued_ids(c0, n)[j],
        forall|i: int| 0 <= i < n ==> issued_ids(c0, n)[i] != 0,
{
}

/// Law: a lookup after an allocation returns the kind most recently
/// associated with the identifier, whatever was registered for it before.
pub proof fn lemma_lookup_after_allocate(
    m: Map<u64, WebrenderImageHandlerType>,
    k: u64,
    t: WebrenderImageHandlerType,
)
    ensures
        m.insert(k, t).contains_key(k),
        m.insert(k, t)[k] == t,
{
}

/// Law: a lookup after a removal returns nothing for the removed identifier
/// and is unchanged for every other identifier.
pub proof fn lemma_lookup_after_remove(m: Map<u64, WebrenderImageHandlerType>, k: u64, k2: u64)
    ensures
        !m.remove(k).contains_key(k),
        k2 != k ==> m.remove(k).contains_key(k2) == m.contains_key(k2),
        k2 != k && m.contains_key(k2) ==> m.remove(k)[k2] == m[k2],
{
}

} // verus!
