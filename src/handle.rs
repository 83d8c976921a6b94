//! Shared font handles whose equality is identity, not content.
use std::sync::Arc;
use vstd::prelude::*;

verus! {

/// Relies on `Arc::clone`: the new pointer refers to the same allocation,
/// so it holds the same value.
#[verifier::external_body]
fn share_arc<T>(a: &Arc<T>) -> (r: Arc<T>)
    ensures
        r == *a,
{
    Arc::clone(a)
}

/// Relies on `Arc::as_ptr` and `addr`: the address of the allocation that
/// the pointer shares. It depends on the machine, so nothing is promised
/// of its value; while the allocation lives no other allocation has it.
#[verifier::external_body]
fn address_of<T>(a: &Arc<T>) -> usize {
    Arc::as_ptr(a).addr()
}

/// Relies on `Hash for usize`: feeds the value into the hasher's state.
#[verifier::external_body]
fn hash_usize<H: std::hash::Hasher>(v: usize, state: &mut H) {
    std::hash::Hash::hash(&v, state)
}

/// Where a handle's font came from.
#[derive(PartialEq, Eq, Structural, Clone, Copy, Debug)]
pub enum Origin {
    /// The asset file of a standard-font slot.
    Standard(usize),
    /// Bytes embedded in a document.
    Embedded,
}

/// A reference-counted, immutable parsed font. A handle records the
/// address of the allocation it shares, taken when the font was wrapped;
/// the allocation lives as long as the handle, so the address names it.
/// Two handles are equal exactly when they share one allocation and one
/// origin: copies of a handle are equal, while two fonts parsed apart are
/// not, even from identical bytes.
pub struct FontRc<T> {
    origin: Origin,
    addr: usize,
    font: Arc<T>,
}

/// Whether two handles are one handle shared: same origin, same allocation.
pub open spec fn same_handle_spec<T>(a: FontRc<T>, b: FontRc<T>) -> bool {
    a.origin() == b.origin() && a.allocation() == b.allocation()
}

impl<T> FontRc<T> {
    /// Where the handle's font came from.
    pub closed spec fn origin(&self) -> Origin {
        self.origin
    }

    /// The address of the allocation the handle shares.
    pub closed spec fn allocation(&self) -> usize {
        self.addr
    }

    /// The parsed font the handle shares.
    pub closed spec fn value(&self) -> T {
        *self.font
    }

    pub(crate) fn standard(slot: usize, font: T) -> (r: Self)
        ensures
            r.origin() == Origin::Standard(slot),
            r.value() == font,
    {
        let font = Arc::new(font);
        FontRc { origin: Origin::Standard(slot), addr: address_of(&font), font }
    }

    /// A fresh handle for a font parsed from embedded bytes, in an
    /// allocation of its own.
    pub fn embedded(font: T) -> (r: Self)
        ensures
            r.origin() == Origin::Embedded,
            r.value() == font,
    {
        let font = Arc::new(font);
        FontRc { origin: Origin::Embedded, addr: address_of(&font), font }
    }

    /// Where the handle's font came from.
    pub fn source(&self) -> (r: Origin)
        ensures
            r == self.origin(),
    {
        self.origin
    }

    /// The parsed font the handle shares.
    pub fn font(&self) -> (r: &T)
        ensures
            *r == self.value(),
    {
        &*self.font
    }

    /// Another holder of the same allocation.
    pub fn share(&self) -> (r: Self)
        ensures
            r == *self,
    {
        FontRc { origin: self.origin, addr: self.addr, font: share_arc(&self.font) }
    }

    /// Whether both handles share one allocation. Handles of different
    /// origins never do.
    pub fn same_handle(&self, other: &Self) -> (r: bool)
        ensures
            r == same_handle_spec(*self, *other),
    {
        self.origin == other.origin && self.addr == other.addr
    }

    /// The key a hasher receives: the allocation's address, which equal
    /// handles share.
    pub fn hash_key(&self) -> (r: usize)
        ensures
            r == self.allocation(),
    {
        self.addr
    }
}

impl<T> Clone for FontRc<T> {
    fn clone(&self) -> (r: Self)
        ensures
            r == *self,
    {
        self.share()
    }
}

impl<T> PartialEq for FontRc<T> {
    fn eq(&self, other: &Self) -> (r: bool)
        ensures
            r == same_handle_spec(*self, *other),
    {
        self.same_handle(other)
    }
}

impl<T> vstd::std_specs::cmp::PartialEqSpecImpl for FontRc<T> {
    open spec fn obeys_eq_spec() -> bool {
        true
    }

    open spec fn eq_spec(&self, other: &Self) -> bool {
        same_handle_spec(*self, *other)
    }
}

impl<T> Eq for FontRc<T> {
}

impl<T> std::hash::Hash for FontRc<T> {
    /// Hashes the allocation's address, which equal handles share.
    fn hash<H: std::hash::Hasher>(&self, state: &mut H) {
        hash_usize(self.hash_key(), state)
    }
}

} // verus!
