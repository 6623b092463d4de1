use vstd::prelude::*;
use core::marker::PhantomData;

verus! {

/// A typed identifier: a non-zero integer tagged with the kind of thing it names.
/// Identifiers of different kinds are different types, so they cannot be mixed up.
pub struct Id<T> {
    raw: u64,
    _pd: PhantomData<T>,
}

impl<T> Id<T> {
    #[verifier::type_invariant]
    spec fn nonzero(self) -> bool {
        self.raw != 0
    }

    /// The raw integer of this identifier.
    pub closed spec fn value(self) -> u64 {
        self.raw
    }

    /// Wraps a raw integer, which must not be zero.
    pub fn from_raw(raw: u64) -> (r: Self)
        requires
            raw != 0,
        ensures
            r.value() == raw,
    {
        Id { raw, _pd: PhantomData }
    }

    /// The raw integer, as given to `from_raw`; never zero.
    pub fn raw(self) -> (r: u64)
        ensures
            r == self.value(),
            r != 0,
    {
        proof {
            use_type_invariant(&self);
        }
        self.raw
    }
}

impl<T> Clone for Id<T> {
    fn clone(&self) -> (r: Self)
        ensures
            r.value() == self.value(),
    {
        proof {
            use_type_invariant(self);
        }
        Id { raw: self.raw, _pd: PhantomData }
    }
}

impl<T> Copy for Id<T> {}

impl<T> PartialEq for Id<T> {
    fn eq(&self, other: &Self) -> (r: bool)
        ensures
            r == (self.value() == other.value()),
    {
        self.raw == other.raw
    }
}

impl<T> vstd::std_specs::cmp::PartialEqSpecImpl for Id<T> {
    open spec fn obeys_eq_spec() -> bool {
        true
    }

    open spec fn eq_spec(&self, other: &Self) -> bool {
        self.value() == other.value()
    }
}

impl<T> Eq for Id<T> {}

/// Handles are identifiers of loaded assets.
pub type Handle<T> = Id<T>;

} // verus!
