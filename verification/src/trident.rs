use vstd::prelude::*;

use crate::erasable::Erasable;
use crate::erased::Erased;
use crate::limits;

verus! {

/// Where the payload lives: small types sit directly in the container,
/// large ones behind a single owned heap allocation. The variant is chosen
/// once, at construction, from the payload type's static size, and never
/// changes afterwards.
enum Store<T> {
    Inline(T),
    Heap(Box<T>),
}

/// A container that stores a `T` either inline, if `T` is no larger than the
/// word buffer, or behind one heap allocation. The container owns the value:
/// dropping it runs the payload's cleanup exactly once (in place for the
/// inline mode, via the freed allocation for the heap mode), and consuming
/// it with `into_inner` transfers ownership out instead, so no path cleans
/// up twice.
pub struct Trident<T> {
    store: Store<T>,
}

impl<T> View for Trident<T> {
    type V = T;

    /// The value the container holds, whichever mode stores it.
    closed spec fn view(&self) -> T {
        match self.store {
            Store::Inline(t) => t,
            Store::Heap(b) => *b,
        }
    }
}

impl<T> Trident<T> {
    /// The payload sits in the container itself, with no allocation behind it.
    pub closed spec fn is_inline(&self) -> bool {
        self.store is Inline
    }

    /// Whether values of this payload type are stored inline: exactly the
    /// types whose size fits the word buffer.
    pub fn should_inline() -> (r: bool)
        ensures
            r == (vstd::layout::size_of::<T>() <= limits::size_limit()),
    {
        limits::should_inline::<T>()
    }

    /// Create a `Trident<T>` from a `T`. The storage mode follows the size
    /// threshold: inline exactly when `T` fits the word buffer.
    pub fn new(t: T) -> (r: Self)
        ensures
            r@ == t,
            r.is_inline() == (vstd::layout::size_of::<T>() <= limits::size_limit()),
    {
        if limits::should_inline::<T>() {
            Trident { store: Store::Inline(t) }
        } else {
            Trident { store: Store::Heap(Box::new(t)) }
        }
    }

    /// Get a reference to the contained `T`.
    pub fn as_ref(&self) -> (r: &T)
        ensures
            *r == self@,
    {
        match &self.store {
            Store::Inline(t) => t,
            Store::Heap(b) => &**b,
        }
    }

    /// Get a mutable reference to the contained `T`: whatever the caller
    /// writes through it is what the container holds afterwards, in the same
    /// storage mode.
    pub fn as_mut_ref(&mut self) -> (r: &mut T)
        ensures
            *r == old(self)@,
            final(self)@ == *final(r),
            final(self).is_inline() == old(self).is_inline(),
    {
        match &mut self.store {
            Store::Inline(t) => t,
            Store::Heap(b) => &mut **b,
        }
    }

    /// Take the contained `T` back out, consuming the container. Ownership
    /// transfers to the caller, so the container's own teardown never runs:
    /// the payload's cleanup stays with the returned value, and the heap
    /// allocation, if the mode used one, is released here.
    pub fn into_inner(self) -> (r: T)
        ensures
            r == self@,
    {
        match self.store {
            Store::Inline(t) => t,
            Store::Heap(b) => *b,
        }
    }
}

impl<T: Copy> Trident<T> {
    /// Copy the contained `T` out, leaving the container untouched.
    pub fn get(&self) -> (r: T)
        ensures
            r == self@,
    {
        *self.as_ref()
    }
}

impl<T: Erasable> Trident<T> {
    /// Create a `Trident<T>` from type-erased storage. The caller asserts,
    /// through the precondition, that the storage was created from a `T`;
    /// the container then holds the very value that was erased.
    pub fn from_erased(erased: Erased) -> (r: Self)
        requires
            erased.stores::<T>(),
        ensures
            erased.holds(r@),
            forall|v: T| erased.holds(v) ==> r@ == v,
    {
        Trident::new(erased.into_inner())
    }

    /// Convert to type-erased storage, consuming the container. The value is
    /// moved out and re-erased whole, so the cycle back through
    /// `from_erased` returns it unchanged; until then no cleanup runs.
    pub fn into_erased(self) -> (r: Erased)
        ensures
            r.holds(self@),
            r.stores::<T>(),
    {
        Erased::new(self.into_inner())
    }
}

} // verus!
