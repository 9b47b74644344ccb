use vstd::prelude::*;

use crate::erasable::Erasable;
use crate::limits::NWORDS;
use crate::trident::Trident;

verus! {

/// The raw storage behind a type-erased value: either the fixed word buffer
/// with the value laid out inside it, or a separately owned block of words
/// for a value too large to fit. Which variant a given payload type uses is
/// decided once, at construction, from the type's word count alone.
enum Slots {
    Inline(Vec<usize>),
    Heap(Vec<usize>),
}

/// Type-erased storage: raw machine words holding some value whose type has
/// been stripped. The storage carries no record of that type; every accessor
/// trusts the caller to supply the very type the storage was created with,
/// stated here as a precondition over `holds`. An `Erased` performs no
/// cleanup of its own: a value parked in it is reclaimed only by `into_inner`
/// or `into_trident`, and a caller who drops an `Erased` without consuming it
/// abandons the payload.
pub struct Erased {
    slots: Slots,
}

impl Erased {
    /// The storage contains exactly the value `v`: the words are `v`'s
    /// representation, placed in the variant that `v`'s type selects.
    pub closed spec fn holds<T: Erasable>(&self, v: T) -> bool {
        if T::word_count() <= NWORDS {
            &&& self.slots matches Slots::Inline(w)
            &&& w@.len() == NWORDS
            &&& w@.take(T::word_count() as int) == v.repr()
        } else {
            &&& self.slots matches Slots::Heap(w)
            &&& w@ == v.repr()
        }
    }

    /// The storage was created from some value of type `T`. This is the
    /// caller's side of the type-erasure bargain: every accessor requires it
    /// for the type it is invoked at.
    pub open spec fn stores<T: Erasable>(&self) -> bool {
        exists|v: T| self.holds(v)
    }

    /// Create an `Erased` from a `T`, consuming it. The value's words go
    /// into the fixed buffer when the type fits, otherwise into an owned
    /// block; no cleanup runs, ownership now belongs to the words.
    pub fn new<T: Erasable>(t: T) -> (r: Self)
        ensures
            r.holds(t),
            r.stores::<T>(),
    {
        proof {
            t.lemma_repr_len();
        }
        let wc = T::word_len();
        let mut w = t.encode();
        let r = if wc <= NWORDS {
            w.resize(NWORDS, 0);
            proof {
                assert(w@.take(T::word_count() as int) =~= t.repr());
            }
            Erased { slots: Slots::Inline(w) }
        } else {
            Erased { slots: Slots::Heap(w) }
        };
        proof {
            assert(r.holds(t));
        }
        r
    }

    /// Copy the contained `T` out, leaving the storage untouched. Restricted
    /// to freely duplicable payloads: the original stays owned by the words.
    pub fn get<T: Erasable + Copy>(&self) -> (r: T)
        requires
            self.stores::<T>(),
        ensures
            self.holds(r),
            forall|v: T| self.holds(v) ==> r == v,
    {
        let wc = T::word_len();
        let r = match &self.slots {
            Slots::Inline(w) => {
                proof {
                    let v = choose|v: T| self.holds(v);
                    v.lemma_repr_len();
                }
                let mut p: Vec<usize> = Vec::new();
                let mut i: usize = 0;
                while i < wc
                    invariant
                        i <= wc,
                        wc as nat == T::word_count(),
                        wc <= w@.len(),
                        p@ == w@.take(i as int),
                    decreases wc - i,
                {
                    p.push(w[i]);
                    i += 1;
                    proof {
                        assert(p@ =~= w@.take(i as int));
                    }
                }
                proof {
                    let v = choose|v: T| self.holds(v);
                    assert(v.repr() == p@);
                }
                T::decode(&p)
            },
            Slots::Heap(w) => {
                proof {
                    let v = choose|v: T| self.holds(v);
                    assert(v.repr() == w@);
                }
                T::decode(w)
            },
        };
        proof {
            assert forall|v: T| self.holds(v) implies r == v by {
                lemma_holds_unique(self, r, v);
            }
        }
        r
    }

    /// Take the contained `T` back out, consuming the storage. This is the
    /// one place the erased form's owned block is released, and the value is
    /// rebuilt rather than cleaned up: ownership transfers to the caller.
    pub fn into_inner<T: Erasable>(self) -> (r: T)
        requires
            self.stores::<T>(),
        ensures
            self.holds(r),
            forall|v: T| self.holds(v) ==> r == v,
    {
        let ghost s = self;
        let wc = T::word_len();
        let r = match self.slots {
            Slots::Inline(mut w) => {
                proof {
                    let v = choose|v: T| s.holds(v);
                    v.lemma_repr_len();
                }
                w.truncate(wc);
                proof {
                    let v = choose|v: T| s.holds(v);
                    assert(v.repr() == w@);
                }
                T::decode(&w)
            },
            Slots::Heap(w) => {
                proof {
                    let v = choose|v: T| s.holds(v);
                    assert(v.repr() == w@);
                }
                T::decode(&w)
            },
        };
        proof {
            assert forall|v: T| s.holds(v) implies r == v by {
                lemma_holds_unique(&s, r, v);
            }
        }
        r
    }

    /// Reassert the erased value's type, converting to a typed container and
    /// handing it the cleanup responsibility.
    pub fn into_trident<T: Erasable>(self) -> (r: Trident<T>)
        requires
            self.stores::<T>(),
        ensures
            self.holds(r@),
            forall|v: T| self.holds(v) ==> r@ == v,
    {
        Trident::from_erased(self)
    }
}

/// Raw words plus a type determine the value: storage that holds both `a`
/// and `b` at the same type holds one value. This is what makes the
/// erase/unerase cycle lossless — reconstructing with the construction type
/// can only yield the value originally erased.
pub proof fn lemma_holds_unique<T: Erasable>(e: &Erased, a: T, b: T)
    requires
        e.holds(a),
        e.holds(b),
    ensures
        a == b,
{
    T::lemma_repr_injective(&a, &b);
}

} // verus!
