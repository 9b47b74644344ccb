use vstd::prelude::*;

verus! {

/// A payload that can live in type-erased storage.
///
/// Erasing a value strips its compile-time type and keeps only raw machine
/// words; reconstructing it later is possible only because the payload type
/// fixes, once and for all, how a value is laid out as words. This trait is
/// that contract: `repr` is the mathematical word representation, with a
/// per-type, compile-time-fixed width (`word_count`), and `encode`/`decode`
/// realize it. Injectivity of `repr` is what makes reconstruction unambiguous:
/// the words of an erased value determine the value, once the type is known.
pub trait Erasable: Sized {
    /// The word representation of this value.
    spec fn repr(&self) -> Seq<usize>;

    /// How many machine words a value of this type occupies. A per-type
    /// constant: storage mode is decided from it alone, never per instance.
    spec fn word_count() -> nat;

    /// Every value's representation has exactly `word_count()` words.
    proof fn lemma_repr_len(&self)
        ensures
            self.repr().len() == Self::word_count(),
    ;

    /// Distinct values have distinct representations, so raw words plus the
    /// type determine the value.
    proof fn lemma_repr_injective(a: &Self, b: &Self)
        ensures
            a.repr() == b.repr() ==> a == b,
    ;

    /// Executable counterpart of `word_count`.
    fn word_len() -> (n: usize)
        ensures
            n as nat == Self::word_count(),
    ;

    /// Lay the value out as its representation words, consuming it.
    fn encode(self) -> (w: Vec<usize>)
        ensures
            w@ == self.repr(),
    ;

    /// Rebuild the value whose representation the given words are.
    fn decode(w: &Vec<usize>) -> (r: Self)
        requires
            exists|v: Self| v.repr() == w@,
        ensures
            r.repr() == w@,
    ;
}

impl Erasable for usize {
    open spec fn repr(&self) -> Seq<usize> {
        seq![*self]
    }

    open spec fn word_count() -> nat {
        1
    }

    proof fn lemma_repr_len(&self) {
    }

    proof fn lemma_repr_injective(a: &Self, b: &Self) {
        if a.repr() == b.repr() {
            assert(a.repr()[0] == b.repr()[0]);
        }
    }

    fn word_len() -> (n: usize) {
        1
    }

    fn encode(self) -> (w: Vec<usize>) {
        let mut w: Vec<usize> = Vec::new();
        w.push(self);
        proof {
            assert(w@ =~= self.repr());
        }
        w
    }

    fn decode(w: &Vec<usize>) -> (r: Self) {
        proof {
            let v = choose|v: Self| v.repr() == w@;
            assert(v.repr().len() == 1);
        }
        let r = w[0];
        proof {
            assert(r.repr() =~= w@);
        }
        r
    }
}

impl Erasable for (usize, usize) {
    open spec fn repr(&self) -> Seq<usize> {
        seq![self.0, self.1]
    }

    open spec fn word_count() -> nat {
        2
    }

    proof fn lemma_repr_len(&self) {
    }

    proof fn lemma_repr_injective(a: &Self, b: &Self) {
        if a.repr() == b.repr() {
            assert(a.repr()[0] == b.repr()[0]);
            assert(a.repr()[1] == b.repr()[1]);
        }
    }

    fn word_len() -> (n: usize) {
        2
    }

    fn encode(self) -> (w: Vec<usize>) {
        let mut w: Vec<usize> = Vec::new();
        w.push(self.0);
        w.push(self.1);
        proof {
            assert(w@ =~= self.repr());
        }
        w
    }

    fn decode(w: &Vec<usize>) -> (r: Self) {
        proof {
            let v = choose|v: Self| v.repr() == w@;
            assert(v.repr().len() == 2);
        }
        let r = (w[0], w[1]);
        proof {
            assert(r.repr() =~= w@);
        }
        r
    }
}

impl Erasable for (usize, usize, usize, usize) {
    open spec fn repr(&self) -> Seq<usize> {
        seq![self.0, self.1, self.2, self.3]
    }

    open spec fn word_count() -> nat {
        4
    }

    proof fn lemma_repr_len(&self) {
    }

    proof fn lemma_repr_injective(a: &Self, b: &Self) {
        if a.repr() == b.repr() {
            assert(a.repr()[0] == b.repr()[0]);
            assert(a.repr()[1] == b.repr()[1]);
            assert(a.repr()[2] == b.repr()[2]);
            assert(a.repr()[3] == b.repr()[3]);
        }
    }

    fn word_len() -> (n: usize) {
        4
    }

    fn encode(self) -> (w: Vec<usize>) {
        let mut w: Vec<usize> = Vec::new();
        w.push(self.0);
        w.push(self.1);
        w.push(self.2);
        w.push(self.3);
        proof {
            assert(w@ =~= self.repr());
        }
        w
    }

    fn decode(w: &Vec<usize>) -> (r: Self) {
        proof {
            let v = choose|v: Self| v.repr() == w@;
            assert(v.repr().len() == 4);
        }
        let r = (w[0], w[1], w[2], w[3]);
        proof {
            assert(r.repr() =~= w@);
        }
        r
    }
}

} // verus!
