use crate::garble::Garble;
use crate::garbler::Garbler;
use crate::leaf::{lemma_concat_empty, lemma_prefix_concat, Leaf};
use vstd::prelude::*;

verus! {

/// Transparent envelope for a value that must pass through garbling
/// unchanged, whatever the strategy.
///
/// Because its garbling never touches the payload, it can wrap any type,
/// including ones no strategy knows how to perturb.
#[derive(Debug, Clone, Copy, PartialEq, Eq)]
pub struct NoGarble<T>(pub T);

impl<T> NoGarble<T> {
    /// Read access to the wrapped value.
    pub fn inner(&self) -> (r: &T)
        ensures
            *r == self.0,
    {
        &self.0
    }

    /// Consume the envelope and hand the wrapped value back.
    pub fn into_inner(self) -> (r: T)
        ensures
            r == self.0,
    {
        self.0
    }
}

impl<T> From<T> for NoGarble<T> {
    fn from(t: T) -> (r: Self) {
        NoGarble(t)
    }
}

impl<T> vstd::std_specs::convert::FromSpecImpl<T> for NoGarble<T> {
    open spec fn obeys_from_spec() -> bool {
        true
    }

    open spec fn from_spec(t: T) -> Self {
        NoGarble(t)
    }
}

// Garbling an opt-out envelope returns the wrapped value unchanged and makes
// no leaf call, whatever the payload is: the payload itself need not be
// garblable.
impl<T> Garble for NoGarble<T> {
    type Output = T;

    open spec fn garble_rel(self, out: T) -> bool {
        out == self.0
    }

    open spec fn id_rel(self, out: T) -> bool {
        out == self.0
    }

    open spec fn flat_rel(self, out: T) -> bool {
        out == self.0
    }

    open spec fn trace(self) -> Seq<Leaf> {
        Seq::empty()
    }

    open spec fn trace_exact(self) -> bool {
        true
    }

    open spec fn seed_known(self) -> bool {
        true
    }

    open spec fn out_eq(a: T, b: T) -> bool {
        a == b
    }

    open spec fn seed_rel(self, s: u64, out: T, s2: u64) -> bool {
        s2 == s && out == self.0
    }

    proof fn seed_functional(self, s: u64, o1: T, s1: u64, o2: T, s2: u64) {
    }

    open spec fn seed_after(self, s: u64) -> u64 {
        s
    }

    proof fn seed_after_ok(self, s: u64, out: T, s2: u64) {
    }

    fn garble<G: Garbler>(self, garbler: &mut G) -> (out: T) {
        proof {
            lemma_prefix_concat(garbler.log(), Seq::<Leaf>::empty());
            lemma_concat_empty(garbler.log());
        }
        self.0
    }
}

} // verus!
