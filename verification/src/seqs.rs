use crate::garble::{seq_flat_rel, seq_seed_after, seq_seed_after_ok, seq_seed_functional, seq_seed_known, seq_seed_rel, seq_trace_exact, trace_of_seq, Garble};
use crate::garbler::Garbler;
use crate::leaf::{
    lemma_concat_assoc, lemma_concat_empty, lemma_prefix_refl, lemma_prefix_trans, Leaf,
};
use std::collections::VecDeque;
use vstd::prelude::*;

verus! {

// An indexable sequence garbles elementwise, in ascending index order; the
// length and the element order are preserved.
impl<T: Garble> Garble for Vec<T> {
    type Output = Vec<T::Output>;

    open spec fn garble_rel(self, out: Vec<T::Output>) -> bool {
        &&& out@.len() == self@.len()
        &&& forall|i: int| 0 <= i < self@.len() ==> self@[i].garble_rel(#[trigger] out@[i])
    }

    open spec fn id_rel(self, out: Vec<T::Output>) -> bool {
        &&& out@.len() == self@.len()
        &&& forall|i: int| 0 <= i < self@.len() ==> self@[i].id_rel(#[trigger] out@[i])
    }

    open spec fn flat_rel(self, out: Vec<T::Output>) -> bool {
        seq_flat_rel(self@, out@)
    }

    open spec fn trace(self) -> Seq<Leaf> {
        trace_of_seq(self@)
    }

    open spec fn trace_exact(self) -> bool {
        seq_trace_exact(self@)
    }

    open spec fn seed_known(self) -> bool {
        seq_seed_known(self@)
    }

    open spec fn out_eq(a: Vec<T::Output>, b: Vec<T::Output>) -> bool {
        a@.len() == b@.len() && (forall|i: int|
            0 <= i < a@.len() ==> T::out_eq(#[trigger] a@[i], b@[i]))
    }

    open spec fn seed_rel(self, s: u64, out: Vec<T::Output>, s2: u64) -> bool {
        seq_seed_rel(self@, s, out@, s2)
    }

    proof fn seed_functional(self, s: u64, o1: Vec<T::Output>, s1: u64, o2: Vec<T::Output>, s2: u64) {
        seq_seed_functional(self@, s, o1@, s1, o2@, s2);
    }

    open spec fn seed_after(self, s: u64) -> u64 {
        seq_seed_after(self@, s)
    }

    proof fn seed_after_ok(self, s: u64, out: Vec<T::Output>, s2: u64) {
        seq_seed_after_ok(self@, s, out@, s2);
    }

    fn garble<G: Garbler>(self, garbler: &mut G) -> (out: Vec<T::Output>) {
        let ghost orig = self@;
        let ghost g0 = *garbler;
        let mut rest = self;
        let mut out: Vec<T::Output> = Vec::new();
        proof {
            assert(orig.take(0) =~= Seq::<T>::empty());
            assert(rest@ =~= orig.skip(0));
            lemma_prefix_refl(g0.log());
            lemma_concat_empty(g0.log());
        }
        while rest.len() > 0
            invariant
                g0 == *old(garbler),
                out@.len() + rest@.len() == orig.len(),
                rest@ == orig.skip(out@.len() as int),
                forall|i: int| 0 <= i < out@.len() ==> orig[i].garble_rel(#[trigger] out@[i]),
                g0.keeps() ==> garbler.keeps() && (forall|i: int|
                    0 <= i < out@.len() ==> orig[i].id_rel(#[trigger] out@[i])),
                g0.flattens() ==> garbler.flattens() && (forall|i: int|
                    0 <= i < out@.len() ==> orig[i].flat_rel(#[trigger] out@[i])),
                g0.logs() ==> garbler.logs() && g0.log().is_prefix_of(garbler.log()) && (
                seq_trace_exact(orig.take(out@.len() as int)) ==> garbler.log() == g0.log()
                    + trace_of_seq(orig.take(out@.len() as int))),
                g0.follows_seed() ==> garbler.follows_seed() && (seq_seed_known(orig)
                    ==> seq_seed_rel(
                    orig.take(out@.len() as int),
                    g0.seed_state(),
                    out@,
                    garbler.seed_state(),
                )),
            decreases rest@.len(),
        {
            let ghost k = out@.len() as int;
            let ghost pre = *garbler;
            let ghost out_pre = out@;
            let x = rest.remove(0);
            let y = x.garble(garbler);
            out.push(y);
            proof {
                assert(rest@ =~= orig.skip(k + 1));
                if g0.follows_seed() && seq_seed_known(orig) {
                    assert(orig[k].seed_known());
                    assert(orig.take(k + 1).drop_last() =~= orig.take(k));
                    assert(out@.drop_last() =~= out_pre);
                    assert(orig.take(k + 1).last() == orig[k]);
                    assert(out@.last() == y);
                    assert(seq_seed_known(orig.take(k))) by {
                        assert(forall|j: int| 0 <= j < k ==> orig.take(k)[j] == orig[j]);
                    }
                    seq_seed_after_ok(orig.take(k), g0.seed_state(), out_pre, pre.seed_state());
                    assert(seq_seed_rel(
                        orig.take(k + 1),
                        g0.seed_state(),
                        out@,
                        garbler.seed_state(),
                    ));
                }
                if g0.logs() {
                    lemma_prefix_trans(g0.log(), pre.log(), garbler.log());
                    if seq_trace_exact(orig.take(k + 1)) {
                        assert(orig.take(k + 1).drop_last() =~= orig.take(k));
                        assert(seq_trace_exact(orig.take(k)));
                        assert(orig.take(k + 1).last() == orig[k]);
                        lemma_concat_assoc(g0.log(), trace_of_seq(orig.take(k)), orig[k].trace());
                        assert(trace_of_seq(orig.take(k + 1)) == trace_of_seq(orig.take(k))
                            + orig[k].trace());
                    }
                }
            }
        }
        proof {
            assert(orig.take(orig.len() as int) =~= orig);
        }
        out
    }
}

// A double-ended sequence garbles the same way: front to back, length and
// order preserved.
impl<T: Garble> Garble for VecDeque<T> {
    type Output = VecDeque<T::Output>;

    open spec fn garble_rel(self, out: VecDeque<T::Output>) -> bool {
        &&& out@.len() == self@.len()
        &&& forall|i: int| 0 <= i < self@.len() ==> self@[i].garble_rel(#[trigger] out@[i])
    }

    open spec fn id_rel(self, out: VecDeque<T::Output>) -> bool {
        &&& out@.len() == self@.len()
        &&& forall|i: int| 0 <= i < self@.len() ==> self@[i].id_rel(#[trigger] out@[i])
    }

    open spec fn flat_rel(self, out: VecDeque<T::Output>) -> bool {
        seq_flat_rel(self@, out@)
    }

    open spec fn trace(self) -> Seq<Leaf> {
        trace_of_seq(self@)
    }

    open spec fn trace_exact(self) -> bool {
        seq_trace_exact(self@)
    }

    open spec fn seed_known(self) -> bool {
        seq_seed_known(self@)
    }

    open spec fn out_eq(a: VecDeque<T::Output>, b: VecDeque<T::Output>) -> bool {
        a@.len() == b@.len() && (forall|i: int|
            0 <= i < a@.len() ==> T::out_eq(#[trigger] a@[i], b@[i]))
    }

    open spec fn seed_rel(self, s: u64, out: VecDeque<T::Output>, s2: u64) -> bool {
        seq_seed_rel(self@, s, out@, s2)
    }

    proof fn seed_functional(self, s: u64, o1: VecDeque<T::Output>, s1: u64, o2: VecDeque<T::Output>, s2: u64) {
        seq_seed_functional(self@, s, o1@, s1, o2@, s2);
    }

    open spec fn seed_after(self, s: u64) -> u64 {
        seq_seed_after(self@, s)
    }

    proof fn seed_after_ok(self, s: u64, out: VecDeque<T::Output>, s2: u64) {
        seq_seed_after_ok(self@, s, out@, s2);
    }

    fn garble<G: Garbler>(self, garbler: &mut G) -> (out: VecDeque<T::Output>) {
        let ghost orig = self@;
        let ghost g0 = *garbler;
        let mut rest = self;
        let mut out: VecDeque<T::Output> = VecDeque::new();
        proof {
            assert(orig.take(0) =~= Seq::<T>::empty());
            assert(rest@ =~= orig.skip(0));
            lemma_prefix_refl(g0.log());
            lemma_concat_empty(g0.log());
        }
        while rest.len() > 0
            invariant
                g0 == *old(garbler),
                out@.len() + rest@.len() == orig.len(),
                rest@ == orig.skip(out@.len() as int),
                forall|i: int| 0 <= i < out@.len() ==> orig[i].garble_rel(#[trigger] out@[i]),
                g0.keeps() ==> garbler.keeps() && (forall|i: int|
                    0 <= i < out@.len() ==> orig[i].id_rel(#[trigger] out@[i])),
                g0.flattens() ==> garbler.flattens() && (forall|i: int|
                    0 <= i < out@.len() ==> orig[i].flat_rel(#[trigger] out@[i])),
                g0.logs() ==> garbler.logs() && g0.log().is_prefix_of(garbler.log()) && (
                seq_trace_exact(orig.take(out@.len() as int)) ==> garbler.log() == g0.log()
                    + trace_of_seq(orig.take(out@.len() as int))),
                g0.follows_seed() ==> garbler.follows_seed() && (seq_seed_known(orig)
                    ==> seq_seed_rel(
                    orig.take(out@.len() as int),
                    g0.seed_state(),
                    out@,
                    garbler.seed_state(),
                )),
            decreases rest@.len(),
        {
            let ghost k = out@.len() as int;
            let ghost pre = *garbler;
            let ghost out_pre = out@;
            let x = rest.pop_front().unwrap();
            let y = x.garble(garbler);
            out.push_back(y);
            proof {
                assert(rest@ =~= orig.skip(k + 1));
                if g0.follows_seed() && seq_seed_known(orig) {
                    assert(orig[k].seed_known());
                    assert(orig.take(k + 1).drop_last() =~= orig.take(k));
                    assert(out@.drop_last() =~= out_pre);
                    assert(orig.take(k + 1).last() == orig[k]);
                    assert(out@.last() == y);
                    assert(seq_seed_known(orig.take(k))) by {
                        assert(forall|j: int| 0 <= j < k ==> orig.take(k)[j] == orig[j]);
                    }
                    seq_seed_after_ok(orig.take(k), g0.seed_state(), out_pre, pre.seed_state());
                    assert(seq_seed_rel(
                        orig.take(k + 1),
                        g0.seed_state(),
                        out@,
                        garbler.seed_state(),
                    ));
                }
                if g0.logs() {
                    lemma_prefix_trans(g0.log(), pre.log(), garbler.log());
                    if seq_trace_exact(orig.take(k + 1)) {
                        assert(orig.take(k + 1).drop_last() =~= orig.take(k));
                        assert(seq_trace_exact(orig.take(k)));
                        assert(orig.take(k + 1).last() == orig[k]);
                        lemma_concat_assoc(g0.log(), trace_of_seq(orig.take(k)), orig[k].trace());
                        assert(trace_of_seq(orig.take(k + 1)) == trace_of_seq(orig.take(k))
                            + orig[k].trace());
                    }
                }
            }
        }
        proof {
            assert(orig.take(orig.len() as int) =~= orig);
        }
        out
    }
}

} // verus!
