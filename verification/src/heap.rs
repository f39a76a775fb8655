use crate::collections::{pairs_trace_exact, trace_of_pairs};
use crate::exact::ExactEq;
use crate::garble::Garble;
use crate::garbler::{churn, seed_out, Garbler};
use crate::leaf::{lemma_concat_assoc, lemma_concat_empty, lemma_prefix_refl, lemma_prefix_trans, lemma_push_is_concat, Leaf};
use vstd::prelude::*;

verus! {

/// The position of the first entry of maximal priority in `s`.
pub open spec fn max_prio_index<T>(s: Seq<(u64, T)>) -> int
    decreases s.len(),
{
    if s.len() <= 1 {
        0
    } else {
        let r = max_prio_index(s.drop_last());
        if s.last().0 > s[r].0 {
            s.len() - 1
        } else {
            r
        }
    }
}

/// [`max_prio_index`] is in range and names an entry no priority exceeds.
pub proof fn lemma_max_prio_index<T>(s: Seq<(u64, T)>)
    requires
        s.len() > 0,
    ensures
        0 <= max_prio_index(s) < s.len(),
        forall|i: int| 0 <= i < s.len() ==> (#[trigger] s[i]).0 <= s[max_prio_index(s)].0,
    decreases s.len(),
{
    if s.len() > 1 {
        lemma_max_prio_index(s.drop_last());
        assert(forall|i: int| 0 <= i < s.len() - 1 ==> s.drop_last()[i] == s[i]);
    }
}

/// The seed a deterministically seeded strategy holds after garbling the
/// entries of `s` — each a priority leaf, then a payload — starting from
/// `st`.
pub open spec fn heap_seed_after<T: ExactEq>(s: Seq<(u64, T)>, st: u64) -> u64
    decreases s.len(),
{
    if s.len() == 0 {
        st
    } else {
        s.last().1.seed_after(churn(heap_seed_after(s.drop_last(), st)))
    }
}

/// The keyed views of the seeded garblings of the entries of `s`: each
/// garbled priority, with the view of its garbled payload, in order.
pub open spec fn heap_seeded_views<T: ExactEq>(s: Seq<(u64, T)>, st: u64) -> Seq<(u64, T::V)>
    decreases s.len(),
{
    if s.len() == 0 {
        Seq::empty()
    } else {
        let sm = heap_seed_after(s.drop_last(), st);
        let prio = (match seed_out(sm, Leaf::U64(s.last().0)) {
            Leaf::U64(n) => n,
            _ => s.last().0,
        });
        heap_seeded_views(s.drop_last(), st).push((prio, s.last().1.seed_view(churn(sm))))
    }
}

/// Whether every entry payload of `s` has a pinned seeded relation.
pub open spec fn heap_seed_known<T: ExactEq>(s: Seq<(u64, T)>) -> bool {
    forall|i: int| 0 <= i < s.len() ==> (#[trigger] s[i]).1.seed_known()
}

/// A priority queue: entries of an integer priority and a payload, served
/// highest priority first.
///
/// Garbling hands each entry's priority and then its payload to the
/// strategy, in insertion order, and collects the answers into a fresh
/// queue; unlike the set and the mapping, nothing merges, so the entry
/// count is preserved.
#[derive(Debug)]
pub struct GHeap<T: ExactEq> {
    entries: Vec<(u64, T)>,
}

impl<T: ExactEq> GHeap<T> {
    /// The entries, in insertion order.
    pub closed spec fn entries_seq(self) -> Seq<(u64, T)> {
        self.entries@
    }

    /// The entries as priority and payload view, in insertion order.
    pub open spec fn keyed_views(self) -> Seq<(u64, T::V)> {
        self.entries_seq().map_values(|e: (u64, T)| (e.0, e.1@))
    }

    /// Create an empty queue.
    pub fn new() -> (r: GHeap<T>)
        ensures
            r.entries_seq() == Seq::<(u64, T)>::empty(),
    {
        GHeap { entries: Vec::new() }
    }

    /// How many entries the queue holds.
    pub fn len(&self) -> (n: usize)
        ensures
            n == self.entries_seq().len(),
    {
        self.entries.len()
    }

    /// Read access to the entries, in insertion order.
    pub fn as_entries(&self) -> (r: &Vec<(u64, T)>)
        ensures
            r@ == self.entries_seq(),
    {
        &self.entries
    }

    /// Add an entry with the given priority.
    pub fn push(self, prio: u64, item: T) -> (r: GHeap<T>)
        ensures
            r.entries_seq() == self.entries_seq().push((prio, item)),
    {
        let GHeap { mut entries } = self;
        entries.push((prio, item));
        GHeap { entries }
    }

    /// Remove and return the first entry of maximal priority; `None` when
    /// the queue is empty.
    pub fn pop_max(self) -> (r: (GHeap<T>, Option<(u64, T)>))
        ensures
            self.entries_seq().len() == 0 ==> r.1 is None && r.0.entries_seq()
                == self.entries_seq(),
            self.entries_seq().len() > 0 ==> {
                let j = max_prio_index(self.entries_seq());
                let top = self.entries_seq()[j];
                &&& r.1 == Some(top)
                &&& r.0.entries_seq() == self.entries_seq().remove(j)
                &&& forall|i: int|
                    0 <= i < self.entries_seq().len() ==> (#[trigger] self.entries_seq()[i]).0
                        <= top.0
            },
    {
        if self.entries.len() == 0 {
            return (self, None);
        }
        proof {
            lemma_max_prio_index(self.entries@);
        }
        let ghost es = self.entries@;
        let mut best: usize = 0;
        let mut i: usize = 1;
        while i < self.entries.len()
            invariant
                1 <= i <= es.len(),
                es == self.entries@,
                es.len() > 0,
                0 <= best < i,
                best == max_prio_index(es.take(i as int)),
            decreases es.len() - i,
        {
            proof {
                assert(es.take(i as int + 1).drop_last() =~= es.take(i as int));
                assert(es.take(i as int + 1).last() == es[i as int]);
                if i as int >= 1 {
                    assert(es.take(i as int + 1)[max_prio_index(es.take(i as int))] == es.take(
                        i as int,
                    )[max_prio_index(es.take(i as int))]) by {
                        lemma_max_prio_index(es.take(i as int));
                    }
                }
            }
            if self.entries[i].0 > self.entries[best].0 {
                best = i;
            }
            i = i + 1;
        }
        proof {
            assert(es.take(es.len() as int) =~= es);
        }
        let GHeap { mut entries } = self;
        let popped = entries.remove(best);
        (GHeap { entries }, Some(popped))
    }
}

impl<T: ExactEq> Garble for GHeap<T> {
    type Output = GHeap<T>;

    open spec fn garble_rel(self, out: GHeap<T>) -> bool {
        &&& out.entries_seq().len() == self.entries_seq().len()
        &&& forall|i: int|
            0 <= i < self.entries_seq().len() ==> self.entries_seq()[i].1.garble_rel(
                (#[trigger] out.entries_seq()[i]).1,
            )
    }

    open spec fn id_rel(self, out: GHeap<T>) -> bool {
        &&& out.entries_seq().len() == self.entries_seq().len()
        &&& forall|i: int|
            0 <= i < self.entries_seq().len() ==> (#[trigger] out.entries_seq()[i]).0
                == self.entries_seq()[i].0 && self.entries_seq()[i].1.id_rel(
                out.entries_seq()[i].1,
            )
    }

    open spec fn flat_rel(self, out: GHeap<T>) -> bool {
        &&& out.entries_seq().len() == self.entries_seq().len()
        &&& forall|i: int|
            0 <= i < self.entries_seq().len() ==> (#[trigger] out.entries_seq()[i]).0 == 0
                && self.entries_seq()[i].1.flat_rel(out.entries_seq()[i].1)
    }

    open spec fn trace(self) -> Seq<Leaf> {
        trace_of_pairs(self.entries_seq())
    }

    open spec fn trace_exact(self) -> bool {
        pairs_trace_exact(self.entries_seq())
    }

    open spec fn seed_known(self) -> bool {
        heap_seed_known(self.entries_seq())
    }

    open spec fn out_eq(a: GHeap<T>, b: GHeap<T>) -> bool {
        a.keyed_views() == b.keyed_views()
    }

    open spec fn seed_rel(self, s: u64, out: GHeap<T>, s2: u64) -> bool {
        &&& out.keyed_views() == heap_seeded_views(self.entries_seq(), s)
        &&& s2 == heap_seed_after(self.entries_seq(), s)
    }

    proof fn seed_functional(self, s: u64, o1: GHeap<T>, s1: u64, o2: GHeap<T>, s2: u64) {
    }

    open spec fn seed_after(self, s: u64) -> u64 {
        heap_seed_after(self.entries_seq(), s)
    }

    proof fn seed_after_ok(self, s: u64, out: GHeap<T>, s2: u64) {
    }

    fn garble<G: Garbler>(self, garbler: &mut G) -> (out: GHeap<T>) {
        let ghost orig = self.entries@;
        let ghost g0 = *garbler;
        let GHeap { entries } = self;
        let mut rest = entries;
        let mut out: GHeap<T> = GHeap::new();
        let ghost mut i: int = 0;
        proof {
            assert(orig.take(0) =~= Seq::<(u64, T)>::empty());
            assert(rest@ =~= orig.skip(0));
            assert(out.keyed_views() =~= Seq::<(u64, T::V)>::empty());
            lemma_prefix_refl(g0.log());
            lemma_concat_empty(g0.log());
        }
        while rest.len() > 0
            invariant
                g0 == *old(garbler),
                0 <= i,
                i + rest@.len() == orig.len(),
                rest@ == orig.skip(i),
                out.entries_seq().len() == i,
                forall|j: int|
                    0 <= j < i ==> orig[j].1.garble_rel((#[trigger] out.entries_seq()[j]).1),
                g0.keeps() ==> garbler.keeps() && (forall|j: int|
                    0 <= j < i ==> (#[trigger] out.entries_seq()[j]).0 == orig[j].0
                        && orig[j].1.id_rel(out.entries_seq()[j].1)),
                g0.flattens() ==> garbler.flattens() && (forall|j: int|
                    0 <= j < i ==> (#[trigger] out.entries_seq()[j]).0 == 0 && orig[
                        j].1.flat_rel(out.entries_seq()[j].1)),
                g0.logs() ==> garbler.logs() && g0.log().is_prefix_of(garbler.log()) && (
                pairs_trace_exact(orig.take(i)) ==> garbler.log() == g0.log() + trace_of_pairs(
                    orig.take(i),
                )),
                g0.follows_seed() ==> garbler.follows_seed() && (heap_seed_known(orig)
                    ==> garbler.seed_state() == heap_seed_after(orig.take(i), g0.seed_state())
                    && out.keyed_views() == heap_seeded_views(orig.take(i), g0.seed_state())),
            decreases rest@.len(),
        {
            let ghost k = i;
            let ghost pre = *garbler;
            let ghost pre_out = out;
            let (prio, item) = rest.remove(0);
            let prio2 = garbler.garble_u64(prio);
            let ghost mid = *garbler;
            let item2 = item.garble(garbler);
            out = out.push(prio2, item2);
            proof {
                i = i + 1;
                assert(rest@ =~= orig.skip(k + 1));
                assert(orig.take(k + 1).drop_last() =~= orig.take(k));
                assert(orig.take(k + 1).last() == orig[k]);
                assert(out.keyed_views() =~= pre_out.keyed_views().push((prio2, item2@)));
                if g0.keeps() || g0.flattens() {
                    assert(forall|j: int|
                        0 <= j < k ==> out.entries_seq()[j] == pre_out.entries_seq()[j]);
                }
                if g0.logs() {
                    lemma_prefix_trans(g0.log(), pre.log(), mid.log());
                    lemma_prefix_trans(g0.log(), mid.log(), garbler.log());
                    if pairs_trace_exact(orig.take(k + 1)) {
                        assert(pairs_trace_exact(orig.take(k)));
                        lemma_push_is_concat(pre.log(), Leaf::U64(orig[k].0));
                        assert(orig[k].0.trace() =~= seq![Leaf::U64(orig[k].0)]);
                        lemma_concat_assoc(pre.log(), orig[k].0.trace(), orig[k].1.trace());
                        lemma_concat_assoc(
                            g0.log(),
                            trace_of_pairs(orig.take(k)),
                            orig[k].0.trace() + orig[k].1.trace(),
                        );
                        assert(trace_of_pairs(orig.take(k + 1)) == trace_of_pairs(orig.take(k)) + (
                        orig[k].0.trace() + orig[k].1.trace()));
                    }
                }
                if g0.follows_seed() && heap_seed_known(orig) {
                    assert(orig[k].1.seed_known());
                    item.seed_after_ok(mid.seed_state(), item2, garbler.seed_state());
                    item.seed_view_ok(mid.seed_state(), item2, garbler.seed_state());
                    assert(heap_seed_after(orig.take(k + 1), g0.seed_state()) == orig[
                        k].1.seed_after(churn(heap_seed_after(orig.take(k), g0.seed_state()))));
                    assert(heap_seeded_views(orig.take(k + 1), g0.seed_state())
                        == heap_seeded_views(orig.take(k), g0.seed_state()).push(
                        (prio2, item2@),
                    ));
                    assert(out.keyed_views() == heap_seeded_views(
                        orig.take(k + 1),
                        g0.seed_state(),
                    ));
                }
            }
        }
        proof {
            assert(orig.take(orig.len() as int) =~= orig);
        }
        out
    }
}

} // verus!
