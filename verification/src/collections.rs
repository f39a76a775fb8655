use crate::exact::ExactEq;
use crate::garble::{seq_seed_after, seq_seed_known, seq_trace_exact, trace_of_seq, Garble};
use crate::garbler::Garbler;
use crate::leaf::{
    lemma_concat_assoc, lemma_concat_empty, lemma_map_values_push, lemma_prefix_refl,
    lemma_prefix_trans, Leaf,
};
use vstd::prelude::*;

verus! {

/// The leaf calls that garbling the entries of `s` in order makes: for each
/// entry the key's trace, then the value's.
pub open spec fn trace_of_pairs<K: Garble, V: Garble>(s: Seq<(K, V)>) -> Seq<Leaf>
    decreases s.len(),
{
    if s.len() == 0 {
        Seq::empty()
    } else {
        trace_of_pairs(s.drop_last()) + (s.last().0.trace() + s.last().1.trace())
    }
}

/// Whether every entry of `s` has exactly pinned key and value traces.
pub open spec fn pairs_trace_exact<K: Garble, V: Garble>(s: Seq<(K, V)>) -> bool {
    forall|i: int|
        0 <= i < s.len() ==> (#[trigger] s[i]).0.trace_exact() && s[i].1.trace_exact()
}

/// The views of the seeded garblings of the members of `s`, in order, with
/// the seed threading through the members.
pub open spec fn seeded_views<T: ExactEq>(s: Seq<T>, st: u64) -> Seq<T::V>
    decreases s.len(),
{
    if s.len() == 0 {
        Seq::empty()
    } else {
        seeded_views(s.drop_last(), st).push(
            s.last().seed_view(seq_seed_after(s.drop_last(), st)),
        )
    }
}

/// `s` with duplicates removed, keeping first occurrences in order: the
/// member sequence a set accumulates when the values of `s` are inserted
/// one by one.
pub open spec fn dedup_first<V>(s: Seq<V>) -> Seq<V>
    decreases s.len(),
{
    if s.len() == 0 {
        Seq::empty()
    } else {
        let p = dedup_first(s.drop_last());
        if p.contains(s.last()) {
            p
        } else {
            p.push(s.last())
        }
    }
}

/// A set of values pairwise distinct by their mathematical value.
///
/// Garbling hands each member to the strategy in insertion order and
/// collects the answers into a fresh set; members the strategy maps to the
/// same value silently merge, so the result has at most as many members as
/// the input.
#[derive(Debug)]
pub struct GSet<T: ExactEq> {
    items: Vec<T>,
}

impl<T: ExactEq> GSet<T> {
    #[verifier::type_invariant]
    spec fn wf(self) -> bool {
        forall|i: int, j: int|
            0 <= i < j < self.items@.len() ==> self.items@[i]@ != self.items@[j]@
    }

    /// The members, in insertion order.
    pub closed spec fn items_seq(self) -> Seq<T> {
        self.items@
    }

    /// The members' mathematical values, in insertion order; pairwise
    /// distinct.
    pub open spec fn elems(self) -> Seq<T::V> {
        self.items_seq().map_values(|x: T| x@)
    }

    /// Create an empty set.
    pub fn new() -> (r: GSet<T>)
        ensures
            r.elems() == Seq::<T::V>::empty(),
    {
        let r = GSet { items: Vec::new() };
        proof {
            assert(r.elems() =~= Seq::<T::V>::empty());
        }
        r
    }

    /// How many members the set holds.
    pub fn len(&self) -> (n: usize)
        ensures
            n == self.elems().len(),
    {
        self.items.len()
    }

    /// Read access to the members, in insertion order.
    pub fn as_items(&self) -> (r: &Vec<T>)
        ensures
            r@ == self.items_seq(),
    {
        &self.items
    }

    /// Whether some member has the same mathematical value as `x`.
    pub fn contains(&self, x: &T) -> (r: bool)
        ensures
            r == self.elems().contains(x@),
    {
        let mut i: usize = 0;
        while i < self.items.len()
            invariant
                i <= self.items@.len(),
                forall|j: int| 0 <= j < i ==> self.items@[j]@ != x@,
            decreases self.items@.len() - i,
        {
            if self.items[i].same(x) {
                proof {
                    assert(self.elems()[i as int] == x@);
                }
                return true;
            }
            i = i + 1;
        }
        proof {
            assert forall|j: int| 0 <= j < self.elems().len() implies self.elems()[j] != x@ by {
                assert(self.items@[j]@ != x@);
            }
        }
        false
    }

    /// Add `x`; when a member with the same value is already there, nothing
    /// changes.
    pub fn insert(self, x: T) -> (r: GSet<T>)
        ensures
            r.elems().len() <= self.elems().len() + 1,
            self.elems().contains(x@) ==> r.elems() == self.elems(),
            !self.elems().contains(x@) ==> r.elems() == self.elems().push(x@),
    {
        let present = self.contains(&x);
        proof {
            use_type_invariant(&self);
        }
        if !present {
            proof {
                lemma_map_values_push(self.items@, |t: T| t@, x);
            }
            let ghost olditems = self.items@;
            let GSet { mut items } = self;
            items.push(x);
            proof {
                assert forall|a: int, b: int|
                    0 <= a < b < items@.len() implies items@[a]@ != items@[b]@ by {
                    if b + 1 < items@.len() {
                        assert(olditems[a]@ != olditems[b]@);
                    } else {
                        assert(items@[b] == x);
                        assert(self.elems()[a] == olditems[a]@);
                    }
                }
            }
            GSet { items }
        } else {
            self
        }
    }
}

impl<T: ExactEq> Garble for GSet<T> {
    type Output = GSet<T>;

    open spec fn garble_rel(self, out: GSet<T>) -> bool {
        out.elems().len() <= self.elems().len()
    }

    open spec fn id_rel(self, out: GSet<T>) -> bool {
        out.elems() == self.elems()
    }

    // A flattening strategy garbles every member to the member type's flat
    // value, but what that value's view is cannot be stated for a generic
    // member type, so nothing is claimed here.
    open spec fn flat_rel(self, out: GSet<T>) -> bool {
        true
    }

    open spec fn trace(self) -> Seq<Leaf> {
        trace_of_seq(self.items_seq())
    }

    open spec fn trace_exact(self) -> bool {
        seq_trace_exact(self.items_seq())
    }

    open spec fn seed_known(self) -> bool {
        seq_seed_known(self.items_seq())
    }

    open spec fn out_eq(a: GSet<T>, b: GSet<T>) -> bool {
        a.elems() == b.elems()
    }

    open spec fn seed_rel(self, s: u64, out: GSet<T>, s2: u64) -> bool {
        &&& out.elems() == dedup_first(seeded_views(self.items_seq(), s))
        &&& s2 == seq_seed_after(self.items_seq(), s)
    }

    proof fn seed_functional(self, s: u64, o1: GSet<T>, s1: u64, o2: GSet<T>, s2: u64) {
    }

    open spec fn seed_after(self, s: u64) -> u64 {
        seq_seed_after(self.items_seq(), s)
    }

    proof fn seed_after_ok(self, s: u64, out: GSet<T>, s2: u64) {
    }

    fn garble<G: Garbler>(self, garbler: &mut G) -> (out: GSet<T>) {
        proof {
            use_type_invariant(&self);
        }
        let ghost orig = self.items@;
        let ghost g0 = *garbler;
        let GSet { items } = self;
        let mut rest = items;
        let mut out: GSet<T> = GSet::new();
        let ghost mut i: int = 0;
        proof {
            assert(orig.take(0) =~= Seq::<T>::empty());
            assert(rest@ =~= orig.skip(0));
            assert(orig.take(0).map_values(|x: T| x@) =~= Seq::<T::V>::empty());
            lemma_prefix_refl(g0.log());
            lemma_concat_empty(g0.log());
        }
        while rest.len() > 0
            invariant
                g0 == *old(garbler),
                0 <= i,
                i + rest@.len() == orig.len(),
                rest@ == orig.skip(i),
                forall|a: int, b: int| 0 <= a < b < orig.len() ==> orig[a]@ != orig[b]@,
                out.elems().len() <= i,
                g0.keeps() ==> garbler.keeps() && out.elems() == orig.take(i).map_values(
                    |x: T| x@,
                ),
                g0.logs() ==> garbler.logs() && g0.log().is_prefix_of(garbler.log()) && (
                seq_trace_exact(orig.take(i)) ==> garbler.log() == g0.log() + trace_of_seq(
                    orig.take(i),
                )),
                g0.follows_seed() ==> garbler.follows_seed() && (seq_seed_known(orig)
                    ==> garbler.seed_state() == seq_seed_after(orig.take(i), g0.seed_state())
                    && out.elems() == dedup_first(seeded_views(orig.take(i), g0.seed_state()))),
                g0.flattens() ==> garbler.flattens(),
            decreases rest@.len(),
        {
            let ghost k = i;
            let ghost pre = *garbler;
            let ghost pre_out = out;
            let x = rest.remove(0);
            let y = x.garble(garbler);
            out = out.insert(y);
            proof {
                i = i + 1;
                assert(rest@ =~= orig.skip(k + 1));
                if g0.follows_seed() && seq_seed_known(orig) {
                    assert(orig[k].seed_known());
                    assert(orig.take(k + 1).drop_last() =~= orig.take(k));
                    assert(orig.take(k + 1).last() == orig[k]);
                    x.seed_after_ok(pre.seed_state(), y, garbler.seed_state());
                    x.seed_view_ok(pre.seed_state(), y, garbler.seed_state());
                    assert(seq_seed_after(orig.take(k + 1), g0.seed_state()) == orig[
                        k].seed_after(seq_seed_after(orig.take(k), g0.seed_state())));
                    assert(seeded_views(orig.take(k + 1), g0.seed_state()) == seeded_views(
                        orig.take(k),
                        g0.seed_state(),
                    ).push(y@));
                    assert(seeded_views(orig.take(k + 1), g0.seed_state()).drop_last()
                        =~= seeded_views(orig.take(k), g0.seed_state()));
                    assert(seeded_views(orig.take(k + 1), g0.seed_state()).last() == y@);
                    assert(out.elems() == dedup_first(
                        seeded_views(orig.take(k + 1), g0.seed_state()),
                    ));
                }
                if g0.keeps() {
                    x.id_rel_view(y);
                    assert(!pre_out.elems().contains(y@)) by {
                        if pre_out.elems().contains(y@) {
                            let j = choose|j: int|
                                0 <= j < pre_out.elems().len() && pre_out.elems()[j] == y@;
                            assert(orig[j]@ == orig[k]@);
                            assert(false);
                        }
                    }
                    assert(out.elems() =~= orig.take(k + 1).map_values(|x: T| x@));
                }
                if g0.logs() {
                    lemma_prefix_trans(g0.log(), pre.log(), garbler.log());
                    if seq_trace_exact(orig.take(k + 1)) {
                        assert(orig.take(k + 1).drop_last() =~= orig.take(k));
                        assert(seq_trace_exact(orig.take(k)));
                        assert(orig.take(k + 1).last() == orig[k]);
                        lemma_concat_assoc(g0.log(), trace_of_seq(orig.take(k)), orig[k].trace());
                        assert(trace_of_seq(orig.take(k + 1)) == trace_of_seq(orig.take(k))
                            + orig[k].trace());
                    }
                }
            }
        }
        proof {
            assert(orig.take(orig.len() as int) =~= orig);
        }
        out
    }
}

/// A key-to-value mapping whose keys are pairwise distinct by their
/// mathematical value.
///
/// Garbling hands each entry's key and then its value to the strategy, in
/// entry order, and collects the answers into a fresh mapping; entries whose
/// garbled keys collide silently merge, so the result has at most as many
/// entries as the input.
#[derive(Debug)]
pub struct GMap<K: ExactEq, V> {
    pairs: Vec<(K, V)>,
}

impl<K: ExactEq, V> GMap<K, V> {
    #[verifier::type_invariant]
    spec fn wf(self) -> bool {
        forall|i: int, j: int|
            0 <= i < j < self.pairs@.len() ==> self.pairs@[i].0@ != self.pairs@[j].0@
    }

    /// The entries, in insertion order.
    pub closed spec fn pairs_seq(self) -> Seq<(K, V)> {
        self.pairs@
    }

    /// The entries as key value and payload, in insertion order; the key
    /// values are pairwise distinct.
    pub open spec fn entries(self) -> Seq<(K::V, V)> {
        self.pairs_seq().map_values(|p: (K, V)| (p.0@, p.1))
    }

    /// Whether the mapping has an entry under the given key value.
    pub open spec fn has_key(self, kv: K::V) -> bool {
        exists|i: int| 0 <= i < self.entries().len() && (#[trigger] self.entries()[i]).0 == kv
    }

    /// Create an empty mapping.
    pub fn new() -> (r: GMap<K, V>)
        ensures
            r.entries() == Seq::<(K::V, V)>::empty(),
    {
        let r = GMap { pairs: Vec::new() };
        proof {
            assert(r.entries() =~= Seq::<(K::V, V)>::empty());
        }
        r
    }

    /// How many entries the mapping holds.
    pub fn len(&self) -> (n: usize)
        ensures
            n == self.entries().len(),
    {
        self.pairs.len()
    }

    /// Read access to the entries, in insertion order.
    pub fn as_pairs(&self) -> (r: &Vec<(K, V)>)
        ensures
            r@ == self.pairs_seq(),
    {
        &self.pairs
    }

    /// The position of the entry whose key has the same value as `k`.
    fn find(&self, k: &K) -> (r: Option<usize>)
        ensures
            r is Some ==> 0 <= r->0 < self.entries().len() && self.entries()[r->0 as int].0
                == k@,
            r is None ==> !self.has_key(k@),
    {
        let mut i: usize = 0;
        while i < self.pairs.len()
            invariant
                i <= self.pairs@.len(),
                forall|j: int| 0 <= j < i ==> self.pairs@[j].0@ != k@,
            decreases self.pairs@.len() - i,
        {
            if self.pairs[i].0.same(k) {
                proof {
                    assert(self.entries()[i as int].0 == k@);
                }
                return Some(i);
            }
            i = i + 1;
        }
        proof {
            assert forall|j: int| 0 <= j < self.entries().len() implies self.entries()[j].0
                != k@ by {
                assert(self.pairs@[j].0@ != k@);
            }
        }
        None
    }

    /// Whether the mapping has an entry whose key has the same value as `k`.
    pub fn contains_key(&self, k: &K) -> (r: bool)
        ensures
            r == self.has_key(k@),
    {
        let r = self.find(k);
        match r {
            Some(i) => true,
            None => false,
        }
    }

    /// Add an entry. An existing entry under the same key value is replaced
    /// by the new key and value.
    pub fn insert(self, k: K, v: V) -> (r: GMap<K, V>)
        ensures
            r.entries().len() <= self.entries().len() + 1,
            self.has_key(k@) ==> r.entries().len() == self.entries().len(),
            !self.has_key(k@) ==> r.entries() == self.entries().push((k@, v)),
    {
        let found = self.find(&k);
        proof {
            use_type_invariant(&self);
        }
        match found {
            Some(i) => {
                let ghost oldpairs = self.pairs@;
                let GMap { mut pairs } = self;
                let _old_pair = pairs.remove(i);
                proof {
                    oldpairs.remove_ensures(i as int);
                    assert(forall|a: int, b: int|
                        0 <= a < b < pairs@.len() ==> pairs@[a].0@ != pairs@[b].0@);
                    assert(oldpairs[i as int].0@ == k@);
                    assert(forall|a: int| 0 <= a < pairs@.len() ==> pairs@[a].0@ != k@);
                }
                pairs.push((k, v));
                proof {
                    assert forall|a: int, b: int|
                        0 <= a < b < pairs@.len() implies pairs@[a].0@ != pairs@[b].0@ by {
                        if b + 1 < pairs@.len() {
                        } else {
                            assert(pairs@[b] == (k, v));
                        }
                    }
                }
                GMap { pairs }
            },
            None => {
                proof {
                    lemma_map_values_push(self.pairs@, |p: (K, V)| (p.0@, p.1), (k, v));
                }
                let ghost oldpairs = self.pairs@;
                let GMap { mut pairs } = self;
                pairs.push((k, v));
                proof {
                    assert forall|a: int, b: int|
                        0 <= a < b < pairs@.len() implies pairs@[a].0@ != pairs@[b].0@ by {
                        if b + 1 < pairs@.len() {
                            assert(oldpairs[a].0@ != oldpairs[b].0@);
                        } else {
                            assert(pairs@[b] == (k, v));
                            assert(self.entries()[a].0 == oldpairs[a].0@);
                        }
                    }
                }
                GMap { pairs }
            },
        }
    }
}

impl<K: ExactEq, V: Garble> Garble for GMap<K, V> {
    type Output = GMap<K, V::Output>;

    open spec fn garble_rel(self, out: GMap<K, V::Output>) -> bool {
        out.entries().len() <= self.entries().len()
    }

    // As for the set: the flat images' views are not exposed generically.
    open spec fn flat_rel(self, out: GMap<K, V::Output>) -> bool {
        true
    }

    open spec fn id_rel(self, out: GMap<K, V::Output>) -> bool {
        &&& out.entries().len() == self.entries().len()
        &&& forall|i: int|
            0 <= i < self.entries().len() ==> (#[trigger] out.entries()[i]).0
                == self.entries()[i].0 && self.entries()[i].1.id_rel(out.entries()[i].1)
    }

    open spec fn trace(self) -> Seq<Leaf> {
        trace_of_pairs(self.pairs_seq())
    }

    open spec fn trace_exact(self) -> bool {
        pairs_trace_exact(self.pairs_seq())
    }

    // The mapping opts out of the seeded relation: its entries hold garbled
    // values of the generic payload type, which that type's seeded relation
    // pins only up to its output equality, never to a value a specification
    // function could name; and under key collisions the replace-on-collision
    // fold runs through intermediate entry sequences that the final mapping
    // does not determine. Seeded garbling of a mapping is exercised by test.
    open spec fn seed_known(self) -> bool {
        false
    }

    open spec fn out_eq(a: GMap<K, V::Output>, b: GMap<K, V::Output>) -> bool {
        a.entries() == b.entries()
    }

    open spec fn seed_rel(self, s: u64, out: GMap<K, V::Output>, s2: u64) -> bool {
        true
    }

    proof fn seed_functional(
        self,
        s: u64,
        o1: GMap<K, V::Output>,
        s1: u64,
        o2: GMap<K, V::Output>,
        s2: u64,
    ) {
    }

    open spec fn seed_after(self, s: u64) -> u64 {
        s
    }

    proof fn seed_after_ok(self, s: u64, out: GMap<K, V::Output>, s2: u64) {
    }

    fn garble<G: Garbler>(self, garbler: &mut G) -> (out: GMap<K, V::Output>) {
        proof {
            use_type_invariant(&self);
        }
        let ghost orig = self.pairs@;
        let ghost g0 = *garbler;
        let GMap { pairs } = self;
        let mut rest = pairs;
        let mut out: GMap<K, V::Output> = GMap::new();
        let ghost mut i: int = 0;
        proof {
            assert(orig.take(0) =~= Seq::<(K, V)>::empty());
            assert(rest@ =~= orig.skip(0));
            assert(orig.take(0).map_values(|p: (K, V)| (p.0@, p.1)) =~= Seq::<
                (K::V, V),
            >::empty());
            lemma_prefix_refl(g0.log());
            lemma_concat_empty(g0.log());
        }
        while rest.len() > 0
            invariant
                g0 == *old(garbler),
                0 <= i,
                i + rest@.len() == orig.len(),
                rest@ == orig.skip(i),
                forall|a: int, b: int| 0 <= a < b < orig.len() ==> orig[a].0@ != orig[b].0@,
                out.entries().len() <= i,
                g0.keeps() ==> garbler.keeps() && out.entries().len() == i && (forall|j: int|
                    0 <= j < i ==> (#[trigger] out.entries()[j]).0 == orig[j].0@
                        && orig[j].1.id_rel(out.entries()[j].1)),
                g0.logs() ==> garbler.logs() && g0.log().is_prefix_of(garbler.log()) && (
                pairs_trace_exact(orig.take(i)) ==> garbler.log() == g0.log()
                    + trace_of_pairs(orig.take(i))),
                g0.follows_seed() ==> garbler.follows_seed(),
                g0.flattens() ==> garbler.flattens(),
            decreases rest@.len(),
        {
            let ghost k = i;
            let ghost pre = *garbler;
            let ghost pre_out = out;
            let (key, value) = rest.remove(0);
            let key2 = key.garble(garbler);
            let ghost mid = *garbler;
            let value2 = value.garble(garbler);
            out = out.insert(key2, value2);
            proof {
                i = i + 1;
                assert(rest@ =~= orig.skip(k + 1));
                if g0.keeps() {
                    key.id_rel_view(key2);
                    assert(!pre_out.has_key(key2@)) by {
                        if pre_out.has_key(key2@) {
                            let j = choose|j: int|
                                0 <= j < pre_out.entries().len() && (#[trigger] pre_out.entries()[j]).0 == key2@;
                            assert(orig[j].0@ == orig[k].0@);
                            assert(false);
                        }
                    }
                    assert(out.entries() == pre_out.entries().push((key2@, value2)));
                }
                if g0.logs() {
                    lemma_prefix_trans(g0.log(), pre.log(), mid.log());
                    lemma_prefix_trans(g0.log(), mid.log(), garbler.log());
                    if pairs_trace_exact(orig.take(k + 1)) {
                        assert(orig.take(k + 1).drop_last() =~= orig.take(k));
                        assert(pairs_trace_exact(orig.take(k)));
                        assert(orig.take(k + 1).last() == orig[k]);
                        lemma_concat_assoc(pre.log(), orig[k].0.trace(), orig[k].1.trace());
                        lemma_concat_assoc(
                            g0.log(),
                            trace_of_pairs(orig.take(k)),
                            orig[k].0.trace() + orig[k].1.trace(),
                        );
                        assert(trace_of_pairs(orig.take(k + 1)) == trace_of_pairs(orig.take(k)) + (
                        orig[k].0.trace() + orig[k].1.trace()));
                    }
                }
            }
        }
        proof {
            assert(orig.take(orig.len() as int) =~= orig);
        }
        out
    }
}

} // verus!
