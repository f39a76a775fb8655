use crate::garbler::Garbler;
use crate::leaf::Leaf;
use vstd::prelude::*;

verus! {

/// Capability for values that can be garbled.
///
/// Garbling hands every leaf of a value to a strategy (a [`Garbler`]) and
/// rebuilds the value, of the same shape, from the strategy's answers.
/// Composite types recurse structurally into their children; what each type
/// guarantees of the rebuilt value is stated by the specification members:
///
/// - [`Garble::garble_rel`] relates input and output under *every* strategy
///   (presence for optionals, side for results, length for sequences,
///   opted-out fields passed through verbatim, and so on).
/// - [`Garble::id_rel`] relates input and output under a strategy that keeps
///   every leaf unchanged ([`Garbler::keeps`]); for types that garble to their
///   own type it says the output equals the input. [`Garble::flat_rel`] does
///   the same under a strategy that flattens every leaf
///   ([`Garbler::flattens`]), which is what pins the zeroing scenarios.
/// - [`Garble::trace`] lists the leaf calls one garbling makes, in the fixed
///   traversal order: children in positional order, a map entry's key before
///   its value. [`Garble::trace_exact`] says whether that order is pinned.
/// - [`Garble::seed_rel`] pins input, output and strategy state under a
///   deterministically seeded strategy ([`Garbler::follows_seed`]), and
///   [`Garble::seed_functional`] proves the relation a function: garbling
///   the same value twice from the same seed yields the same output.
pub trait Garble: Sized {
    /// Type produced by garbling; for most types this is `Self`.
    type Output;

    /// Shape relation between a value and its garbling, under every strategy.
    spec fn garble_rel(self, out: Self::Output) -> bool;

    /// Relation between a value and its garbling under a strategy that
    /// returns every leaf unchanged.
    spec fn id_rel(self, out: Self::Output) -> bool;

    /// Relation between a value and its garbling under a strategy that
    /// flattens every leaf ([`Garbler::flattens`]).
    spec fn flat_rel(self, out: Self::Output) -> bool;

    /// The leaf calls one garbling of this value makes, oldest first.
    spec fn trace(self) -> Seq<Leaf>;

    /// Whether `trace` pins the sequence of leaf calls exactly.
    spec fn trace_exact(self) -> bool;

    /// Whether [`Garble::seed_rel`] pins this type's garbling under a
    /// deterministically seeded strategy. Types whose rebuilding the
    /// relation does not follow (deduplicating containers, repaired byte
    /// strings) opt out.
    spec fn seed_known(self) -> bool;

    /// Equality of two outputs as mathematical values.
    spec fn out_eq(a: Self::Output, b: Self::Output) -> bool;

    /// Relates the input, the starting seed, the output and the end seed of
    /// one garbling under a deterministically seeded strategy
    /// ([`Garbler::follows_seed`]).
    spec fn seed_rel(self, s: u64, out: Self::Output, s2: u64) -> bool;

    /// The seed a deterministically seeded strategy holds after garbling
    /// this value, as a function of the seed it started from.
    spec fn seed_after(self, s: u64) -> u64;

    /// Where the relation is pinned, it ends at [`Garble::seed_after`].
    proof fn seed_after_ok(self, s: u64, out: Self::Output, s2: u64)
        requires
            self.seed_known(),
            self.seed_rel(s, out, s2),
        ensures
            s2 == self.seed_after(s),
    ;

    /// Determinism: where `seed_known` holds, the relation is a function of
    /// the input and the starting seed, so two garblings of the same value
    /// from the same seed agree on the output and on the end seed.
    proof fn seed_functional(
        self,
        s: u64,
        o1: Self::Output,
        s1: u64,
        o2: Self::Output,
        s2: u64,
    )
        requires
            self.seed_known(),
            self.seed_rel(s, o1, s1),
            self.seed_rel(s, o2, s2),
        ensures
            s1 == s2,
            Self::out_eq(o1, o2),
    ;

    /// Garble this value with the given strategy.
    fn garble<G: Garbler>(self, garbler: &mut G) -> (out: Self::Output)
        ensures
            self.garble_rel(out),
            old(garbler).keeps() ==> final(garbler).keeps() && self.id_rel(out),
            old(garbler).logs() ==> final(garbler).logs() && old(garbler).log().is_prefix_of(
                final(garbler).log(),
            ) && (self.trace_exact() ==> final(garbler).log() == old(garbler).log()
                + self.trace()),
            old(garbler).follows_seed() ==> final(garbler).follows_seed() && (self.seed_known()
                ==> self.seed_rel(
                old(garbler).seed_state(),
                out,
                final(garbler).seed_state(),
            )),
            old(garbler).flattens() ==> final(garbler).flattens() && self.flat_rel(out),
    ;
}

/// The leaf calls that garbling the elements of `s` in ascending index order
/// makes: the concatenation of the elements' traces.
pub open spec fn trace_of_seq<T: Garble>(s: Seq<T>) -> Seq<Leaf>
    decreases s.len(),
{
    if s.len() == 0 {
        Seq::empty()
    } else {
        trace_of_seq(s.drop_last()) + s.last().trace()
    }
}

/// Whether every element of `s` has an exactly pinned trace.
pub open spec fn seq_trace_exact<T: Garble>(s: Seq<T>) -> bool {
    forall|i: int| 0 <= i < s.len() ==> (#[trigger] s[i]).trace_exact()
}

/// The flattening relation, element by element: same length, each garbled
/// element the flat image of its original.
pub open spec fn seq_flat_rel<T: Garble>(s: Seq<T>, out: Seq<T::Output>) -> bool {
    out.len() == s.len() && (forall|i: int|
        0 <= i < s.len() ==> s[i].flat_rel(#[trigger] out[i]))
}

/// Whether every element of `s` has a pinned seeded-garbling relation.
pub open spec fn seq_seed_known<T: Garble>(s: Seq<T>) -> bool {
    forall|i: int| 0 <= i < s.len() ==> (#[trigger] s[i]).seed_known()
}

/// The seed a deterministically seeded strategy holds after garbling the
/// elements of `s` in ascending index order, starting from `st`.
pub open spec fn seq_seed_after<T: Garble>(s: Seq<T>, st: u64) -> u64
    decreases s.len(),
{
    if s.len() == 0 {
        st
    } else {
        s.last().seed_after(seq_seed_after(s.drop_last(), st))
    }
}

/// Relates the elements of `s`, a starting seed, the garbled elements and
/// the end seed: the seeded strategy runs through the elements in ascending
/// index order.
pub open spec fn seq_seed_rel<T: Garble>(
    s: Seq<T>,
    st: u64,
    out: Seq<T::Output>,
    st2: u64,
) -> bool
    decreases s.len(),
{
    if s.len() == 0 {
        out.len() == 0 && st2 == st
    } else {
        out.len() == s.len() && seq_seed_rel(
            s.drop_last(),
            st,
            out.drop_last(),
            seq_seed_after(s.drop_last(), st),
        ) && s.last().seed_rel(seq_seed_after(s.drop_last(), st), out.last(), st2)
    }
}

/// A pinned sequence relation ends at [`seq_seed_after`].
pub proof fn seq_seed_after_ok<T: Garble>(s: Seq<T>, st: u64, out: Seq<T::Output>, st2: u64)
    requires
        seq_seed_known(s),
        seq_seed_rel(s, st, out, st2),
    ensures
        st2 == seq_seed_after(s, st),
    decreases s.len(),
{
    if s.len() == 0 {
    } else {
        assert(s.last().seed_known());
        s.last().seed_after_ok(seq_seed_after(s.drop_last(), st), out.last(), st2);
    }
}

/// Functionality of [`seq_seed_rel`]: from one starting seed, the garbled
/// elements and the end seed are pinned.
pub proof fn seq_seed_functional<T: Garble>(
    s: Seq<T>,
    st: u64,
    o1: Seq<T::Output>,
    s1: u64,
    o2: Seq<T::Output>,
    s2: u64,
)
    requires
        seq_seed_known(s),
        seq_seed_rel(s, st, o1, s1),
        seq_seed_rel(s, st, o2, s2),
    ensures
        s1 == s2,
        o1.len() == o2.len(),
        forall|i: int| 0 <= i < o1.len() ==> T::out_eq(#[trigger] o1[i], o2[i]),
    decreases s.len(),
{
    if s.len() == 0 {
    } else {
        let sm = seq_seed_after(s.drop_last(), st);
        assert(seq_seed_known(s.drop_last())) by {
            assert(forall|i: int| 0 <= i < s.len() - 1 ==> s.drop_last()[i] == s[i]);
        }
        seq_seed_functional(s.drop_last(), st, o1.drop_last(), sm, o2.drop_last(), sm);
        assert(s.last().seed_known());
        s.last().seed_functional(sm, o1.last(), s1, o2.last(), s2);
        assert forall|i: int| 0 <= i < o1.len() implies T::out_eq(#[trigger] o1[i], o2[i]) by {
            if i < o1.len() - 1 {
                assert(o1.drop_last()[i] == o1[i]);
                assert(o2.drop_last()[i] == o2[i]);
                assert(T::out_eq(o1.drop_last()[i], o2.drop_last()[i]));
            } else {
                assert(o1[i] == o1.last());
                assert(o2[i] == o2.last());
            }
        }
    }
}

} // verus!
