use vstd::prelude::*;

verus! {

/// One call to a strategy's per-leaf method, as it appears in a call log:
/// the leaf kind together with the value that was handed to the strategy.
///
/// A `Leaf` is a specification-level record (a string leaf carries the
/// mathematical character sequence), so values of it exist only in ghost code.
pub enum Leaf {
    Bool(bool),
    Char(char),
    U8(u8),
    U16(u16),
    U32(u32),
    U64(u64),
    U128(u128),
    Usize(usize),
    I8(i8),
    I16(i16),
    I32(i32),
    I64(i64),
    I128(i128),
    Isize(isize),
    Str(Seq<char>),
}

/// Appending one element is the same as concatenating a singleton sequence.
pub proof fn lemma_push_is_concat<A>(s: Seq<A>, x: A)
    ensures
        s.push(x) == s + seq![x],
{
    assert(s.push(x) =~= s + seq![x]);
}

/// A sequence is a prefix of itself extended by one element.
pub proof fn lemma_prefix_push<A>(s: Seq<A>, x: A)
    ensures
        s.is_prefix_of(s.push(x)),
{
    assert(s =~= s.push(x).subrange(0, s.len() as int));
}

/// A sequence is a prefix of itself extended by any suffix.
pub proof fn lemma_prefix_concat<A>(s: Seq<A>, t: Seq<A>)
    ensures
        s.is_prefix_of(s + t),
{
    assert(s =~= (s + t).subrange(0, s.len() as int));
}

/// Concatenating the empty sequence changes nothing.
pub proof fn lemma_concat_empty<A>(s: Seq<A>)
    ensures
        s + Seq::<A>::empty() == s,
{
    assert(s + Seq::<A>::empty() =~= s);
}

/// Pushing an element commutes with mapping a function over a sequence.
pub proof fn lemma_map_values_push<A, B>(s: Seq<A>, f: spec_fn(A) -> B, x: A)
    ensures
        s.push(x).map_values(f) == s.map_values(f).push(f(x)),
{
    assert(s.push(x).map_values(f) =~= s.map_values(f).push(f(x)));
}

/// A sequence is a prefix of itself.
pub proof fn lemma_prefix_refl<A>(s: Seq<A>)
    ensures
        s.is_prefix_of(s),
{
    assert(s =~= s.subrange(0, s.len() as int));
}

/// Sequence concatenation is associative.
pub proof fn lemma_concat_assoc<A>(s: Seq<A>, t: Seq<A>, u: Seq<A>)
    ensures
        (s + t) + u == s + (t + u),
{
    assert((s + t) + u =~= s + (t + u));
}

/// Prefix order on sequences is transitive.
pub proof fn lemma_prefix_trans<A>(s: Seq<A>, t: Seq<A>, u: Seq<A>)
    requires
        s.is_prefix_of(t),
        t.is_prefix_of(u),
    ensures
        s.is_prefix_of(u),
{
    assert(s =~= u.subrange(0, s.len() as int));
}

} // verus!
