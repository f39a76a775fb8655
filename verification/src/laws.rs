use crate::aggregates::{Inline, MyEnum, MyStruct, Named};
use crate::collections::{GMap, GSet};
use crate::cstr::CStrBytes;
use crate::heap::GHeap;
use crate::exact::ExactEq;
use crate::garble::Garble;
use crate::garbler::{Garbler, LogGarbler, PassGarbler, SeedGarbler, SimpleGarbler, ZeroGarbler};
use crate::nogarble::NoGarble;
use crate::nonzero::NonZeroU32;
use vstd::prelude::*;

verus! {

// What garbling guarantees, stated once, each over the shape relation that
// every `Garble::garble` call establishes for its output.
/// Opt-out transparency: whatever the strategy, garbling an opt-out
/// envelope yields exactly the wrapped value.
pub proof fn opt_out_transparency<T>(v: NoGarble<T>, out: T)
    requires
        v.garble_rel(out),
    ensures
        out == v.0,
{
}

/// Shape preservation for optionals: a present value garbles to a present
/// value, an absent one to an absent one.
pub proof fn option_shape<T: Garble>(v: Option<T>, out: Option<T::Output>)
    requires
        v.garble_rel(out),
    ensures
        v is Some <==> out is Some,
{
}

/// Shape preservation for results: the inhabited side is preserved.
pub proof fn result_shape<T: Garble, E: Garble>(
    v: Result<T, E>,
    out: Result<T::Output, E::Output>,
)
    requires
        v.garble_rel(out),
    ensures
        v is Ok <==> out is Ok,
        v is Err <==> out is Err,
{
}

/// Length preservation for sequences: the output has exactly as many
/// elements as the input.
pub proof fn seq_length_preserved<T: Garble>(v: Vec<T>, out: Vec<T::Output>)
    requires
        v.garble_rel(out),
    ensures
        out@.len() == v@.len(),
{
}

/// Cardinality bound for sets: garbled members may collide and merge, so
/// the output has at most as many members as the input.
pub proof fn set_cardinality_bound<T: ExactEq>(v: GSet<T>, out: GSet<T>)
    requires
        v.garble_rel(out),
    ensures
        out.elems().len() <= v.elems().len(),
{
}

/// Cardinality bound for mappings: garbled keys may collide and merge, so
/// the output has at most as many entries as the input.
pub proof fn map_cardinality_bound<K: ExactEq, V: Garble>(v: GMap<K, V>, out: GMap<K, V::Output>)
    requires
        v.garble_rel(out),
    ensures
        out.entries().len() <= v.entries().len(),
{
}

/// Entry-count preservation for priority queues: nothing merges, so the
/// garbled queue has exactly as many entries as the input.
pub proof fn heap_length_preserved<T: ExactEq>(v: GHeap<T>, out: GHeap<T>)
    requires
        v.garble_rel(out),
    ensures
        out.entries_seq().len() == v.entries_seq().len(),
{
}

/// Non-zero invariant: garbling a non-zero wrapper never yields zero.
pub proof fn non_zero_preserved(v: NonZeroU32, out: NonZeroU32)
    requires
        v.garble_rel(out),
    ensures
        out.value() != 0,
{
}

/// Null-free invariant: a garbled byte string holds no interior null byte,
/// and keeps its length.
pub proof fn c_str_no_null(v: CStrBytes, out: CStrBytes)
    requires
        v.garble_rel(out),
    ensures
        forall|i: int| 0 <= i < out.bytes().len() ==> out.bytes()[i] != 0,
        out.bytes().len() == v.bytes().len(),
{
}

/// Field fidelity for opted-out named fields: the marked field of the
/// sample record passes through garbling unchanged, under every strategy.
pub proof fn nogarble_field_fidelity(v: Named, out: Named)
    requires
        v.garble_rel(out),
    ensures
        out.b == v.b,
{
}

/// Field fidelity for opted-out positional fields.
pub proof fn nogarble_positional_fidelity(v: Inline, out: Inline)
    requires
        v.garble_rel(out),
    ensures
        out.1 == v.1,
{
}

/// Sum-type dispatch: garbling reconstructs the inhabited variant.
pub proof fn enum_variant_preserved(v: MyEnum, out: MyEnum)
    requires
        v.garble_rel(out),
    ensures
        v is V1 <==> out is V1,
{
}

/// Rate zero is the identity: the reference strategy at rate zero keeps
/// every leaf, so by the garbling contract the output of any garble call
/// with it satisfies the identity relation of its type.
pub proof fn rate_zero_keeps(g: SimpleGarbler)
    requires
        g.rate() == 0,
    ensures
        g.keeps(),
{
}

/// The pass-through strategy keeps every leaf.
pub proof fn pass_garbler_keeps(g: PassGarbler)
    ensures
        g.keeps(),
{
}

/// The flattening strategy flattens: garbling any value with it yields, by
/// the garbling contract, the flat image that the value's type states.
pub proof fn zero_garbler_flattens(g: ZeroGarbler)
    ensures
        g.flattens(),
{
}

/// The record scenario under a flattening strategy: the garbled field is
/// zeroed and the opted-out named field passes through.
pub proof fn flattened_record(v: Named, out: Named)
    requires
        v.flat_rel(out),
    ensures
        out.a == 0,
        out.b == v.b,
{
}

/// The positional scenario under a flattening strategy: position 0 is
/// zeroed, the opted-out position 1 passes through.
pub proof fn flattened_positional(v: Inline, out: Inline)
    requires
        v.flat_rel(out),
    ensures
        out.0 == 0,
        out.1 == v.1,
{
}

/// The sum-type scenario under a flattening strategy: the nullary variant
/// is reproduced, the payload variant is reproduced with a zeroed payload.
pub proof fn flattened_enum(v: MyEnum, out: MyEnum)
    requires
        v.flat_rel(out),
    ensures
        v is V1 ==> out == MyEnum::V1,
        v is V2 ==> out == MyEnum::V2(0u32),
{
}

/// The two-field record under a flattening strategy: number zeroed, text
/// emptied.
pub proof fn flattened_struct(v: MyStruct, out: MyStruct)
    requires
        v.flat_rel(out),
    ensures
        out.a == 0,
        out.b@ == Seq::<char>::empty(),
{
}

/// Determinism under a seed: for every type whose seeded-garbling relation
/// is pinned, a deterministically seeded strategy admits exactly one output
/// and one end seed for a given input and starting seed, so garbling the
/// same input twice from the same seed yields the same output.
pub proof fn determinism_under_seed<T: Garble>(
    v: T,
    s: u64,
    o1: T::Output,
    s1: u64,
    o2: T::Output,
    s2: u64,
)
    requires
        v.seed_known(),
        v.seed_rel(s, o1, s1),
        v.seed_rel(s, o2, s2),
    ensures
        s1 == s2,
        T::out_eq(o1, o2),
{
    v.seed_functional(s, o1, s1, o2, s2);
}

/// The seeded strategy is deterministically seeded: its answers follow the
/// canonical seed functions, so the garbling contract pins its outputs.
pub proof fn seed_garbler_follows_seed(g: SeedGarbler)
    ensures
        g.follows_seed(),
{
}

/// A logging strategy records every leaf call, so by the garbling contract
/// one garble call with it appends exactly the value's trace — the leaf
/// calls in deterministic traversal order — to its log.
pub proof fn log_garbler_logs(g: LogGarbler)
    ensures
        g.logs(),
        g.keeps(),
{
}

} // verus!
