use crate::garble::Garble;
use crate::garbler::{churn, seed_out, Garbler};
use crate::leaf::{
    lemma_concat_assoc, lemma_concat_empty, lemma_prefix_concat, lemma_prefix_push,
    lemma_prefix_trans, lemma_push_is_concat, Leaf,
};
use vstd::prelude::*;

verus! {

// Sample user aggregates, with capability implementations written out by
// hand. Each implementation shows the expansion that a compile-time
// derivation for a user aggregate must produce: match the value structurally,
// rebind every field marked as opted out verbatim, pass every other field
// through the strategy, and reconstruct the same constructor or variant with
// the field names, positions and discriminant untouched. A type parameter of
// the aggregate must garble to itself (`Garble<Output = T>`), because the
// reconstructed field types have to match the declared ones exactly.
/// Record with two garbled fields: a number and a text.
#[derive(Debug, Clone, PartialEq)]
pub struct MyStruct {
    pub a: u32,
    pub b: String,
}

impl Garble for MyStruct {
    type Output = MyStruct;

    open spec fn garble_rel(self, out: MyStruct) -> bool {
        true
    }

    open spec fn id_rel(self, out: MyStruct) -> bool {
        out.a == self.a && out.b@ == self.b@
    }

    open spec fn flat_rel(self, out: MyStruct) -> bool {
        out.a == 0 && out.b@ == Seq::<char>::empty()
    }

    open spec fn trace(self) -> Seq<Leaf> {
        seq![Leaf::U32(self.a)] + seq![Leaf::Str(self.b@)]
    }

    open spec fn trace_exact(self) -> bool {
        true
    }

    open spec fn seed_known(self) -> bool {
        true
    }

    open spec fn out_eq(a: MyStruct, b: MyStruct) -> bool {
        a.a == b.a && a.b@ == b.b@
    }

    open spec fn seed_rel(self, s: u64, out: MyStruct, s2: u64) -> bool {
        &&& s2 == churn(churn(s))
        &&& Leaf::U32(out.a) == seed_out(s, Leaf::U32(self.a))
        &&& Leaf::Str(out.b@) == seed_out(churn(s), Leaf::Str(self.b@))
    }

    proof fn seed_functional(self, s: u64, o1: MyStruct, s1: u64, o2: MyStruct, s2: u64) {
    }

    open spec fn seed_after(self, s: u64) -> u64 {
        churn(churn(s))
    }

    proof fn seed_after_ok(self, s: u64, out: MyStruct, s2: u64) {
    }

    fn garble<G: Garbler>(self, garbler: &mut G) -> (out: MyStruct) {
        let ghost s = self;
        let MyStruct { a, b } = self;
        let a2 = a.garble(garbler);
        let ghost mid = *garbler;
        let b2 = b.garble(garbler);
        proof {
            if old(garbler).logs() {
                lemma_prefix_trans(old(garbler).log(), mid.log(), garbler.log());
                lemma_concat_assoc(old(garbler).log(), s.a.trace(), s.b.trace());
            }
        }
        MyStruct { a: a2, b: b2 }
    }
}

/// Sum type with a nullary variant and a positional one.
#[derive(Debug, Clone, PartialEq, Eq, Structural)]
pub enum MyEnum {
    V1,
    V2(u32),
}

impl Garble for MyEnum {
    type Output = MyEnum;

    open spec fn garble_rel(self, out: MyEnum) -> bool {
        match self {
            MyEnum::V1 => out is V1,
            MyEnum::V2(_) => out is V2,
        }
    }

    open spec fn id_rel(self, out: MyEnum) -> bool {
        out == self
    }

    open spec fn flat_rel(self, out: MyEnum) -> bool {
        match self {
            MyEnum::V1 => out == MyEnum::V1,
            MyEnum::V2(_) => out == MyEnum::V2(0u32),
        }
    }

    open spec fn trace(self) -> Seq<Leaf> {
        match self {
            MyEnum::V1 => Seq::empty(),
            MyEnum::V2(v) => seq![Leaf::U32(v)],
        }
    }

    open spec fn trace_exact(self) -> bool {
        true
    }

    open spec fn seed_known(self) -> bool {
        true
    }

    open spec fn out_eq(a: MyEnum, b: MyEnum) -> bool {
        a == b
    }

    open spec fn seed_rel(self, s: u64, out: MyEnum, s2: u64) -> bool {
        match self {
            MyEnum::V1 => s2 == s && out == MyEnum::V1,
            MyEnum::V2(v) => s2 == churn(s) && (match seed_out(s, Leaf::U32(v)) {
                Leaf::U32(n) => out == MyEnum::V2(n),
                _ => false,
            }),
        }
    }

    proof fn seed_functional(self, s: u64, o1: MyEnum, s1: u64, o2: MyEnum, s2: u64) {
    }

    open spec fn seed_after(self, s: u64) -> u64 {
        match self {
            MyEnum::V1 => s,
            MyEnum::V2(_) => churn(s),
        }
    }

    proof fn seed_after_ok(self, s: u64, out: MyEnum, s2: u64) {
    }

    fn garble<G: Garbler>(self, garbler: &mut G) -> (out: MyEnum) {
        match self {
            MyEnum::V1 => {
                proof {
                    lemma_prefix_concat(garbler.log(), Seq::<Leaf>::empty());
                    lemma_concat_empty(garbler.log());
                }
                MyEnum::V1
            },
            MyEnum::V2(v) => {
                proof {
                    lemma_prefix_push(garbler.log(), Leaf::U32(v));
                    lemma_push_is_concat(garbler.log(), Leaf::U32(v));
                }
                MyEnum::V2(v.garble(garbler))
            },
        }
    }
}

/// Record whose second, named field is marked as opted out: whatever the
/// strategy, that field passes through garbling unchanged.
#[derive(Debug, Clone, Copy, PartialEq, Eq, Structural)]
pub struct Named {
    pub a: u32,
    pub b: u32,
}

impl Garble for Named {
    type Output = Named;

    open spec fn garble_rel(self, out: Named) -> bool {
        out.b == self.b
    }

    open spec fn id_rel(self, out: Named) -> bool {
        out == self
    }

    open spec fn flat_rel(self, out: Named) -> bool {
        out == (Named { a: 0, b: self.b })
    }

    open spec fn trace(self) -> Seq<Leaf> {
        seq![Leaf::U32(self.a)]
    }

    open spec fn trace_exact(self) -> bool {
        true
    }

    open spec fn seed_known(self) -> bool {
        true
    }

    open spec fn out_eq(a: Named, b: Named) -> bool {
        a == b
    }

    open spec fn seed_rel(self, s: u64, out: Named, s2: u64) -> bool {
        s2 == churn(s) && (match seed_out(s, Leaf::U32(self.a)) {
            Leaf::U32(n) => out == (Named { a: n, b: self.b }),
            _ => false,
        })
    }

    proof fn seed_functional(self, s: u64, o1: Named, s1: u64, o2: Named, s2: u64) {
    }

    open spec fn seed_after(self, s: u64) -> u64 {
        churn(s)
    }

    proof fn seed_after_ok(self, s: u64, out: Named, s2: u64) {
    }

    fn garble<G: Garbler>(self, garbler: &mut G) -> (out: Named) {
        proof {
            lemma_prefix_push(garbler.log(), Leaf::U32(self.a));
            lemma_push_is_concat(garbler.log(), Leaf::U32(self.a));
        }
        let Named { a, b } = self;
        Named { a: a.garble(garbler), b }
    }
}

/// Record whose second, positional field is marked as opted out.
#[derive(Debug, Clone, Copy, PartialEq, Eq, Structural)]
pub struct Inline(pub u32, pub u32);

impl Garble for Inline {
    type Output = Inline;

    open spec fn garble_rel(self, out: Inline) -> bool {
        out.1 == self.1
    }

    open spec fn id_rel(self, out: Inline) -> bool {
        out == self
    }

    open spec fn flat_rel(self, out: Inline) -> bool {
        out == Inline(0, self.1)
    }

    open spec fn trace(self) -> Seq<Leaf> {
        seq![Leaf::U32(self.0)]
    }

    open spec fn trace_exact(self) -> bool {
        true
    }

    open spec fn seed_known(self) -> bool {
        true
    }

    open spec fn out_eq(a: Inline, b: Inline) -> bool {
        a == b
    }

    open spec fn seed_rel(self, s: u64, out: Inline, s2: u64) -> bool {
        s2 == churn(s) && (match seed_out(s, Leaf::U32(self.0)) {
            Leaf::U32(n) => out == Inline(n, self.1),
            _ => false,
        })
    }

    proof fn seed_functional(self, s: u64, o1: Inline, s1: u64, o2: Inline, s2: u64) {
    }

    open spec fn seed_after(self, s: u64) -> u64 {
        churn(s)
    }

    proof fn seed_after_ok(self, s: u64, out: Inline, s2: u64) {
    }

    fn garble<G: Garbler>(self, garbler: &mut G) -> (out: Inline) {
        proof {
            lemma_prefix_push(garbler.log(), Leaf::U32(self.0));
            lemma_push_is_concat(garbler.log(), Leaf::U32(self.0));
        }
        let Inline(a, b) = self;
        Inline(a.garble(garbler), b)
    }
}

/// Generic record: the parameter must garble to itself, as every derived
/// aggregate implementation demands of its type parameters.
#[derive(Debug, Clone, PartialEq)]
pub struct Holder<T> {
    pub value: T,
}

impl<T: Garble<Output = T>> Garble for Holder<T> {
    type Output = Holder<T>;

    open spec fn garble_rel(self, out: Holder<T>) -> bool {
        self.value.garble_rel(out.value)
    }

    open spec fn id_rel(self, out: Holder<T>) -> bool {
        self.value.id_rel(out.value)
    }

    open spec fn flat_rel(self, out: Holder<T>) -> bool {
        self.value.flat_rel(out.value)
    }

    open spec fn trace(self) -> Seq<Leaf> {
        self.value.trace()
    }

    open spec fn trace_exact(self) -> bool {
        self.value.trace_exact()
    }

    open spec fn seed_known(self) -> bool {
        self.value.seed_known()
    }

    open spec fn out_eq(a: Holder<T>, b: Holder<T>) -> bool {
        T::out_eq(a.value, b.value)
    }

    open spec fn seed_rel(self, s: u64, out: Holder<T>, s2: u64) -> bool {
        self.value.seed_rel(s, out.value, s2)
    }

    proof fn seed_functional(self, s: u64, o1: Holder<T>, s1: u64, o2: Holder<T>, s2: u64) {
        self.value.seed_functional(s, o1.value, s1, o2.value, s2);
    }

    open spec fn seed_after(self, s: u64) -> u64 {
        self.value.seed_after(s)
    }

    proof fn seed_after_ok(self, s: u64, out: Holder<T>, s2: u64) {
        self.value.seed_after_ok(s, out.value, s2);
    }

    fn garble<G: Garbler>(self, garbler: &mut G) -> (out: Holder<T>) {
        let Holder { value } = self;
        Holder { value: value.garble(garbler) }
    }
}

} // verus!
