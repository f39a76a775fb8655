use crate::garble::Garble;
use crate::garbler::{churn, seed_out, Garbler};
use crate::leaf::{lemma_prefix_push, lemma_push_is_concat, Leaf};
use vstd::prelude::*;

verus! {

// Non-zero integer wrappers: each holds an integer known not to be zero.
// Garbling reduces to the underlying integer leaf; when the strategy's
// answer would be zero, the wrapper rebinds to one, a repair policy rather
// than an error, so the non-zero invariant survives every strategy.

/// A `u8` known not to be zero.
#[derive(Debug, Clone, Copy, PartialEq, Eq)]
pub struct NonZeroU8 {
    v: u8,
}

impl NonZeroU8 {
    #[verifier::type_invariant]
    spec fn wf(self) -> bool {
        self.v != 0
    }

    /// The wrapped value.
    pub closed spec fn value(self) -> u8 {
        self.v
    }

    /// Wrap a value; `None` when it is zero.
    pub fn new(v: u8) -> (r: Option<NonZeroU8>)
        ensures
            v != 0 ==> r is Some && r->0.value() == v,
            v == 0 ==> r is None,
    {
        if v == 0 {
            None
        } else {
            Some(NonZeroU8 { v })
        }
    }

    /// The wrapped value as the primitive; never zero.
    pub fn get(self) -> (r: u8)
        ensures
            r == self.value(),
            r != 0,
    {
        proof {
            use_type_invariant(&self);
        }
        self.v
    }
}

impl Garble for NonZeroU8 {
    type Output = NonZeroU8;

    open spec fn garble_rel(self, out: NonZeroU8) -> bool {
        out.value() != 0
    }

    open spec fn id_rel(self, out: NonZeroU8) -> bool {
        out == self
    }

    open spec fn flat_rel(self, out: NonZeroU8) -> bool {
        out.value() == 1
    }

    open spec fn trace(self) -> Seq<Leaf> {
        seq![Leaf::U8(self.value())]
    }

    open spec fn trace_exact(self) -> bool {
        true
    }

    open spec fn seed_known(self) -> bool {
        true
    }

    open spec fn out_eq(a: NonZeroU8, b: NonZeroU8) -> bool {
        a == b
    }

    open spec fn seed_rel(self, s: u64, out: NonZeroU8, s2: u64) -> bool {
        s2 == churn(s) && (match seed_out(s, Leaf::U8(self.value())) {
            Leaf::U8(n) => out.value() == (if n == 0 {
                1 as u8
            } else {
                n
            }),
            _ => false,
        })
    }

    proof fn seed_functional(self, s: u64, o1: NonZeroU8, s1: u64, o2: NonZeroU8, s2: u64) {
        assert(o1.value() == o2.value());
        assert(o1 == (NonZeroU8 { v: o1.v }));
        assert(o2 == (NonZeroU8 { v: o2.v }));
    }

    open spec fn seed_after(self, s: u64) -> u64 {
        churn(s)
    }

    proof fn seed_after_ok(self, s: u64, out: NonZeroU8, s2: u64) {
    }

    fn garble<G: Garbler>(self, garbler: &mut G) -> (out: NonZeroU8) {
        proof {
            use_type_invariant(&self);
            lemma_prefix_push(garbler.log(), Leaf::U8(self.value()));
            lemma_push_is_concat(garbler.log(), Leaf::U8(self.value()));
        }
        let n = garbler.garble_u8(self.get());
        if n == 0 {
            NonZeroU8 { v: 1 }
        } else {
            NonZeroU8 { v: n }
        }
    }
}

/// A `u16` known not to be zero.
#[derive(Debug, Clone, Copy, PartialEq, Eq)]
pub struct NonZeroU16 {
    v: u16,
}

impl NonZeroU16 {
    #[verifier::type_invariant]
    spec fn wf(self) -> bool {
        self.v != 0
    }

    /// The wrapped value.
    pub closed spec fn value(self) -> u16 {
        self.v
    }

    /// Wrap a value; `None` when it is zero.
    pub fn new(v: u16) -> (r: Option<NonZeroU16>)
        ensures
            v != 0 ==> r is Some && r->0.value() == v,
            v == 0 ==> r is None,
    {
        if v == 0 {
            None
        } else {
            Some(NonZeroU16 { v })
        }
    }

    /// The wrapped value as the primitive; never zero.
    pub fn get(self) -> (r: u16)
        ensures
            r == self.value(),
            r != 0,
    {
        proof {
            use_type_invariant(&self);
        }
        self.v
    }
}

impl Garble for NonZeroU16 {
    type Output = NonZeroU16;

    open spec fn garble_rel(self, out: NonZeroU16) -> bool {
        out.value() != 0
    }

    open spec fn id_rel(self, out: NonZeroU16) -> bool {
        out == self
    }

    open spec fn flat_rel(self, out: NonZeroU16) -> bool {
        out.value() == 1
    }

    open spec fn trace(self) -> Seq<Leaf> {
        seq![Leaf::U16(self.value())]
    }

    open spec fn trace_exact(self) -> bool {
        true
    }

    open spec fn seed_known(self) -> bool {
        true
    }

    open spec fn out_eq(a: NonZeroU16, b: NonZeroU16) -> bool {
        a == b
    }

    open spec fn seed_rel(self, s: u64, out: NonZeroU16, s2: u64) -> bool {
        s2 == churn(s) && (match seed_out(s, Leaf::U16(self.value())) {
            Leaf::U16(n) => out.value() == (if n == 0 {
                1 as u16
            } else {
                n
            }),
            _ => false,
        })
    }

    proof fn seed_functional(self, s: u64, o1: NonZeroU16, s1: u64, o2: NonZeroU16, s2: u64) {
        assert(o1.value() == o2.value());
        assert(o1 == (NonZeroU16 { v: o1.v }));
        assert(o2 == (NonZeroU16 { v: o2.v }));
    }

    open spec fn seed_after(self, s: u64) -> u64 {
        churn(s)
    }

    proof fn seed_after_ok(self, s: u64, out: NonZeroU16, s2: u64) {
    }

    fn garble<G: Garbler>(self, garbler: &mut G) -> (out: NonZeroU16) {
        proof {
            use_type_invariant(&self);
            lemma_prefix_push(garbler.log(), Leaf::U16(self.value()));
            lemma_push_is_concat(garbler.log(), Leaf::U16(self.value()));
        }
        let n = garbler.garble_u16(self.get());
        if n == 0 {
            NonZeroU16 { v: 1 }
        } else {
            NonZeroU16 { v: n }
        }
    }
}

/// A `u32` known not to be zero.
#[derive(Debug, Clone, Copy, PartialEq, Eq)]
pub struct NonZeroU32 {
    v: u32,
}

impl NonZeroU32 {
    #[verifier::type_invariant]
    spec fn wf(self) -> bool {
        self.v != 0
    }

    /// The wrapped value.
    pub closed spec fn value(self) -> u32 {
        self.v
    }

    /// Wrap a value; `None` when it is zero.
    pub fn new(v: u32) -> (r: Option<NonZeroU32>)
        ensures
            v != 0 ==> r is Some && r->0.value() == v,
            v == 0 ==> r is None,
    {
        if v == 0 {
            None
        } else {
            Some(NonZeroU32 { v })
        }
    }

    /// The wrapped value as the primitive; never zero.
    pub fn get(self) -> (r: u32)
        ensures
            r == self.value(),
            r != 0,
    {
        proof {
            use_type_invariant(&self);
        }
        self.v
    }
}

impl Garble for NonZeroU32 {
    type Output = NonZeroU32;

    open spec fn garble_rel(self, out: NonZeroU32) -> bool {
        out.value() != 0
    }

    open spec fn id_rel(self, out: NonZeroU32) -> bool {
        out == self
    }

    open spec fn flat_rel(self, out: NonZeroU32) -> bool {
        out.value() == 1
    }

    open spec fn trace(self) -> Seq<Leaf> {
        seq![Leaf::U32(self.value())]
    }

    open spec fn trace_exact(self) -> bool {
        true
    }

    open spec fn seed_known(self) -> bool {
        true
    }

    open spec fn out_eq(a: NonZeroU32, b: NonZeroU32) -> bool {
        a == b
    }

    open spec fn seed_rel(self, s: u64, out: NonZeroU32, s2: u64) -> bool {
        s2 == churn(s) && (match seed_out(s, Leaf::U32(self.value())) {
            Leaf::U32(n) => out.value() == (if n == 0 {
                1 as u32
            } else {
                n
            }),
            _ => false,
        })
    }

    proof fn seed_functional(self, s: u64, o1: NonZeroU32, s1: u64, o2: NonZeroU32, s2: u64) {
        assert(o1.value() == o2.value());
        assert(o1 == (NonZeroU32 { v: o1.v }));
        assert(o2 == (NonZeroU32 { v: o2.v }));
    }

    open spec fn seed_after(self, s: u64) -> u64 {
        churn(s)
    }

    proof fn seed_after_ok(self, s: u64, out: NonZeroU32, s2: u64) {
    }

    fn garble<G: Garbler>(self, garbler: &mut G) -> (out: NonZeroU32) {
        proof {
            use_type_invariant(&self);
            lemma_prefix_push(garbler.log(), Leaf::U32(self.value()));
            lemma_push_is_concat(garbler.log(), Leaf::U32(self.value()));
        }
        let n = garbler.garble_u32(self.get());
        if n == 0 {
            NonZeroU32 { v: 1 }
        } else {
            NonZeroU32 { v: n }
        }
    }
}

/// A `u64` known not to be zero.
#[derive(Debug, Clone, Copy, PartialEq, Eq)]
pub struct NonZeroU64 {
    v: u64,
}

impl NonZeroU64 {
    #[verifier::type_invariant]
    spec fn wf(self) -> bool {
        self.v != 0
    }

    /// The wrapped value.
    pub closed spec fn value(self) -> u64 {
        self.v
    }

    /// Wrap a value; `None` when it is zero.
    pub fn new(v: u64) -> (r: Option<NonZeroU64>)
        ensures
            v != 0 ==> r is Some && r->0.value() == v,
            v == 0 ==> r is None,
    {
        if v == 0 {
            None
        } else {
            Some(NonZeroU64 { v })
        }
    }

    /// The wrapped value as the primitive; never zero.
    pub fn get(self) -> (r: u64)
        ensures
            r == self.value(),
            r != 0,
    {
        proof {
            use_type_invariant(&self);
        }
        self.v
    }
}

impl Garble for NonZeroU64 {
    type Output = NonZeroU64;

    open spec fn garble_rel(self, out: NonZeroU64) -> bool {
        out.value() != 0
    }

    open spec fn id_rel(self, out: NonZeroU64) -> bool {
        out == self
    }

    open spec fn flat_rel(self, out: NonZeroU64) -> bool {
        out.value() == 1
    }

    open spec fn trace(self) -> Seq<Leaf> {
        seq![Leaf::U64(self.value())]
    }

    open spec fn trace_exact(self) -> bool {
        true
    }

    open spec fn seed_known(self) -> bool {
        true
    }

    open spec fn out_eq(a: NonZeroU64, b: NonZeroU64) -> bool {
        a == b
    }

    open spec fn seed_rel(self, s: u64, out: NonZeroU64, s2: u64) -> bool {
        s2 == churn(s) && (match seed_out(s, Leaf::U64(self.value())) {
            Leaf::U64(n) => out.value() == (if n == 0 {
                1 as u64
            } else {
                n
            }),
            _ => false,
        })
    }

    proof fn seed_functional(self, s: u64, o1: NonZeroU64, s1: u64, o2: NonZeroU64, s2: u64) {
        assert(o1.value() == o2.value());
        assert(o1 == (NonZeroU64 { v: o1.v }));
        assert(o2 == (NonZeroU64 { v: o2.v }));
    }

    open spec fn seed_after(self, s: u64) -> u64 {
        churn(s)
    }

    proof fn seed_after_ok(self, s: u64, out: NonZeroU64, s2: u64) {
    }

    fn garble<G: Garbler>(self, garbler: &mut G) -> (out: NonZeroU64) {
        proof {
            use_type_invariant(&self);
            lemma_prefix_push(garbler.log(), Leaf::U64(self.value()));
            lemma_push_is_concat(garbler.log(), Leaf::U64(self.value()));
        }
        let n = garbler.garble_u64(self.get());
        if n == 0 {
            NonZeroU64 { v: 1 }
        } else {
            NonZeroU64 { v: n }
        }
    }
}

/// A `u128` known not to be zero.
#[derive(Debug, Clone, Copy, PartialEq, Eq)]
pub struct NonZeroU128 {
    v: u128,
}

impl NonZeroU128 {
    #[verifier::type_invariant]
    spec fn wf(self) -> bool {
        self.v != 0
    }

    /// The wrapped value.
    pub closed spec fn value(self) -> u128 {
        self.v
    }

    /// Wrap a value; `None` when it is zero.
    pub fn new(v: u128) -> (r: Option<NonZeroU128>)
        ensures
            v != 0 ==> r is Some && r->0.value() == v,
            v == 0 ==> r is None,
    {
        if v == 0 {
            None
        } else {
            Some(NonZeroU128 { v })
        }
    }

    /// The wrapped value as the primitive; never zero.
    pub fn get(self) -> (r: u128)
        ensures
            r == self.value(),
            r != 0,
    {
        proof {
            use_type_invariant(&self);
        }
        self.v
    }
}

impl Garble for NonZeroU128 {
    type Output = NonZeroU128;

    open spec fn garble_rel(self, out: NonZeroU128) -> bool {
        out.value() != 0
    }

    open spec fn id_rel(self, out: NonZeroU128) -> bool {
        out == self
    }

    open spec fn flat_rel(self, out: NonZeroU128) -> bool {
        out.value() == 1
    }

    open spec fn trace(self) -> Seq<Leaf> {
        seq![Leaf::U128(self.value())]
    }

    open spec fn trace_exact(self) -> bool {
        true
    }

    open spec fn seed_known(self) -> bool {
        true
    }

    open spec fn out_eq(a: NonZeroU128, b: NonZeroU128) -> bool {
        a == b
    }

    open spec fn seed_rel(self, s: u64, out: NonZeroU128, s2: u64) -> bool {
        s2 == churn(s) && (match seed_out(s, Leaf::U128(self.value())) {
            Leaf::U128(n) => out.value() == (if n == 0 {
                1 as u128
            } else {
                n
            }),
            _ => false,
        })
    }

    proof fn seed_functional(self, s: u64, o1: NonZeroU128, s1: u64, o2: NonZeroU128, s2: u64) {
        assert(o1.value() == o2.value());
        assert(o1 == (NonZeroU128 { v: o1.v }));
        assert(o2 == (NonZeroU128 { v: o2.v }));
    }

    open spec fn seed_after(self, s: u64) -> u64 {
        churn(s)
    }

    proof fn seed_after_ok(self, s: u64, out: NonZeroU128, s2: u64) {
    }

    fn garble<G: Garbler>(self, garbler: &mut G) -> (out: NonZeroU128) {
        proof {
            use_type_invariant(&self);
            lemma_prefix_push(garbler.log(), Leaf::U128(self.value()));
            lemma_push_is_concat(garbler.log(), Leaf::U128(self.value()));
        }
        let n = garbler.garble_u128(self.get());
        if n == 0 {
            NonZeroU128 { v: 1 }
        } else {
            NonZeroU128 { v: n }
        }
    }
}

/// A `usize` known not to be zero.
#[derive(Debug, Clone, Copy, PartialEq, Eq)]
pub struct NonZeroUsize {
    v: usize,
}

impl NonZeroUsize {
    #[verifier::type_invariant]
    spec fn wf(self) -> bool {
        self.v != 0
    }

    /// The wrapped value.
    pub closed spec fn value(self) -> usize {
        self.v
    }

    /// Wrap a value; `None` when it is zero.
    pub fn new(v: usize) -> (r: Option<NonZeroUsize>)
        ensures
            v != 0 ==> r is Some && r->0.value() == v,
            v == 0 ==> r is None,
    {
        if v == 0 {
            None
        } else {
            Some(NonZeroUsize { v })
        }
    }

    /// The wrapped value as the primitive; never zero.
    pub fn get(self) -> (r: usize)
        ensures
            r == self.value(),
            r != 0,
    {
        proof {
            use_type_invariant(&self);
        }
        self.v
    }
}

impl Garble for NonZeroUsize {
    type Output = NonZeroUsize;

    open spec fn garble_rel(self, out: NonZeroUsize) -> bool {
        out.value() != 0
    }

    open spec fn id_rel(self, out: NonZeroUsize) -> bool {
        out == self
    }

    open spec fn flat_rel(self, out: NonZeroUsize) -> bool {
        out.value() == 1
    }

    open spec fn trace(self) -> Seq<Leaf> {
        seq![Leaf::Usize(self.value())]
    }

    open spec fn trace_exact(self) -> bool {
        true
    }

    open spec fn seed_known(self) -> bool {
        true
    }

    open spec fn out_eq(a: NonZeroUsize, b: NonZeroUsize) -> bool {
        a == b
    }

    open spec fn seed_rel(self, s: u64, out: NonZeroUsize, s2: u64) -> bool {
        s2 == churn(s) && (match seed_out(s, Leaf::Usize(self.value())) {
            Leaf::Usize(n) => out.value() == (if n == 0 {
                1 as usize
            } else {
                n
            }),
            _ => false,
        })
    }

    proof fn seed_functional(self, s: u64, o1: NonZeroUsize, s1: u64, o2: NonZeroUsize, s2: u64) {
        assert(o1.value() == o2.value());
        assert(o1 == (NonZeroUsize { v: o1.v }));
        assert(o2 == (NonZeroUsize { v: o2.v }));
    }

    open spec fn seed_after(self, s: u64) -> u64 {
        churn(s)
    }

    proof fn seed_after_ok(self, s: u64, out: NonZeroUsize, s2: u64) {
    }

    fn garble<G: Garbler>(self, garbler: &mut G) -> (out: NonZeroUsize) {
        proof {
            use_type_invariant(&self);
            lemma_prefix_push(garbler.log(), Leaf::Usize(self.value()));
            lemma_push_is_concat(garbler.log(), Leaf::Usize(self.value()));
        }
        let n = garbler.garble_usize(self.get());
        if n == 0 {
            NonZeroUsize { v: 1 }
        } else {
            NonZeroUsize { v: n }
        }
    }
}

/// A `i8` known not to be zero.
#[derive(Debug, Clone, Copy, PartialEq, Eq)]
pub struct NonZeroI8 {
    v: i8,
}

impl NonZeroI8 {
    #[verifier::type_invariant]
    spec fn wf(self) -> bool {
        self.v != 0
    }

    /// The wrapped value.
    pub closed spec fn value(self) -> i8 {
        self.v
    }

    /// Wrap a value; `None` when it is zero.
    pub fn new(v: i8) -> (r: Option<NonZeroI8>)
        ensures
            v != 0 ==> r is Some && r->0.value() == v,
            v == 0 ==> r is None,
    {
        if v == 0 {
            None
        } else {
            Some(NonZeroI8 { v })
        }
    }

    /// The wrapped value as the primitive; never zero.
    pub fn get(self) -> (r: i8)
        ensures
            r == self.value(),
            r != 0,
    {
        proof {
            use_type_invariant(&self);
        }
        self.v
    }
}

impl Garble for NonZeroI8 {
    type Output = NonZeroI8;

    open spec fn garble_rel(self, out: NonZeroI8) -> bool {
        out.value() != 0
    }

    open spec fn id_rel(self, out: NonZeroI8) -> bool {
        out == self
    }

    open spec fn flat_rel(self, out: NonZeroI8) -> bool {
        out.value() == 1
    }

    open spec fn trace(self) -> Seq<Leaf> {
        seq![Leaf::I8(self.value())]
    }

    open spec fn trace_exact(self) -> bool {
        true
    }

    open spec fn seed_known(self) -> bool {
        true
    }

    open spec fn out_eq(a: NonZeroI8, b: NonZeroI8) -> bool {
        a == b
    }

    open spec fn seed_rel(self, s: u64, out: NonZeroI8, s2: u64) -> bool {
        s2 == churn(s) && (match seed_out(s, Leaf::I8(self.value())) {
            Leaf::I8(n) => out.value() == (if n == 0 {
                1 as i8
            } else {
                n
            }),
            _ => false,
        })
    }

    proof fn seed_functional(self, s: u64, o1: NonZeroI8, s1: u64, o2: NonZeroI8, s2: u64) {
        assert(o1.value() == o2.value());
        assert(o1 == (NonZeroI8 { v: o1.v }));
        assert(o2 == (NonZeroI8 { v: o2.v }));
    }

    open spec fn seed_after(self, s: u64) -> u64 {
        churn(s)
    }

    proof fn seed_after_ok(self, s: u64, out: NonZeroI8, s2: u64) {
    }

    fn garble<G: Garbler>(self, garbler: &mut G) -> (out: NonZeroI8) {
        proof {
            use_type_invariant(&self);
            lemma_prefix_push(garbler.log(), Leaf::I8(self.value()));
            lemma_push_is_concat(garbler.log(), Leaf::I8(self.value()));
        }
        let n = garbler.garble_i8(self.get());
        if n == 0 {
            NonZeroI8 { v: 1 }
        } else {
            NonZeroI8 { v: n }
        }
    }
}

/// A `i16` known not to be zero.
#[derive(Debug, Clone, Copy, PartialEq, Eq)]
pub struct NonZeroI16 {
    v: i16,
}

impl NonZeroI16 {
    #[verifier::type_invariant]
    spec fn wf(self) -> bool {
        self.v != 0
    }

    /// The wrapped value.
    pub closed spec fn value(self) -> i16 {
        self.v
    }

    /// Wrap a value; `None` when it is zero.
    pub fn new(v: i16) -> (r: Option<NonZeroI16>)
        ensures
            v != 0 ==> r is Some && r->0.value() == v,
            v == 0 ==> r is None,
    {
        if v == 0 {
            None
        } else {
            Some(NonZeroI16 { v })
        }
    }

    /// The wrapped value as the primitive; never zero.
    pub fn get(self) -> (r: i16)
        ensures
            r == self.value(),
            r != 0,
    {
        proof {
            use_type_invariant(&self);
        }
        self.v
    }
}

impl Garble for NonZeroI16 {
    type Output = NonZeroI16;

    open spec fn garble_rel(self, out: NonZeroI16) -> bool {
        out.value() != 0
    }

    open spec fn id_rel(self, out: NonZeroI16) -> bool {
        out == self
    }

    open spec fn flat_rel(self, out: NonZeroI16) -> bool {
        out.value() == 1
    }

    open spec fn trace(self) -> Seq<Leaf> {
        seq![Leaf::I16(self.value())]
    }

    open spec fn trace_exact(self) -> bool {
        true
    }

    open spec fn seed_known(self) -> bool {
        true
    }

    open spec fn out_eq(a: NonZeroI16, b: NonZeroI16) -> bool {
        a == b
    }

    open spec fn seed_rel(self, s: u64, out: NonZeroI16, s2: u64) -> bool {
        s2 == churn(s) && (match seed_out(s, Leaf::I16(self.value())) {
            Leaf::I16(n) => out.value() == (if n == 0 {
                1 as i16
            } else {
                n
            }),
            _ => false,
        })
    }

    proof fn seed_functional(self, s: u64, o1: NonZeroI16, s1: u64, o2: NonZeroI16, s2: u64) {
        assert(o1.value() == o2.value());
        assert(o1 == (NonZeroI16 { v: o1.v }));
        assert(o2 == (NonZeroI16 { v: o2.v }));
    }

    open spec fn seed_after(self, s: u64) -> u64 {
        churn(s)
    }

    proof fn seed_after_ok(self, s: u64, out: NonZeroI16, s2: u64) {
    }

    fn garble<G: Garbler>(self, garbler: &mut G) -> (out: NonZeroI16) {
        proof {
            use_type_invariant(&self);
            lemma_prefix_push(garbler.log(), Leaf::I16(self.value()));
            lemma_push_is_concat(garbler.log(), Leaf::I16(self.value()));
        }
        let n = garbler.garble_i16(self.get());
        if n == 0 {
            NonZeroI16 { v: 1 }
        } else {
            NonZeroI16 { v: n }
        }
    }
}

/// A `i32` known not to be zero.
#[derive(Debug, Clone, Copy, PartialEq, Eq)]
pub struct NonZeroI32 {
    v: i32,
}

impl NonZeroI32 {
    #[verifier::type_invariant]
    spec fn wf(self) -> bool {
        self.v != 0
    }

    /// The wrapped value.
    pub closed spec fn value(self) -> i32 {
        self.v
    }

    /// Wrap a value; `None` when it is zero.
    pub fn new(v: i32) -> (r: Option<NonZeroI32>)
        ensures
            v != 0 ==> r is Some && r->0.value() == v,
            v == 0 ==> r is None,
    {
        if v == 0 {
            None
        } else {
            Some(NonZeroI32 { v })
        }
    }

    /// The wrapped value as the primitive; never zero.
    pub fn get(self) -> (r: i32)
        ensures
            r == self.value(),
            r != 0,
    {
        proof {
            use_type_invariant(&self);
        }
        self.v
    }
}

impl Garble for NonZeroI32 {
    type Output = NonZeroI32;

    open spec fn garble_rel(self, out: NonZeroI32) -> bool {
        out.value() != 0
    }

    open spec fn id_rel(self, out: NonZeroI32) -> bool {
        out == self
    }

    open spec fn flat_rel(self, out: NonZeroI32) -> bool {
        out.value() == 1
    }

    open spec fn trace(self) -> Seq<Leaf> {
        seq![Leaf::I32(self.value())]
    }

    open spec fn trace_exact(self) -> bool {
        true
    }

    open spec fn seed_known(self) -> bool {
        true
    }

    open spec fn out_eq(a: NonZeroI32, b: NonZeroI32) -> bool {
        a == b
    }

    open spec fn seed_rel(self, s: u64, out: NonZeroI32, s2: u64) -> bool {
        s2 == churn(s) && (match seed_out(s, Leaf::I32(self.value())) {
            Leaf::I32(n) => out.value() == (if n == 0 {
                1 as i32
            } else {
                n
            }),
            _ => false,
        })
    }

    proof fn seed_functional(self, s: u64, o1: NonZeroI32, s1: u64, o2: NonZeroI32, s2: u64) {
        assert(o1.value() == o2.value());
        assert(o1 == (NonZeroI32 { v: o1.v }));
        assert(o2 == (NonZeroI32 { v: o2.v }));
    }

    open spec fn seed_after(self, s: u64) -> u64 {
        churn(s)
    }

    proof fn seed_after_ok(self, s: u64, out: NonZeroI32, s2: u64) {
    }

    fn garble<G: Garbler>(self, garbler: &mut G) -> (out: NonZeroI32) {
        proof {
            use_type_invariant(&self);
            lemma_prefix_push(garbler.log(), Leaf::I32(self.value()));
            lemma_push_is_concat(garbler.log(), Leaf::I32(self.value()));
        }
        let n = garbler.garble_i32(self.get());
        if n == 0 {
            NonZeroI32 { v: 1 }
        } else {
            NonZeroI32 { v: n }
        }
    }
}

/// A `i64` known not to be zero.
#[derive(Debug, Clone, Copy, PartialEq, Eq)]
pub struct NonZeroI64 {
    v: i64,
}

impl NonZeroI64 {
    #[verifier::type_invariant]
    spec fn wf(self) -> bool {
        self.v != 0
    }

    /// The wrapped value.
    pub closed spec fn value(self) -> i64 {
        self.v
    }

    /// Wrap a value; `None` when it is zero.
    pub fn new(v: i64) -> (r: Option<NonZeroI64>)
        ensures
            v != 0 ==> r is Some && r->0.value() == v,
            v == 0 ==> r is None,
    {
        if v == 0 {
            None
        } else {
            Some(NonZeroI64 { v })
        }
    }

    /// The wrapped value as the primitive; never zero.
    pub fn get(self) -> (r: i64)
        ensures
            r == self.value(),
            r != 0,
    {
        proof {
            use_type_invariant(&self);
        }
        self.v
    }
}

impl Garble for NonZeroI64 {
    type Output = NonZeroI64;

    open spec fn garble_rel(self, out: NonZeroI64) -> bool {
        out.value() != 0
    }

    open spec fn id_rel(self, out: NonZeroI64) -> bool {
        out == self
    }

    open spec fn flat_rel(self, out: NonZeroI64) -> bool {
        out.value() == 1
    }

    open spec fn trace(self) -> Seq<Leaf> {
        seq![Leaf::I64(self.value())]
    }

    open spec fn trace_exact(self) -> bool {
        true
    }

    open spec fn seed_known(self) -> bool {
        true
    }

    open spec fn out_eq(a: NonZeroI64, b: NonZeroI64) -> bool {
        a == b
    }

    open spec fn seed_rel(self, s: u64, out: NonZeroI64, s2: u64) -> bool {
        s2 == churn(s) && (match seed_out(s, Leaf::I64(self.value())) {
            Leaf::I64(n) => out.value() == (if n == 0 {
                1 as i64
            } else {
                n
            }),
            _ => false,
        })
    }

    proof fn seed_functional(self, s: u64, o1: NonZeroI64, s1: u64, o2: NonZeroI64, s2: u64) {
        assert(o1.value() == o2.value());
        assert(o1 == (NonZeroI64 { v: o1.v }));
        assert(o2 == (NonZeroI64 { v: o2.v }));
    }

    open spec fn seed_after(self, s: u64) -> u64 {
        churn(s)
    }

    proof fn seed_after_ok(self, s: u64, out: NonZeroI64, s2: u64) {
    }

    fn garble<G: Garbler>(self, garbler: &mut G) -> (out: NonZeroI64) {
        proof {
            use_type_invariant(&self);
            lemma_prefix_push(garbler.log(), Leaf::I64(self.value()));
            lemma_push_is_concat(garbler.log(), Leaf::I64(self.value()));
        }
        let n = garbler.garble_i64(self.get());
        if n == 0 {
            NonZeroI64 { v: 1 }
        } else {
            NonZeroI64 { v: n }
        }
    }
}

/// A `i128` known not to be zero.
#[derive(Debug, Clone, Copy, PartialEq, Eq)]
pub struct NonZeroI128 {
    v: i128,
}

impl NonZeroI128 {
    #[verifier::type_invariant]
    spec fn wf(self) -> bool {
        self.v != 0
    }

    /// The wrapped value.
    pub closed spec fn value(self) -> i128 {
        self.v
    }

    /// Wrap a value; `None` when it is zero.
    pub fn new(v: i128) -> (r: Option<NonZeroI128>)
        ensures
            v != 0 ==> r is Some && r->0.value() == v,
            v == 0 ==> r is None,
    {
        if v == 0 {
            None
        } else {
            Some(NonZeroI128 { v })
        }
    }

    /// The wrapped value as the primitive; never zero.
    pub fn get(self) -> (r: i128)
        ensures
            r == self.value(),
            r != 0,
    {
        proof {
            use_type_invariant(&self);
        }
        self.v
    }
}

impl Garble for NonZeroI128 {
    type Output = NonZeroI128;

    open spec fn garble_rel(self, out: NonZeroI128) -> bool {
        out.value() != 0
    }

    open spec fn id_rel(self, out: NonZeroI128) -> bool {
        out == self
    }

    open spec fn flat_rel(self, out: NonZeroI128) -> bool {
        out.value() == 1
    }

    open spec fn trace(self) -> Seq<Leaf> {
        seq![Leaf::I128(self.value())]
    }

    open spec fn trace_exact(self) -> bool {
        true
    }

    open spec fn seed_known(self) -> bool {
        true
    }

    open spec fn out_eq(a: NonZeroI128, b: NonZeroI128) -> bool {
        a == b
    }

    open spec fn seed_rel(self, s: u64, out: NonZeroI128, s2: u64) -> bool {
        s2 == churn(s) && (match seed_out(s, Leaf::I128(self.value())) {
            Leaf::I128(n) => out.value() == (if n == 0 {
                1 as i128
            } else {
                n
            }),
            _ => false,
        })
    }

    proof fn seed_functional(self, s: u64, o1: NonZeroI128, s1: u64, o2: NonZeroI128, s2: u64) {
        assert(o1.value() == o2.value());
        assert(o1 == (NonZeroI128 { v: o1.v }));
        assert(o2 == (NonZeroI128 { v: o2.v }));
    }

    open spec fn seed_after(self, s: u64) -> u64 {
        churn(s)
    }

    proof fn seed_after_ok(self, s: u64, out: NonZeroI128, s2: u64) {
    }

    fn garble<G: Garbler>(self, garbler: &mut G) -> (out: NonZeroI128) {
        proof {
            use_type_invariant(&self);
            lemma_prefix_push(garbler.log(), Leaf::I128(self.value()));
            lemma_push_is_concat(garbler.log(), Leaf::I128(self.value()));
        }
        let n = garbler.garble_i128(self.get());
        if n == 0 {
            NonZeroI128 { v: 1 }
        } else {
            NonZeroI128 { v: n }
        }
    }
}

/// A `isize` known not to be zero.
#[derive(Debug, Clone, Copy, PartialEq, Eq)]
pub struct NonZeroIsize {
    v: isize,
}

impl NonZeroIsize {
    #[verifier::type_invariant]
    spec fn wf(self) -> bool {
        self.v != 0
    }

    /// The wrapped value.
    pub closed spec fn value(self) -> isize {
        self.v
    }

    /// Wrap a value; `None` when it is zero.
    pub fn new(v: isize) -> (r: Option<NonZeroIsize>)
        ensures
            v != 0 ==> r is Some && r->0.value() == v,
            v == 0 ==> r is None,
    {
        if v == 0 {
            None
        } else {
            Some(NonZeroIsize { v })
        }
    }

    /// The wrapped value as the primitive; never zero.
    pub fn get(self) -> (r: isize)
        ensures
            r == self.value(),
            r != 0,
    {
        proof {
            use_type_invariant(&self);
        }
        self.v
    }
}

impl Garble for NonZeroIsize {
    type Output = NonZeroIsize;

    open spec fn garble_rel(self, out: NonZeroIsize) -> bool {
        out.value() != 0
    }

    open spec fn id_rel(self, out: NonZeroIsize) -> bool {
        out == self
    }

    open spec fn flat_rel(self, out: NonZeroIsize) -> bool {
        out.value() == 1
    }

    open spec fn trace(self) -> Seq<Leaf> {
        seq![Leaf::Isize(self.value())]
    }

    open spec fn trace_exact(self) -> bool {
        true
    }

    open spec fn seed_known(self) -> bool {
        true
    }

    open spec fn out_eq(a: NonZeroIsize, b: NonZeroIsize) -> bool {
        a == b
    }

    open spec fn seed_rel(self, s: u64, out: NonZeroIsize, s2: u64) -> bool {
        s2 == churn(s) && (match seed_out(s, Leaf::Isize(self.value())) {
            Leaf::Isize(n) => out.value() == (if n == 0 {
                1 as isize
            } else {
                n
            }),
            _ => false,
        })
    }

    proof fn seed_functional(self, s: u64, o1: NonZeroIsize, s1: u64, o2: NonZeroIsize, s2: u64) {
        assert(o1.value() == o2.value());
        assert(o1 == (NonZeroIsize { v: o1.v }));
        assert(o2 == (NonZeroIsize { v: o2.v }));
    }

    open spec fn seed_after(self, s: u64) -> u64 {
        churn(s)
    }

    proof fn seed_after_ok(self, s: u64, out: NonZeroIsize, s2: u64) {
    }

    fn garble<G: Garbler>(self, garbler: &mut G) -> (out: NonZeroIsize) {
        proof {
            use_type_invariant(&self);
            lemma_prefix_push(garbler.log(), Leaf::Isize(self.value()));
            lemma_push_is_concat(garbler.log(), Leaf::Isize(self.value()));
        }
        let n = garbler.garble_isize(self.get());
        if n == 0 {
            NonZeroIsize { v: 1 }
        } else {
            NonZeroIsize { v: n }
        }
    }
}

} // verus!
