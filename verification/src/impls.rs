use crate::garble::Garble;
use crate::garbler::{churn, seed_out, Garbler};
use crate::leaf::{lemma_concat_empty, lemma_prefix_concat, lemma_prefix_push, lemma_push_is_concat, Leaf};
use vstd::prelude::*;

verus! {

// Leaf implementations: each forwards to the matching per-leaf method of the
// strategy. Under every strategy the output is some value of the same leaf
// type (`garble_rel` is trivial); under a keeping strategy it is the input.
impl Garble for bool {
    type Output = bool;

    open spec fn garble_rel(self, out: bool) -> bool {
        true
    }

    open spec fn id_rel(self, out: bool) -> bool {
        out == self
    }

    open spec fn flat_rel(self, out: bool) -> bool {
        out == false
    }

    open spec fn trace(self) -> Seq<Leaf> {
        seq![Leaf::Bool(self)]
    }

    open spec fn trace_exact(self) -> bool {
        true
    }

    open spec fn seed_known(self) -> bool {
        true
    }

    open spec fn out_eq(a: bool, b: bool) -> bool {
        a == b
    }

    open spec fn seed_rel(self, s: u64, out: bool, s2: u64) -> bool {
        s2 == churn(s) && Leaf::Bool(out) == seed_out(s, Leaf::Bool(self))
    }

    proof fn seed_functional(self, s: u64, o1: bool, s1: u64, o2: bool, s2: u64) {
    }

    open spec fn seed_after(self, s: u64) -> u64 {
        churn(s)
    }

    proof fn seed_after_ok(self, s: u64, out: bool, s2: u64) {
    }

    fn garble<G: Garbler>(self, garbler: &mut G) -> (out: bool) {
        proof {
            lemma_prefix_push(garbler.log(), Leaf::Bool(self));
            lemma_push_is_concat(garbler.log(), Leaf::Bool(self));
        }
        garbler.garble_bool(self)
    }
}

impl Garble for char {
    type Output = char;

    open spec fn garble_rel(self, out: char) -> bool {
        true
    }

    open spec fn id_rel(self, out: char) -> bool {
        out == self
    }

    open spec fn flat_rel(self, out: char) -> bool {
        out == ' '
    }

    open spec fn trace(self) -> Seq<Leaf> {
        seq![Leaf::Char(self)]
    }

    open spec fn trace_exact(self) -> bool {
        true
    }

    open spec fn seed_known(self) -> bool {
        true
    }

    open spec fn out_eq(a: char, b: char) -> bool {
        a == b
    }

    open spec fn seed_rel(self, s: u64, out: char, s2: u64) -> bool {
        s2 == churn(s) && Leaf::Char(out) == seed_out(s, Leaf::Char(self))
    }

    proof fn seed_functional(self, s: u64, o1: char, s1: u64, o2: char, s2: u64) {
    }

    open spec fn seed_after(self, s: u64) -> u64 {
        churn(s)
    }

    proof fn seed_after_ok(self, s: u64, out: char, s2: u64) {
    }

    fn garble<G: Garbler>(self, garbler: &mut G) -> (out: char) {
        proof {
            lemma_prefix_push(garbler.log(), Leaf::Char(self));
            lemma_push_is_concat(garbler.log(), Leaf::Char(self));
        }
        garbler.garble_char(self)
    }
}

impl Garble for u8 {
    type Output = u8;

    open spec fn garble_rel(self, out: u8) -> bool {
        true
    }

    open spec fn id_rel(self, out: u8) -> bool {
        out == self
    }

    open spec fn flat_rel(self, out: u8) -> bool {
        out == 0
    }

    open spec fn trace(self) -> Seq<Leaf> {
        seq![Leaf::U8(self)]
    }

    open spec fn trace_exact(self) -> bool {
        true
    }

    open spec fn seed_known(self) -> bool {
        true
    }

    open spec fn out_eq(a: u8, b: u8) -> bool {
        a == b
    }

    open spec fn seed_rel(self, s: u64, out: u8, s2: u64) -> bool {
        s2 == churn(s) && Leaf::U8(out) == seed_out(s, Leaf::U8(self))
    }

    proof fn seed_functional(self, s: u64, o1: u8, s1: u64, o2: u8, s2: u64) {
    }

    open spec fn seed_after(self, s: u64) -> u64 {
        churn(s)
    }

    proof fn seed_after_ok(self, s: u64, out: u8, s2: u64) {
    }

    fn garble<G: Garbler>(self, garbler: &mut G) -> (out: u8) {
        proof {
            lemma_prefix_push(garbler.log(), Leaf::U8(self));
            lemma_push_is_concat(garbler.log(), Leaf::U8(self));
        }
        garbler.garble_u8(self)
    }
}

impl Garble for u16 {
    type Output = u16;

    open spec fn garble_rel(self, out: u16) -> bool {
        true
    }

    open spec fn id_rel(self, out: u16) -> bool {
        out == self
    }

    open spec fn flat_rel(self, out: u16) -> bool {
        out == 0
    }

    open spec fn trace(self) -> Seq<Leaf> {
        seq![Leaf::U16(self)]
    }

    open spec fn trace_exact(self) -> bool {
        true
    }

    open spec fn seed_known(self) -> bool {
        true
    }

    open spec fn out_eq(a: u16, b: u16) -> bool {
        a == b
    }

    open spec fn seed_rel(self, s: u64, out: u16, s2: u64) -> bool {
        s2 == churn(s) && Leaf::U16(out) == seed_out(s, Leaf::U16(self))
    }

    proof fn seed_functional(self, s: u64, o1: u16, s1: u64, o2: u16, s2: u64) {
    }

    open spec fn seed_after(self, s: u64) -> u64 {
        churn(s)
    }

    proof fn seed_after_ok(self, s: u64, out: u16, s2: u64) {
    }

    fn garble<G: Garbler>(self, garbler: &mut G) -> (out: u16) {
        proof {
            lemma_prefix_push(garbler.log(), Leaf::U16(self));
            lemma_push_is_concat(garbler.log(), Leaf::U16(self));
        }
        garbler.garble_u16(self)
    }
}

impl Garble for u32 {
    type Output = u32;

    open spec fn garble_rel(self, out: u32) -> bool {
        true
    }

    open spec fn id_rel(self, out: u32) -> bool {
        out == self
    }

    open spec fn flat_rel(self, out: u32) -> bool {
        out == 0
    }

    open spec fn trace(self) -> Seq<Leaf> {
        seq![Leaf::U32(self)]
    }

    open spec fn trace_exact(self) -> bool {
        true
    }

    open spec fn seed_known(self) -> bool {
        true
    }

    open spec fn out_eq(a: u32, b: u32) -> bool {
        a == b
    }

    open spec fn seed_rel(self, s: u64, out: u32, s2: u64) -> bool {
        s2 == churn(s) && Leaf::U32(out) == seed_out(s, Leaf::U32(self))
    }

    proof fn seed_functional(self, s: u64, o1: u32, s1: u64, o2: u32, s2: u64) {
    }

    open spec fn seed_after(self, s: u64) -> u64 {
        churn(s)
    }

    proof fn seed_after_ok(self, s: u64, out: u32, s2: u64) {
    }

    fn garble<G: Garbler>(self, garbler: &mut G) -> (out: u32) {
        proof {
            lemma_prefix_push(garbler.log(), Leaf::U32(self));
            lemma_push_is_concat(garbler.log(), Leaf::U32(self));
        }
        garbler.garble_u32(self)
    }
}

impl Garble for u64 {
    type Output = u64;

    open spec fn garble_rel(self, out: u64) -> bool {
        true
    }

    open spec fn id_rel(self, out: u64) -> bool {
        out == self
    }

    open spec fn flat_rel(self, out: u64) -> bool {
        out == 0
    }

    open spec fn trace(self) -> Seq<Leaf> {
        seq![Leaf::U64(self)]
    }

    open spec fn trace_exact(self) -> bool {
        true
    }

    open spec fn seed_known(self) -> bool {
        true
    }

    open spec fn out_eq(a: u64, b: u64) -> bool {
        a == b
    }

    open spec fn seed_rel(self, s: u64, out: u64, s2: u64) -> bool {
        s2 == churn(s) && Leaf::U64(out) == seed_out(s, Leaf::U64(self))
    }

    proof fn seed_functional(self, s: u64, o1: u64, s1: u64, o2: u64, s2: u64) {
    }

    open spec fn seed_after(self, s: u64) -> u64 {
        churn(s)
    }

    proof fn seed_after_ok(self, s: u64, out: u64, s2: u64) {
    }

    fn garble<G: Garbler>(self, garbler: &mut G) -> (out: u64) {
        proof {
            lemma_prefix_push(garbler.log(), Leaf::U64(self));
            lemma_push_is_concat(garbler.log(), Leaf::U64(self));
        }
        garbler.garble_u64(self)
    }
}

impl Garble for u128 {
    type Output = u128;

    open spec fn garble_rel(self, out: u128) -> bool {
        true
    }

    open spec fn id_rel(self, out: u128) -> bool {
        out == self
    }

    open spec fn flat_rel(self, out: u128) -> bool {
        out == 0
    }

    open spec fn trace(self) -> Seq<Leaf> {
        seq![Leaf::U128(self)]
    }

    open spec fn trace_exact(self) -> bool {
        true
    }

    open spec fn seed_known(self) -> bool {
        true
    }

    open spec fn out_eq(a: u128, b: u128) -> bool {
        a == b
    }

    open spec fn seed_rel(self, s: u64, out: u128, s2: u64) -> bool {
        s2 == churn(s) && Leaf::U128(out) == seed_out(s, Leaf::U128(self))
    }

    proof fn seed_functional(self, s: u64, o1: u128, s1: u64, o2: u128, s2: u64) {
    }

    open spec fn seed_after(self, s: u64) -> u64 {
        churn(s)
    }

    proof fn seed_after_ok(self, s: u64, out: u128, s2: u64) {
    }

    fn garble<G: Garbler>(self, garbler: &mut G) -> (out: u128) {
        proof {
            lemma_prefix_push(garbler.log(), Leaf::U128(self));
            lemma_push_is_concat(garbler.log(), Leaf::U128(self));
        }
        garbler.garble_u128(self)
    }
}

impl Garble for usize {
    type Output = usize;

    open spec fn garble_rel(self, out: usize) -> bool {
        true
    }

    open spec fn id_rel(self, out: usize) -> bool {
        out == self
    }

    open spec fn flat_rel(self, out: usize) -> bool {
        out == 0
    }

    open spec fn trace(self) -> Seq<Leaf> {
        seq![Leaf::Usize(self)]
    }

    open spec fn trace_exact(self) -> bool {
        true
    }

    open spec fn seed_known(self) -> bool {
        true
    }

    open spec fn out_eq(a: usize, b: usize) -> bool {
        a == b
    }

    open spec fn seed_rel(self, s: u64, out: usize, s2: u64) -> bool {
        s2 == churn(s) && Leaf::Usize(out) == seed_out(s, Leaf::Usize(self))
    }

    proof fn seed_functional(self, s: u64, o1: usize, s1: u64, o2: usize, s2: u64) {
    }

    open spec fn seed_after(self, s: u64) -> u64 {
        churn(s)
    }

    proof fn seed_after_ok(self, s: u64, out: usize, s2: u64) {
    }

    fn garble<G: Garbler>(self, garbler: &mut G) -> (out: usize) {
        proof {
            lemma_prefix_push(garbler.log(), Leaf::Usize(self));
            lemma_push_is_concat(garbler.log(), Leaf::Usize(self));
        }
        garbler.garble_usize(self)
    }
}

impl Garble for i8 {
    type Output = i8;

    open spec fn garble_rel(self, out: i8) -> bool {
        true
    }

    open spec fn id_rel(self, out: i8) -> bool {
        out == self
    }

    open spec fn flat_rel(self, out: i8) -> bool {
        out == 0
    }

    open spec fn trace(self) -> Seq<Leaf> {
        seq![Leaf::I8(self)]
    }

    open spec fn trace_exact(self) -> bool {
        true
    }

    open spec fn seed_known(self) -> bool {
        true
    }

    open spec fn out_eq(a: i8, b: i8) -> bool {
        a == b
    }

    open spec fn seed_rel(self, s: u64, out: i8, s2: u64) -> bool {
        s2 == churn(s) && Leaf::I8(out) == seed_out(s, Leaf::I8(self))
    }

    proof fn seed_functional(self, s: u64, o1: i8, s1: u64, o2: i8, s2: u64) {
    }

    open spec fn seed_after(self, s: u64) -> u64 {
        churn(s)
    }

    proof fn seed_after_ok(self, s: u64, out: i8, s2: u64) {
    }

    fn garble<G: Garbler>(self, garbler: &mut G) -> (out: i8) {
        proof {
            lemma_prefix_push(garbler.log(), Leaf::I8(self));
            lemma_push_is_concat(garbler.log(), Leaf::I8(self));
        }
        garbler.garble_i8(self)
    }
}

impl Garble for i16 {
    type Output = i16;

    open spec fn garble_rel(self, out: i16) -> bool {
        true
    }

    open spec fn id_rel(self, out: i16) -> bool {
        out == self
    }

    open spec fn flat_rel(self, out: i16) -> bool {
        out == 0
    }

    open spec fn trace(self) -> Seq<Leaf> {
        seq![Leaf::I16(self)]
    }

    open spec fn trace_exact(self) -> bool {
        true
    }

    open spec fn seed_known(self) -> bool {
        true
    }

    open spec fn out_eq(a: i16, b: i16) -> bool {
        a == b
    }

    open spec fn seed_rel(self, s: u64, out: i16, s2: u64) -> bool {
        s2 == churn(s) && Leaf::I16(out) == seed_out(s, Leaf::I16(self))
    }

    proof fn seed_functional(self, s: u64, o1: i16, s1: u64, o2: i16, s2: u64) {
    }

    open spec fn seed_after(self, s: u64) -> u64 {
        churn(s)
    }

    proof fn seed_after_ok(self, s: u64, out: i16, s2: u64) {
    }

    fn garble<G: Garbler>(self, garbler: &mut G) -> (out: i16) {
        proof {
            lemma_prefix_push(garbler.log(), Leaf::I16(self));
            lemma_push_is_concat(garbler.log(), Leaf::I16(self));
        }
        garbler.garble_i16(self)
    }
}

impl Garble for i32 {
    type Output = i32;

    open spec fn garble_rel(self, out: i32) -> bool {
        true
    }

    open spec fn id_rel(self, out: i32) -> bool {
        out == self
    }

    open spec fn flat_rel(self, out: i32) -> bool {
        out == 0
    }

    open spec fn trace(self) -> Seq<Leaf> {
        seq![Leaf::I32(self)]
    }

    open spec fn trace_exact(self) -> bool {
        true
    }

    open spec fn seed_known(self) -> bool {
        true
    }

    open spec fn out_eq(a: i32, b: i32) -> bool {
        a == b
    }

    open spec fn seed_rel(self, s: u64, out: i32, s2: u64) -> bool {
        s2 == churn(s) && Leaf::I32(out) == seed_out(s, Leaf::I32(self))
    }

    proof fn seed_functional(self, s: u64, o1: i32, s1: u64, o2: i32, s2: u64) {
    }

    open spec fn seed_after(self, s: u64) -> u64 {
        churn(s)
    }

    proof fn seed_after_ok(self, s: u64, out: i32, s2: u64) {
    }

    fn garble<G: Garbler>(self, garbler: &mut G) -> (out: i32) {
        proof {
            lemma_prefix_push(garbler.log(), Leaf::I32(self));
            lemma_push_is_concat(garbler.log(), Leaf::I32(self));
        }
        garbler.garble_i32(self)
    }
}

impl Garble for i64 {
    type Output = i64;

    open spec fn garble_rel(self, out: i64) -> bool {
        true
    }

    open spec fn id_rel(self, out: i64) -> bool {
        out == self
    }

    open spec fn flat_rel(self, out: i64) -> bool {
        out == 0
    }

    open spec fn trace(self) -> Seq<Leaf> {
        seq![Leaf::I64(self)]
    }

    open spec fn trace_exact(self) -> bool {
        true
    }

    open spec fn seed_known(self) -> bool {
        true
    }

    open spec fn out_eq(a: i64, b: i64) -> bool {
        a == b
    }

    open spec fn seed_rel(self, s: u64, out: i64, s2: u64) -> bool {
        s2 == churn(s) && Leaf::I64(out) == seed_out(s, Leaf::I64(self))
    }

    proof fn seed_functional(self, s: u64, o1: i64, s1: u64, o2: i64, s2: u64) {
    }

    open spec fn seed_after(self, s: u64) -> u64 {
        churn(s)
    }

    proof fn seed_after_ok(self, s: u64, out: i64, s2: u64) {
    }

    fn garble<G: Garbler>(self, garbler: &mut G) -> (out: i64) {
        proof {
            lemma_prefix_push(garbler.log(), Leaf::I64(self));
            lemma_push_is_concat(garbler.log(), Leaf::I64(self));
        }
        garbler.garble_i64(self)
    }
}

impl Garble for i128 {
    type Output = i128;

    open spec fn garble_rel(self, out: i128) -> bool {
        true
    }

    open spec fn id_rel(self, out: i128) -> bool {
        out == self
    }

    open spec fn flat_rel(self, out: i128) -> bool {
        out == 0
    }

    open spec fn trace(self) -> Seq<Leaf> {
        seq![Leaf::I128(self)]
    }

    open spec fn trace_exact(self) -> bool {
        true
    }

    open spec fn seed_known(self) -> bool {
        true
    }

    open spec fn out_eq(a: i128, b: i128) -> bool {
        a == b
    }

    open spec fn seed_rel(self, s: u64, out: i128, s2: u64) -> bool {
        s2 == churn(s) && Leaf::I128(out) == seed_out(s, Leaf::I128(self))
    }

    proof fn seed_functional(self, s: u64, o1: i128, s1: u64, o2: i128, s2: u64) {
    }

    open spec fn seed_after(self, s: u64) -> u64 {
        churn(s)
    }

    proof fn seed_after_ok(self, s: u64, out: i128, s2: u64) {
    }

    fn garble<G: Garbler>(self, garbler: &mut G) -> (out: i128) {
        proof {
            lemma_prefix_push(garbler.log(), Leaf::I128(self));
            lemma_push_is_concat(garbler.log(), Leaf::I128(self));
        }
        garbler.garble_i128(self)
    }
}

impl Garble for isize {
    type Output = isize;

    open spec fn garble_rel(self, out: isize) -> bool {
        true
    }

    open spec fn id_rel(self, out: isize) -> bool {
        out == self
    }

    open spec fn flat_rel(self, out: isize) -> bool {
        out == 0
    }

    open spec fn trace(self) -> Seq<Leaf> {
        seq![Leaf::Isize(self)]
    }

    open spec fn trace_exact(self) -> bool {
        true
    }

    open spec fn seed_known(self) -> bool {
        true
    }

    open spec fn out_eq(a: isize, b: isize) -> bool {
        a == b
    }

    open spec fn seed_rel(self, s: u64, out: isize, s2: u64) -> bool {
        s2 == churn(s) && Leaf::Isize(out) == seed_out(s, Leaf::Isize(self))
    }

    proof fn seed_functional(self, s: u64, o1: isize, s1: u64, o2: isize, s2: u64) {
    }

    open spec fn seed_after(self, s: u64) -> u64 {
        churn(s)
    }

    proof fn seed_after_ok(self, s: u64, out: isize, s2: u64) {
    }

    fn garble<G: Garbler>(self, garbler: &mut G) -> (out: isize) {
        proof {
            lemma_prefix_push(garbler.log(), Leaf::Isize(self));
            lemma_push_is_concat(garbler.log(), Leaf::Isize(self));
        }
        garbler.garble_isize(self)
    }
}

// An owned string is a leaf: the whole text is handed to the strategy in one
// call, and some owned string comes back.
impl Garble for String {
    type Output = String;

    open spec fn garble_rel(self, out: String) -> bool {
        true
    }

    open spec fn id_rel(self, out: String) -> bool {
        out@ == self@
    }

    open spec fn flat_rel(self, out: String) -> bool {
        out@ == Seq::<char>::empty()
    }

    open spec fn trace(self) -> Seq<Leaf> {
        seq![Leaf::Str(self@)]
    }

    open spec fn trace_exact(self) -> bool {
        true
    }

    open spec fn seed_known(self) -> bool {
        true
    }

    open spec fn out_eq(a: String, b: String) -> bool {
        a@ == b@
    }

    open spec fn seed_rel(self, s: u64, out: String, s2: u64) -> bool {
        s2 == churn(s) && Leaf::Str(out@) == seed_out(s, Leaf::Str(self@))
    }

    proof fn seed_functional(self, s: u64, o1: String, s1: u64, o2: String, s2: u64) {
    }

    open spec fn seed_after(self, s: u64) -> u64 {
        churn(s)
    }

    proof fn seed_after_ok(self, s: u64, out: String, s2: u64) {
    }

    fn garble<G: Garbler>(self, garbler: &mut G) -> (out: String) {
        proof {
            lemma_prefix_push(garbler.log(), Leaf::Str(self@));
            lemma_push_is_concat(garbler.log(), Leaf::Str(self@));
        }
        garbler.garble_str(self.as_str())
    }
}

// A borrowed string garbles into an owned string.
impl<'a> Garble for &'a str {
    type Output = String;

    open spec fn garble_rel(self, out: String) -> bool {
        true
    }

    open spec fn id_rel(self, out: String) -> bool {
        out@ == self@
    }

    open spec fn flat_rel(self, out: String) -> bool {
        out@ == Seq::<char>::empty()
    }

    open spec fn trace(self) -> Seq<Leaf> {
        seq![Leaf::Str(self@)]
    }

    open spec fn trace_exact(self) -> bool {
        true
    }

    open spec fn seed_known(self) -> bool {
        true
    }

    open spec fn out_eq(a: String, b: String) -> bool {
        a@ == b@
    }

    open spec fn seed_rel(self, s: u64, out: String, s2: u64) -> bool {
        s2 == churn(s) && Leaf::Str(out@) == seed_out(s, Leaf::Str(self@))
    }

    proof fn seed_functional(self, s: u64, o1: String, s1: u64, o2: String, s2: u64) {
    }

    open spec fn seed_after(self, s: u64) -> u64 {
        churn(s)
    }

    proof fn seed_after_ok(self, s: u64, out: String, s2: u64) {
    }

    fn garble<G: Garbler>(self, garbler: &mut G) -> (out: String) {
        proof {
            lemma_prefix_push(garbler.log(), Leaf::Str(self@));
            lemma_push_is_concat(garbler.log(), Leaf::Str(self@));
        }
        garbler.garble_str(self)
    }
}

// The empty tuple has no leaves: garbling it is the identity and makes no
// strategy call.
impl Garble for () {
    type Output = ();

    open spec fn garble_rel(self, out: ()) -> bool {
        true
    }

    open spec fn id_rel(self, out: ()) -> bool {
        true
    }

    open spec fn flat_rel(self, out: ()) -> bool {
        true
    }

    open spec fn trace(self) -> Seq<Leaf> {
        Seq::empty()
    }

    open spec fn trace_exact(self) -> bool {
        true
    }

    open spec fn seed_known(self) -> bool {
        true
    }

    open spec fn out_eq(a: (), b: ()) -> bool {
        true
    }

    open spec fn seed_rel(self, s: u64, out: (), s2: u64) -> bool {
        s2 == s
    }

    proof fn seed_functional(self, s: u64, o1: (), s1: u64, o2: (), s2: u64) {
    }

    open spec fn seed_after(self, s: u64) -> u64 {
        s
    }

    proof fn seed_after_ok(self, s: u64, out: (), s2: u64) {
    }

    fn garble<G: Garbler>(self, garbler: &mut G) -> (out: ()) {
        proof {
            lemma_prefix_concat(garbler.log(), Seq::<Leaf>::empty());
            lemma_concat_empty(garbler.log());
        }
    }
}

// A phantom marker holds no data: garbling returns it untouched.
impl<T> Garble for core::marker::PhantomData<T> {
    type Output = core::marker::PhantomData<T>;

    open spec fn garble_rel(self, out: core::marker::PhantomData<T>) -> bool {
        true
    }

    open spec fn id_rel(self, out: core::marker::PhantomData<T>) -> bool {
        out == self
    }

    open spec fn flat_rel(self, out: core::marker::PhantomData<T>) -> bool {
        out == self
    }

    open spec fn trace(self) -> Seq<Leaf> {
        Seq::empty()
    }

    open spec fn trace_exact(self) -> bool {
        true
    }

    open spec fn seed_known(self) -> bool {
        true
    }

    open spec fn out_eq(a: core::marker::PhantomData<T>, b: core::marker::PhantomData<T>) -> bool {
        a == b
    }

    open spec fn seed_rel(self, s: u64, out: core::marker::PhantomData<T>, s2: u64) -> bool {
        s2 == s && out == self
    }

    proof fn seed_functional(
        self,
        s: u64,
        o1: core::marker::PhantomData<T>,
        s1: u64,
        o2: core::marker::PhantomData<T>,
        s2: u64,
    ) {
    }

    open spec fn seed_after(self, s: u64) -> u64 {
        s
    }

    proof fn seed_after_ok(self, s: u64, out: core::marker::PhantomData<T>, s2: u64) {
    }

    fn garble<G: Garbler>(self, garbler: &mut G) -> (out: core::marker::PhantomData<T>) {
        proof {
            lemma_prefix_concat(garbler.log(), Seq::<Leaf>::empty());
            lemma_concat_empty(garbler.log());
        }
        self
    }
}

// A borrowed value garbles by copying it out first. The copy bound is what
// lets the verifier relate the garbled result to the borrowed original.
impl<'a, T: Garble + Copy> Garble for &'a T {
    type Output = T::Output;

    open spec fn garble_rel(self, out: T::Output) -> bool {
        (*self).garble_rel(out)
    }

    open spec fn id_rel(self, out: T::Output) -> bool {
        (*self).id_rel(out)
    }

    open spec fn flat_rel(self, out: T::Output) -> bool {
        (*self).flat_rel(out)
    }

    open spec fn trace(self) -> Seq<Leaf> {
        (*self).trace()
    }

    open spec fn trace_exact(self) -> bool {
        (*self).trace_exact()
    }

    open spec fn seed_known(self) -> bool {
        (*self).seed_known()
    }

    open spec fn out_eq(a: T::Output, b: T::Output) -> bool {
        T::out_eq(a, b)
    }

    open spec fn seed_rel(self, s: u64, out: T::Output, s2: u64) -> bool {
        (*self).seed_rel(s, out, s2)
    }

    proof fn seed_functional(self, s: u64, o1: T::Output, s1: u64, o2: T::Output, s2: u64) {
        (*self).seed_functional(s, o1, s1, o2, s2);
    }

    open spec fn seed_after(self, s: u64) -> u64 {
        (*self).seed_after(s)
    }

    proof fn seed_after_ok(self, s: u64, out: T::Output, s2: u64) {
        (*self).seed_after_ok(s, out, s2);
    }

    fn garble<G: Garbler>(self, garbler: &mut G) -> (out: T::Output) {
        (*self).garble(garbler)
    }
}

// An optional garbles into an optional: presence is preserved, a present
// value garbles recursively.
impl<T: Garble> Garble for Option<T> {
    type Output = Option<T::Output>;

    open spec fn garble_rel(self, out: Option<T::Output>) -> bool {
        match self {
            Some(v) => out is Some && v.garble_rel(out->0),
            None => out is None,
        }
    }

    open spec fn id_rel(self, out: Option<T::Output>) -> bool {
        match self {
            Some(v) => out is Some && v.id_rel(out->0),
            None => out is None,
        }
    }

    open spec fn flat_rel(self, out: Option<T::Output>) -> bool {
        match self {
            Some(v) => out is Some && v.flat_rel(out->0),
            None => out is None,
        }
    }

    open spec fn trace(self) -> Seq<Leaf> {
        match self {
            Some(v) => v.trace(),
            None => Seq::empty(),
        }
    }

    open spec fn trace_exact(self) -> bool {
        match self {
            Some(v) => v.trace_exact(),
            None => true,
        }
    }

    open spec fn seed_known(self) -> bool {
        match self {
            Some(v) => v.seed_known(),
            None => true,
        }
    }

    open spec fn out_eq(a: Option<T::Output>, b: Option<T::Output>) -> bool {
        match (a, b) {
            (Some(x), Some(y)) => T::out_eq(x, y),
            (None, None) => true,
            _ => false,
        }
    }

    open spec fn seed_rel(self, s: u64, out: Option<T::Output>, s2: u64) -> bool {
        match self {
            Some(v) => out is Some && v.seed_rel(s, out->0, s2),
            None => out is None && s2 == s,
        }
    }

    proof fn seed_functional(
        self,
        s: u64,
        o1: Option<T::Output>,
        s1: u64,
        o2: Option<T::Output>,
        s2: u64,
    ) {
        match self {
            Some(v) => {
                v.seed_functional(s, o1->0, s1, o2->0, s2);
            },
            None => {},
        }
    }

    open spec fn seed_after(self, s: u64) -> u64 {
        match self {
            Some(v) => v.seed_after(s),
            None => s,
        }
    }

    proof fn seed_after_ok(self, s: u64, out: Option<T::Output>, s2: u64) {
        match self {
            Some(v) => {
                v.seed_after_ok(s, out->0, s2);
            },
            None => {},
        }
    }

    fn garble<G: Garbler>(self, garbler: &mut G) -> (out: Option<T::Output>) {
        match self {
            Some(v) => Some(v.garble(garbler)),
            None => {
                proof {
                    lemma_prefix_concat(garbler.log(), Seq::<Leaf>::empty());
                    lemma_concat_empty(garbler.log());
                }
                None
            },
        }
    }
}

// A result garbles into a result: the inhabited side is preserved and its
// value garbles recursively.
impl<T: Garble, E: Garble> Garble for Result<T, E> {
    type Output = Result<T::Output, E::Output>;

    open spec fn garble_rel(self, out: Result<T::Output, E::Output>) -> bool {
        match self {
            Ok(v) => out is Ok && v.garble_rel(out->Ok_0),
            Err(e) => out is Err && e.garble_rel(out->Err_0),
        }
    }

    open spec fn id_rel(self, out: Result<T::Output, E::Output>) -> bool {
        match self {
            Ok(v) => out is Ok && v.id_rel(out->Ok_0),
            Err(e) => out is Err && e.id_rel(out->Err_0),
        }
    }

    open spec fn flat_rel(self, out: Result<T::Output, E::Output>) -> bool {
        match self {
            Ok(v) => out is Ok && v.flat_rel(out->Ok_0),
            Err(e) => out is Err && e.flat_rel(out->Err_0),
        }
    }

    open spec fn trace(self) -> Seq<Leaf> {
        match self {
            Ok(v) => v.trace(),
            Err(e) => e.trace(),
        }
    }

    open spec fn trace_exact(self) -> bool {
        match self {
            Ok(v) => v.trace_exact(),
            Err(e) => e.trace_exact(),
        }
    }

    open spec fn seed_known(self) -> bool {
        match self {
            Ok(v) => v.seed_known(),
            Err(e) => e.seed_known(),
        }
    }

    open spec fn out_eq(a: Result<T::Output, E::Output>, b: Result<T::Output, E::Output>) -> bool {
        match (a, b) {
            (Ok(x), Ok(y)) => T::out_eq(x, y),
            (Err(x), Err(y)) => E::out_eq(x, y),
            _ => false,
        }
    }

    open spec fn seed_rel(self, s: u64, out: Result<T::Output, E::Output>, s2: u64) -> bool {
        match self {
            Ok(v) => out is Ok && v.seed_rel(s, out->Ok_0, s2),
            Err(e) => out is Err && e.seed_rel(s, out->Err_0, s2),
        }
    }

    proof fn seed_functional(
        self,
        s: u64,
        o1: Result<T::Output, E::Output>,
        s1: u64,
        o2: Result<T::Output, E::Output>,
        s2: u64,
    ) {
        match self {
            Ok(v) => {
                v.seed_functional(s, o1->Ok_0, s1, o2->Ok_0, s2);
            },
            Err(e) => {
                e.seed_functional(s, o1->Err_0, s1, o2->Err_0, s2);
            },
        }
    }

    open spec fn seed_after(self, s: u64) -> u64 {
        match self {
            Ok(v) => v.seed_after(s),
            Err(e) => e.seed_after(s),
        }
    }

    proof fn seed_after_ok(self, s: u64, out: Result<T::Output, E::Output>, s2: u64) {
        match self {
            Ok(v) => {
                v.seed_after_ok(s, out->Ok_0, s2);
            },
            Err(e) => {
                e.seed_after_ok(s, out->Err_0, s2);
            },
        }
    }

    fn garble<G: Garbler>(self, garbler: &mut G) -> (out: Result<T::Output, E::Output>) {
        match self {
            Ok(v) => Ok(v.garble(garbler)),
            Err(e) => Err(e.garble(garbler)),
        }
    }
}

} // verus!
