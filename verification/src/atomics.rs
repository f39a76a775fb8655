use crate::garble::Garble;
use crate::garbler::{churn, seed_out, Garbler};
use crate::leaf::{lemma_prefix_push, lemma_push_is_concat, Leaf};
use core::sync::atomic::{AtomicBool, AtomicI16, AtomicI32, AtomicI64, AtomicI8, AtomicIsize};
use core::sync::atomic::{AtomicU16, AtomicU32, AtomicU64, AtomicU8, AtomicUsize};
use vstd::prelude::*;

verus! {

// Atomic wrappers garble by reduction to their underlying leaf: the value is
// consumed, read out, handed to the strategy, and a fresh atomic is built
// from the answer. The values here are uniquely owned, so the reads need no
// synchronization.
// The names below stand for the value a uniquely-owned atomic holds. The
// library receives its atomics by value, reads them once and never writes
// them in place, so over every call it makes the held value is a function
// of the owned atomic.
/// The boolean a uniquely-owned atomic boolean holds.
pub uninterp spec fn atomic_bool_value(a: AtomicBool) -> bool;

/// The integer a uniquely-owned atomic integer holds.
pub uninterp spec fn atomic_u32_value(a: AtomicU32) -> u32;

/// Relies on AtomicBool::new: creates an atomic holding the given value.
#[verifier::external_body]
fn atomic_bool_new(v: bool) -> (r: AtomicBool)
    ensures
        atomic_bool_value(r) == v,
{
    AtomicBool::new(v)
}

/// Relies on AtomicBool::into_inner: consumes the atomic and returns the
/// value it held.
#[verifier::external_body]
fn atomic_bool_into_inner(a: AtomicBool) -> (r: bool)
    ensures
        r == atomic_bool_value(a),
{
    a.into_inner()
}

/// Relies on AtomicU32::new: creates an atomic holding the given value.
#[verifier::external_body]
fn atomic_u32_new(v: u32) -> (r: AtomicU32)
    ensures
        atomic_u32_value(r) == v,
{
    AtomicU32::new(v)
}

/// Relies on AtomicU32::into_inner: consumes the atomic and returns the
/// value it held.
#[verifier::external_body]
fn atomic_u32_into_inner(a: AtomicU32) -> (r: u32)
    ensures
        r == atomic_u32_value(a),
{
    a.into_inner()
}

impl Garble for AtomicBool {
    type Output = AtomicBool;

    open spec fn garble_rel(self, out: AtomicBool) -> bool {
        true
    }

    open spec fn id_rel(self, out: AtomicBool) -> bool {
        atomic_bool_value(out) == atomic_bool_value(self)
    }

    open spec fn flat_rel(self, out: AtomicBool) -> bool {
        atomic_bool_value(out) == false
    }

    open spec fn trace(self) -> Seq<Leaf> {
        seq![Leaf::Bool(atomic_bool_value(self))]
    }

    open spec fn trace_exact(self) -> bool {
        true
    }

    open spec fn seed_known(self) -> bool {
        true
    }

    open spec fn out_eq(a: AtomicBool, b: AtomicBool) -> bool {
        atomic_bool_value(a) == atomic_bool_value(b)
    }

    open spec fn seed_rel(self, s: u64, out: AtomicBool, s2: u64) -> bool {
        s2 == churn(s) && Leaf::Bool(atomic_bool_value(out)) == seed_out(
            s,
            Leaf::Bool(atomic_bool_value(self)),
        )
    }

    proof fn seed_functional(self, s: u64, o1: AtomicBool, s1: u64, o2: AtomicBool, s2: u64) {
    }

    open spec fn seed_after(self, s: u64) -> u64 {
        churn(s)
    }

    proof fn seed_after_ok(self, s: u64, out: AtomicBool, s2: u64) {
    }

    fn garble<G: Garbler>(self, garbler: &mut G) -> (out: AtomicBool) {
        proof {
            lemma_prefix_push(garbler.log(), Leaf::Bool(atomic_bool_value(self)));
            lemma_push_is_concat(garbler.log(), Leaf::Bool(atomic_bool_value(self)));
        }
        let v = atomic_bool_into_inner(self);
        atomic_bool_new(garbler.garble_bool(v))
    }
}

impl Garble for AtomicU32 {
    type Output = AtomicU32;

    open spec fn garble_rel(self, out: AtomicU32) -> bool {
        true
    }

    open spec fn id_rel(self, out: AtomicU32) -> bool {
        atomic_u32_value(out) == atomic_u32_value(self)
    }

    open spec fn flat_rel(self, out: AtomicU32) -> bool {
        atomic_u32_value(out) == 0
    }

    open spec fn trace(self) -> Seq<Leaf> {
        seq![Leaf::U32(atomic_u32_value(self))]
    }

    open spec fn trace_exact(self) -> bool {
        true
    }

    open spec fn seed_known(self) -> bool {
        true
    }

    open spec fn out_eq(a: AtomicU32, b: AtomicU32) -> bool {
        atomic_u32_value(a) == atomic_u32_value(b)
    }

    open spec fn seed_rel(self, s: u64, out: AtomicU32, s2: u64) -> bool {
        s2 == churn(s) && Leaf::U32(atomic_u32_value(out)) == seed_out(
            s,
            Leaf::U32(atomic_u32_value(self)),
        )
    }

    proof fn seed_functional(self, s: u64, o1: AtomicU32, s1: u64, o2: AtomicU32, s2: u64) {
    }

    open spec fn seed_after(self, s: u64) -> u64 {
        churn(s)
    }

    proof fn seed_after_ok(self, s: u64, out: AtomicU32, s2: u64) {
    }

    fn garble<G: Garbler>(self, garbler: &mut G) -> (out: AtomicU32) {
        proof {
            lemma_prefix_push(garbler.log(), Leaf::U32(atomic_u32_value(self)));
            lemma_push_is_concat(garbler.log(), Leaf::U32(atomic_u32_value(self)));
        }
        let v = atomic_u32_into_inner(self);
        atomic_u32_new(garbler.garble_u32(v))
    }
}

/// The integer a uniquely-owned `AtomicU8` holds.
pub uninterp spec fn atomic_u8_value(a: AtomicU8) -> u8;

/// Relies on AtomicU8::new: creates an atomic holding the given value.
#[verifier::external_body]
fn atomic_u8_new(v: u8) -> (r: AtomicU8)
    ensures
        atomic_u8_value(r) == v,
{
    AtomicU8::new(v)
}

/// Relies on AtomicU8::into_inner: consumes the atomic and returns the
/// value it held.
#[verifier::external_body]
fn atomic_u8_into_inner(a: AtomicU8) -> (r: u8)
    ensures
        r == atomic_u8_value(a),
{
    a.into_inner()
}

impl Garble for AtomicU8 {
    type Output = AtomicU8;

    open spec fn garble_rel(self, out: AtomicU8) -> bool {
        true
    }

    open spec fn id_rel(self, out: AtomicU8) -> bool {
        atomic_u8_value(out) == atomic_u8_value(self)
    }

    open spec fn flat_rel(self, out: AtomicU8) -> bool {
        atomic_u8_value(out) == 0
    }

    open spec fn trace(self) -> Seq<Leaf> {
        seq![Leaf::U8(atomic_u8_value(self))]
    }

    open spec fn trace_exact(self) -> bool {
        true
    }

    open spec fn seed_known(self) -> bool {
        true
    }

    open spec fn out_eq(a: AtomicU8, b: AtomicU8) -> bool {
        atomic_u8_value(a) == atomic_u8_value(b)
    }

    open spec fn seed_rel(self, s: u64, out: AtomicU8, s2: u64) -> bool {
        s2 == churn(s) && Leaf::U8(atomic_u8_value(out)) == seed_out(
            s,
            Leaf::U8(atomic_u8_value(self)),
        )
    }

    proof fn seed_functional(self, s: u64, o1: AtomicU8, s1: u64, o2: AtomicU8, s2: u64) {
    }

    open spec fn seed_after(self, s: u64) -> u64 {
        churn(s)
    }

    proof fn seed_after_ok(self, s: u64, out: AtomicU8, s2: u64) {
    }

    fn garble<G: Garbler>(self, garbler: &mut G) -> (out: AtomicU8) {
        proof {
            lemma_prefix_push(garbler.log(), Leaf::U8(atomic_u8_value(self)));
            lemma_push_is_concat(garbler.log(), Leaf::U8(atomic_u8_value(self)));
        }
        let v = atomic_u8_into_inner(self);
        atomic_u8_new(garbler.garble_u8(v))
    }
}

/// The integer a uniquely-owned `AtomicU16` holds.
pub uninterp spec fn atomic_u16_value(a: AtomicU16) -> u16;

/// Relies on AtomicU16::new: creates an atomic holding the given value.
#[verifier::external_body]
fn atomic_u16_new(v: u16) -> (r: AtomicU16)
    ensures
        atomic_u16_value(r) == v,
{
    AtomicU16::new(v)
}

/// Relies on AtomicU16::into_inner: consumes the atomic and returns the
/// value it held.
#[verifier::external_body]
fn atomic_u16_into_inner(a: AtomicU16) -> (r: u16)
    ensures
        r == atomic_u16_value(a),
{
    a.into_inner()
}

impl Garble for AtomicU16 {
    type Output = AtomicU16;

    open spec fn garble_rel(self, out: AtomicU16) -> bool {
        true
    }

    open spec fn id_rel(self, out: AtomicU16) -> bool {
        atomic_u16_value(out) == atomic_u16_value(self)
    }

    open spec fn flat_rel(self, out: AtomicU16) -> bool {
        atomic_u16_value(out) == 0
    }

    open spec fn trace(self) -> Seq<Leaf> {
        seq![Leaf::U16(atomic_u16_value(self))]
    }

    open spec fn trace_exact(self) -> bool {
        true
    }

    open spec fn seed_known(self) -> bool {
        true
    }

    open spec fn out_eq(a: AtomicU16, b: AtomicU16) -> bool {
        atomic_u16_value(a) == atomic_u16_value(b)
    }

    open spec fn seed_rel(self, s: u64, out: AtomicU16, s2: u64) -> bool {
        s2 == churn(s) && Leaf::U16(atomic_u16_value(out)) == seed_out(
            s,
            Leaf::U16(atomic_u16_value(self)),
        )
    }

    proof fn seed_functional(self, s: u64, o1: AtomicU16, s1: u64, o2: AtomicU16, s2: u64) {
    }

    open spec fn seed_after(self, s: u64) -> u64 {
        churn(s)
    }

    proof fn seed_after_ok(self, s: u64, out: AtomicU16, s2: u64) {
    }

    fn garble<G: Garbler>(self, garbler: &mut G) -> (out: AtomicU16) {
        proof {
            lemma_prefix_push(garbler.log(), Leaf::U16(atomic_u16_value(self)));
            lemma_push_is_concat(garbler.log(), Leaf::U16(atomic_u16_value(self)));
        }
        let v = atomic_u16_into_inner(self);
        atomic_u16_new(garbler.garble_u16(v))
    }
}

/// The integer a uniquely-owned `AtomicU64` holds.
pub uninterp spec fn atomic_u64_value(a: AtomicU64) -> u64;

/// Relies on AtomicU64::new: creates an atomic holding the given value.
#[verifier::external_body]
fn atomic_u64_new(v: u64) -> (r: AtomicU64)
    ensures
        atomic_u64_value(r) == v,
{
    AtomicU64::new(v)
}

/// Relies on AtomicU64::into_inner: consumes the atomic and returns the
/// value it held.
#[verifier::external_body]
fn atomic_u64_into_inner(a: AtomicU64) -> (r: u64)
    ensures
        r == atomic_u64_value(a),
{
    a.into_inner()
}

impl Garble for AtomicU64 {
    type Output = AtomicU64;

    open spec fn garble_rel(self, out: AtomicU64) -> bool {
        true
    }

    open spec fn id_rel(self, out: AtomicU64) -> bool {
        atomic_u64_value(out) == atomic_u64_value(self)
    }

    open spec fn flat_rel(self, out: AtomicU64) -> bool {
        atomic_u64_value(out) == 0
    }

    open spec fn trace(self) -> Seq<Leaf> {
        seq![Leaf::U64(atomic_u64_value(self))]
    }

    open spec fn trace_exact(self) -> bool {
        true
    }

    open spec fn seed_known(self) -> bool {
        true
    }

    open spec fn out_eq(a: AtomicU64, b: AtomicU64) -> bool {
        atomic_u64_value(a) == atomic_u64_value(b)
    }

    open spec fn seed_rel(self, s: u64, out: AtomicU64, s2: u64) -> bool {
        s2 == churn(s) && Leaf::U64(atomic_u64_value(out)) == seed_out(
            s,
            Leaf::U64(atomic_u64_value(self)),
        )
    }

    proof fn seed_functional(self, s: u64, o1: AtomicU64, s1: u64, o2: AtomicU64, s2: u64) {
    }

    open spec fn seed_after(self, s: u64) -> u64 {
        churn(s)
    }

    proof fn seed_after_ok(self, s: u64, out: AtomicU64, s2: u64) {
    }

    fn garble<G: Garbler>(self, garbler: &mut G) -> (out: AtomicU64) {
        proof {
            lemma_prefix_push(garbler.log(), Leaf::U64(atomic_u64_value(self)));
            lemma_push_is_concat(garbler.log(), Leaf::U64(atomic_u64_value(self)));
        }
        let v = atomic_u64_into_inner(self);
        atomic_u64_new(garbler.garble_u64(v))
    }
}

/// The integer a uniquely-owned `AtomicUsize` holds.
pub uninterp spec fn atomic_usize_value(a: AtomicUsize) -> usize;

/// Relies on AtomicUsize::new: creates an atomic holding the given value.
#[verifier::external_body]
fn atomic_usize_new(v: usize) -> (r: AtomicUsize)
    ensures
        atomic_usize_value(r) == v,
{
    AtomicUsize::new(v)
}

/// Relies on AtomicUsize::into_inner: consumes the atomic and returns the
/// value it held.
#[verifier::external_body]
fn atomic_usize_into_inner(a: AtomicUsize) -> (r: usize)
    ensures
        r == atomic_usize_value(a),
{
    a.into_inner()
}

impl Garble for AtomicUsize {
    type Output = AtomicUsize;

    open spec fn garble_rel(self, out: AtomicUsize) -> bool {
        true
    }

    open spec fn id_rel(self, out: AtomicUsize) -> bool {
        atomic_usize_value(out) == atomic_usize_value(self)
    }

    open spec fn flat_rel(self, out: AtomicUsize) -> bool {
        atomic_usize_value(out) == 0
    }

    open spec fn trace(self) -> Seq<Leaf> {
        seq![Leaf::Usize(atomic_usize_value(self))]
    }

    open spec fn trace_exact(self) -> bool {
        true
    }

    open spec fn seed_known(self) -> bool {
        true
    }

    open spec fn out_eq(a: AtomicUsize, b: AtomicUsize) -> bool {
        atomic_usize_value(a) == atomic_usize_value(b)
    }

    open spec fn seed_rel(self, s: u64, out: AtomicUsize, s2: u64) -> bool {
        s2 == churn(s) && Leaf::Usize(atomic_usize_value(out)) == seed_out(
            s,
            Leaf::Usize(atomic_usize_value(self)),
        )
    }

    proof fn seed_functional(self, s: u64, o1: AtomicUsize, s1: u64, o2: AtomicUsize, s2: u64) {
    }

    open spec fn seed_after(self, s: u64) -> u64 {
        churn(s)
    }

    proof fn seed_after_ok(self, s: u64, out: AtomicUsize, s2: u64) {
    }

    fn garble<G: Garbler>(self, garbler: &mut G) -> (out: AtomicUsize) {
        proof {
            lemma_prefix_push(garbler.log(), Leaf::Usize(atomic_usize_value(self)));
            lemma_push_is_concat(garbler.log(), Leaf::Usize(atomic_usize_value(self)));
        }
        let v = atomic_usize_into_inner(self);
        atomic_usize_new(garbler.garble_usize(v))
    }
}

/// The integer a uniquely-owned `AtomicI8` holds.
pub uninterp spec fn atomic_i8_value(a: AtomicI8) -> i8;

/// Relies on AtomicI8::new: creates an atomic holding the given value.
#[verifier::external_body]
fn atomic_i8_new(v: i8) -> (r: AtomicI8)
    ensures
        atomic_i8_value(r) == v,
{
    AtomicI8::new(v)
}

/// Relies on AtomicI8::into_inner: consumes the atomic and returns the
/// value it held.
#[verifier::external_body]
fn atomic_i8_into_inner(a: AtomicI8) -> (r: i8)
    ensures
        r == atomic_i8_value(a),
{
    a.into_inner()
}

impl Garble for AtomicI8 {
    type Output = AtomicI8;

    open spec fn garble_rel(self, out: AtomicI8) -> bool {
        true
    }

    open spec fn id_rel(self, out: AtomicI8) -> bool {
        atomic_i8_value(out) == atomic_i8_value(self)
    }

    open spec fn flat_rel(self, out: AtomicI8) -> bool {
        atomic_i8_value(out) == 0
    }

    open spec fn trace(self) -> Seq<Leaf> {
        seq![Leaf::I8(atomic_i8_value(self))]
    }

    open spec fn trace_exact(self) -> bool {
        true
    }

    open spec fn seed_known(self) -> bool {
        true
    }

    open spec fn out_eq(a: AtomicI8, b: AtomicI8) -> bool {
        atomic_i8_value(a) == atomic_i8_value(b)
    }

    open spec fn seed_rel(self, s: u64, out: AtomicI8, s2: u64) -> bool {
        s2 == churn(s) && Leaf::I8(atomic_i8_value(out)) == seed_out(
            s,
            Leaf::I8(atomic_i8_value(self)),
        )
    }

    proof fn seed_functional(self, s: u64, o1: AtomicI8, s1: u64, o2: AtomicI8, s2: u64) {
    }

    open spec fn seed_after(self, s: u64) -> u64 {
        churn(s)
    }

    proof fn seed_after_ok(self, s: u64, out: AtomicI8, s2: u64) {
    }

    fn garble<G: Garbler>(self, garbler: &mut G) -> (out: AtomicI8) {
        proof {
            lemma_prefix_push(garbler.log(), Leaf::I8(atomic_i8_value(self)));
            lemma_push_is_concat(garbler.log(), Leaf::I8(atomic_i8_value(self)));
        }
        let v = atomic_i8_into_inner(self);
        atomic_i8_new(garbler.garble_i8(v))
    }
}

/// The integer a uniquely-owned `AtomicI16` holds.
pub uninterp spec fn atomic_i16_value(a: AtomicI16) -> i16;

/// Relies on AtomicI16::new: creates an atomic holding the given value.
#[verifier::external_body]
fn atomic_i16_new(v: i16) -> (r: AtomicI16)
    ensures
        atomic_i16_value(r) == v,
{
    AtomicI16::new(v)
}

/// Relies on AtomicI16::into_inner: consumes the atomic and returns the
/// value it held.
#[verifier::external_body]
fn atomic_i16_into_inner(a: AtomicI16) -> (r: i16)
    ensures
        r == atomic_i16_value(a),
{
    a.into_inner()
}

impl Garble for AtomicI16 {
    type Output = AtomicI16;

    open spec fn garble_rel(self, out: AtomicI16) -> bool {
        true
    }

    open spec fn id_rel(self, out: AtomicI16) -> bool {
        atomic_i16_value(out) == atomic_i16_value(self)
    }

    open spec fn flat_rel(self, out: AtomicI16) -> bool {
        atomic_i16_value(out) == 0
    }

    open spec fn trace(self) -> Seq<Leaf> {
        seq![Leaf::I16(atomic_i16_value(self))]
    }

    open spec fn trace_exact(self) -> bool {
        true
    }

    open spec fn seed_known(self) -> bool {
        true
    }

    open spec fn out_eq(a: AtomicI16, b: AtomicI16) -> bool {
        atomic_i16_value(a) == atomic_i16_value(b)
    }

    open spec fn seed_rel(self, s: u64, out: AtomicI16, s2: u64) -> bool {
        s2 == churn(s) && Leaf::I16(atomic_i16_value(out)) == seed_out(
            s,
            Leaf::I16(atomic_i16_value(self)),
        )
    }

    proof fn seed_functional(self, s: u64, o1: AtomicI16, s1: u64, o2: AtomicI16, s2: u64) {
    }

    open spec fn seed_after(self, s: u64) -> u64 {
        churn(s)
    }

    proof fn seed_after_ok(self, s: u64, out: AtomicI16, s2: u64) {
    }

    fn garble<G: Garbler>(self, garbler: &mut G) -> (out: AtomicI16) {
        proof {
            lemma_prefix_push(garbler.log(), Leaf::I16(atomic_i16_value(self)));
            lemma_push_is_concat(garbler.log(), Leaf::I16(atomic_i16_value(self)));
        }
        let v = atomic_i16_into_inner(self);
        atomic_i16_new(garbler.garble_i16(v))
    }
}

/// The integer a uniquely-owned `AtomicI32` holds.
pub uninterp spec fn atomic_i32_value(a: AtomicI32) -> i32;

/// Relies on AtomicI32::new: creates an atomic holding the given value.
#[verifier::external_body]
fn atomic_i32_new(v: i32) -> (r: AtomicI32)
    ensures
        atomic_i32_value(r) == v,
{
    AtomicI32::new(v)
}

/// Relies on AtomicI32::into_inner: consumes the atomic and returns the
/// value it held.
#[verifier::external_body]
fn atomic_i32_into_inner(a: AtomicI32) -> (r: i32)
    ensures
        r == atomic_i32_value(a),
{
    a.into_inner()
}

impl Garble for AtomicI32 {
    type Output = AtomicI32;

    open spec fn garble_rel(self, out: AtomicI32) -> bool {
        true
    }

    open spec fn id_rel(self, out: AtomicI32) -> bool {
        atomic_i32_value(out) == atomic_i32_value(self)
    }

    open spec fn flat_rel(self, out: AtomicI32) -> bool {
        atomic_i32_value(out) == 0
    }

    open spec fn trace(self) -> Seq<Leaf> {
        seq![Leaf::I32(atomic_i32_value(self))]
    }

    open spec fn trace_exact(self) -> bool {
        true
    }

    open spec fn seed_known(self) -> bool {
        true
    }

    open spec fn out_eq(a: AtomicI32, b: AtomicI32) -> bool {
        atomic_i32_value(a) == atomic_i32_value(b)
    }

    open spec fn seed_rel(self, s: u64, out: AtomicI32, s2: u64) -> bool {
        s2 == churn(s) && Leaf::I32(atomic_i32_value(out)) == seed_out(
            s,
            Leaf::I32(atomic_i32_value(self)),
        )
    }

    proof fn seed_functional(self, s: u64, o1: AtomicI32, s1: u64, o2: AtomicI32, s2: u64) {
    }

    open spec fn seed_after(self, s: u64) -> u64 {
        churn(s)
    }

    proof fn seed_after_ok(self, s: u64, out: AtomicI32, s2: u64) {
    }

    fn garble<G: Garbler>(self, garbler: &mut G) -> (out: AtomicI32) {
        proof {
            lemma_prefix_push(garbler.log(), Leaf::I32(atomic_i32_value(self)));
            lemma_push_is_concat(garbler.log(), Leaf::I32(atomic_i32_value(self)));
        }
        let v = atomic_i32_into_inner(self);
        atomic_i32_new(garbler.garble_i32(v))
    }
}

/// The integer a uniquely-owned `AtomicI64` holds.
pub uninterp spec fn atomic_i64_value(a: AtomicI64) -> i64;

/// Relies on AtomicI64::new: creates an atomic holding the given value.
#[verifier::external_body]
fn atomic_i64_new(v: i64) -> (r: AtomicI64)
    ensures
        atomic_i64_value(r) == v,
{
    AtomicI64::new(v)
}

/// Relies on AtomicI64::into_inner: consumes the atomic and returns the
/// value it held.
#[verifier::external_body]
fn atomic_i64_into_inner(a: AtomicI64) -> (r: i64)
    ensures
        r == atomic_i64_value(a),
{
    a.into_inner()
}

impl Garble for AtomicI64 {
    type Output = AtomicI64;

    open spec fn garble_rel(self, out: AtomicI64) -> bool {
        true
    }

    open spec fn id_rel(self, out: AtomicI64) -> bool {
        atomic_i64_value(out) == atomic_i64_value(self)
    }

    open spec fn flat_rel(self, out: AtomicI64) -> bool {
        atomic_i64_value(out) == 0
    }

    open spec fn trace(self) -> Seq<Leaf> {
        seq![Leaf::I64(atomic_i64_value(self))]
    }

    open spec fn trace_exact(self) -> bool {
        true
    }

    open spec fn seed_known(self) -> bool {
        true
    }

    open spec fn out_eq(a: AtomicI64, b: AtomicI64) -> bool {
        atomic_i64_value(a) == atomic_i64_value(b)
    }

    open spec fn seed_rel(self, s: u64, out: AtomicI64, s2: u64) -> bool {
        s2 == churn(s) && Leaf::I64(atomic_i64_value(out)) == seed_out(
            s,
            Leaf::I64(atomic_i64_value(self)),
        )
    }

    proof fn seed_functional(self, s: u64, o1: AtomicI64, s1: u64, o2: AtomicI64, s2: u64) {
    }

    open spec fn seed_after(self, s: u64) -> u64 {
        churn(s)
    }

    proof fn seed_after_ok(self, s: u64, out: AtomicI64, s2: u64) {
    }

    fn garble<G: Garbler>(self, garbler: &mut G) -> (out: AtomicI64) {
        proof {
            lemma_prefix_push(garbler.log(), Leaf::I64(atomic_i64_value(self)));
            lemma_push_is_concat(garbler.log(), Leaf::I64(atomic_i64_value(self)));
        }
        let v = atomic_i64_into_inner(self);
        atomic_i64_new(garbler.garble_i64(v))
    }
}

/// The integer a uniquely-owned `AtomicIsize` holds.
pub uninterp spec fn atomic_isize_value(a: AtomicIsize) -> isize;

/// Relies on AtomicIsize::new: creates an atomic holding the given value.
#[verifier::external_body]
fn atomic_isize_new(v: isize) -> (r: AtomicIsize)
    ensures
        atomic_isize_value(r) == v,
{
    AtomicIsize::new(v)
}

/// Relies on AtomicIsize::into_inner: consumes the atomic and returns the
/// value it held.
#[verifier::external_body]
fn atomic_isize_into_inner(a: AtomicIsize) -> (r: isize)
    ensures
        r == atomic_isize_value(a),
{
    a.into_inner()
}

impl Garble for AtomicIsize {
    type Output = AtomicIsize;

    open spec fn garble_rel(self, out: AtomicIsize) -> bool {
        true
    }

    open spec fn id_rel(self, out: AtomicIsize) -> bool {
        atomic_isize_value(out) == atomic_isize_value(self)
    }

    open spec fn flat_rel(self, out: AtomicIsize) -> bool {
        atomic_isize_value(out) == 0
    }

    open spec fn trace(self) -> Seq<Leaf> {
        seq![Leaf::Isize(atomic_isize_value(self))]
    }

    open spec fn trace_exact(self) -> bool {
        true
    }

    open spec fn seed_known(self) -> bool {
        true
    }

    open spec fn out_eq(a: AtomicIsize, b: AtomicIsize) -> bool {
        atomic_isize_value(a) == atomic_isize_value(b)
    }

    open spec fn seed_rel(self, s: u64, out: AtomicIsize, s2: u64) -> bool {
        s2 == churn(s) && Leaf::Isize(atomic_isize_value(out)) == seed_out(
            s,
            Leaf::Isize(atomic_isize_value(self)),
        )
    }

    proof fn seed_functional(self, s: u64, o1: AtomicIsize, s1: u64, o2: AtomicIsize, s2: u64) {
    }

    open spec fn seed_after(self, s: u64) -> u64 {
        churn(s)
    }

    proof fn seed_after_ok(self, s: u64, out: AtomicIsize, s2: u64) {
    }

    fn garble<G: Garbler>(self, garbler: &mut G) -> (out: AtomicIsize) {
        proof {
            lemma_prefix_push(garbler.log(), Leaf::Isize(atomic_isize_value(self)));
            lemma_push_is_concat(garbler.log(), Leaf::Isize(atomic_isize_value(self)));
        }
        let v = atomic_isize_into_inner(self);
        atomic_isize_new(garbler.garble_isize(v))
    }
}

} // verus!
