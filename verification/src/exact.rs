use crate::garble::Garble;
use crate::garbler::seed_out;
use crate::leaf::Leaf;
use vstd::prelude::*;

verus! {

/// Exact, verifier-visible equality.
///
/// The set and map containers deduplicate by the mathematical value (the
/// view) of their members. This capability supplies the executable test the
/// containers call, ties it to view equality, and records that such a type
/// garbles to its own type and, under a keeping strategy, to a value with
/// the same view.
pub trait ExactEq: Garble<Output = Self> + View + Sized {
    /// Executable equality test, agreeing with view equality.
    fn same(&self, other: &Self) -> (r: bool)
        ensures
            r == (self@ == other@),
    ;

    /// Under a keeping strategy, garbling preserves the view.
    proof fn id_rel_view(self, out: Self)
        requires
            self.id_rel(out),
        ensures
            out@ == self@,
    ;

    /// The view of this value's garbling under the canonical seeded
    /// strategy, as a function of the starting seed.
    spec fn seed_view(self, s: u64) -> Self::V;

    /// Where this type's seeded relation is pinned, the garbled value's
    /// view is exactly [`ExactEq::seed_view`].
    proof fn seed_view_ok(self, s: u64, out: Self, s2: u64)
        requires
            self.seed_known(),
            self.seed_rel(s, out, s2),
        ensures
            out@ == self.seed_view(s),
    ;
}

impl ExactEq for bool {
    fn same(&self, other: &Self) -> (r: bool) {
        *self == *other
    }

    proof fn id_rel_view(self, out: Self) {
    }

    open spec fn seed_view(self, s: u64) -> bool {
        match seed_out(s, Leaf::Bool(self)) {
            Leaf::Bool(n) => n,
            _ => self,
        }
    }

    proof fn seed_view_ok(self, s: u64, out: Self, s2: u64) {
    }
}

impl ExactEq for char {
    fn same(&self, other: &Self) -> (r: bool) {
        *self == *other
    }

    proof fn id_rel_view(self, out: Self) {
    }

    open spec fn seed_view(self, s: u64) -> char {
        match seed_out(s, Leaf::Char(self)) {
            Leaf::Char(n) => n,
            _ => self,
        }
    }

    proof fn seed_view_ok(self, s: u64, out: Self, s2: u64) {
    }
}

impl ExactEq for u8 {
    fn same(&self, other: &Self) -> (r: bool) {
        *self == *other
    }

    proof fn id_rel_view(self, out: Self) {
    }

    open spec fn seed_view(self, s: u64) -> u8 {
        match seed_out(s, Leaf::U8(self)) {
            Leaf::U8(n) => n,
            _ => self,
        }
    }

    proof fn seed_view_ok(self, s: u64, out: Self, s2: u64) {
    }
}

impl ExactEq for u16 {
    fn same(&self, other: &Self) -> (r: bool) {
        *self == *other
    }

    proof fn id_rel_view(self, out: Self) {
    }

    open spec fn seed_view(self, s: u64) -> u16 {
        match seed_out(s, Leaf::U16(self)) {
            Leaf::U16(n) => n,
            _ => self,
        }
    }

    proof fn seed_view_ok(self, s: u64, out: Self, s2: u64) {
    }
}

impl ExactEq for u32 {
    fn same(&self, other: &Self) -> (r: bool) {
        *self == *other
    }

    proof fn id_rel_view(self, out: Self) {
    }

    open spec fn seed_view(self, s: u64) -> u32 {
        match seed_out(s, Leaf::U32(self)) {
            Leaf::U32(n) => n,
            _ => self,
        }
    }

    proof fn seed_view_ok(self, s: u64, out: Self, s2: u64) {
    }
}

impl ExactEq for u64 {
    fn same(&self, other: &Self) -> (r: bool) {
        *self == *other
    }

    proof fn id_rel_view(self, out: Self) {
    }

    open spec fn seed_view(self, s: u64) -> u64 {
        match seed_out(s, Leaf::U64(self)) {
            Leaf::U64(n) => n,
            _ => self,
        }
    }

    proof fn seed_view_ok(self, s: u64, out: Self, s2: u64) {
    }
}

impl ExactEq for u128 {
    fn same(&self, other: &Self) -> (r: bool) {
        *self == *other
    }

    proof fn id_rel_view(self, out: Self) {
    }

    open spec fn seed_view(self, s: u64) -> u128 {
        match seed_out(s, Leaf::U128(self)) {
            Leaf::U128(n) => n,
            _ => self,
        }
    }

    proof fn seed_view_ok(self, s: u64, out: Self, s2: u64) {
    }
}

impl ExactEq for usize {
    fn same(&self, other: &Self) -> (r: bool) {
        *self == *other
    }

    proof fn id_rel_view(self, out: Self) {
    }

    open spec fn seed_view(self, s: u64) -> usize {
        match seed_out(s, Leaf::Usize(self)) {
            Leaf::Usize(n) => n,
            _ => self,
        }
    }

    proof fn seed_view_ok(self, s: u64, out: Self, s2: u64) {
    }
}

impl ExactEq for i8 {
    fn same(&self, other: &Self) -> (r: bool) {
        *self == *other
    }

    proof fn id_rel_view(self, out: Self) {
    }

    open spec fn seed_view(self, s: u64) -> i8 {
        match seed_out(s, Leaf::I8(self)) {
            Leaf::I8(n) => n,
            _ => self,
        }
    }

    proof fn seed_view_ok(self, s: u64, out: Self, s2: u64) {
    }
}

impl ExactEq for i16 {
    fn same(&self, other: &Self) -> (r: bool) {
        *self == *other
    }

    proof fn id_rel_view(self, out: Self) {
    }

    open spec fn seed_view(self, s: u64) -> i16 {
        match seed_out(s, Leaf::I16(self)) {
            Leaf::I16(n) => n,
            _ => self,
        }
    }

    proof fn seed_view_ok(self, s: u64, out: Self, s2: u64) {
    }
}

impl ExactEq for i32 {
    fn same(&self, other: &Self) -> (r: bool) {
        *self == *other
    }

    proof fn id_rel_view(self, out: Self) {
    }

    open spec fn seed_view(self, s: u64) -> i32 {
        match seed_out(s, Leaf::I32(self)) {
            Leaf::I32(n) => n,
            _ => self,
        }
    }

    proof fn seed_view_ok(self, s: u64, out: Self, s2: u64) {
    }
}

impl ExactEq for i64 {
    fn same(&self, other: &Self) -> (r: bool) {
        *self == *other
    }

    proof fn id_rel_view(self, out: Self) {
    }

    open spec fn seed_view(self, s: u64) -> i64 {
        match seed_out(s, Leaf::I64(self)) {
            Leaf::I64(n) => n,
            _ => self,
        }
    }

    proof fn seed_view_ok(self, s: u64, out: Self, s2: u64) {
    }
}

impl ExactEq for i128 {
    fn same(&self, other: &Self) -> (r: bool) {
        *self == *other
    }

    proof fn id_rel_view(self, out: Self) {
    }

    open spec fn seed_view(self, s: u64) -> i128 {
        match seed_out(s, Leaf::I128(self)) {
            Leaf::I128(n) => n,
            _ => self,
        }
    }

    proof fn seed_view_ok(self, s: u64, out: Self, s2: u64) {
    }
}

impl ExactEq for isize {
    fn same(&self, other: &Self) -> (r: bool) {
        *self == *other
    }

    proof fn id_rel_view(self, out: Self) {
    }

    open spec fn seed_view(self, s: u64) -> isize {
        match seed_out(s, Leaf::Isize(self)) {
            Leaf::Isize(n) => n,
            _ => self,
        }
    }

    proof fn seed_view_ok(self, s: u64, out: Self, s2: u64) {
    }
}

impl ExactEq for String {
    fn same(&self, other: &Self) -> (r: bool) {
        String::eq(self, other)
    }

    proof fn id_rel_view(self, out: Self) {
    }

    open spec fn seed_view(self, s: u64) -> Seq<char> {
        match seed_out(s, Leaf::Str(self@)) {
            Leaf::Str(t) => t,
            _ => self@,
        }
    }

    proof fn seed_view_ok(self, s: u64, out: Self, s2: u64) {
    }
}

} // verus!
