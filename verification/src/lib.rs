//! Data-garbling library for fault injection.
//!
//! Takes a typed, structured value and returns a value of the same shape in
//! which the leaf fields have been perturbed according to a pluggable
//! strategy. Composite types (optionals, results, sequences, sets, maps,
//! tuples, user aggregates) recurse structurally into their children; fields
//! wrapped in the opt-out envelope pass through unchanged.

mod addr;
mod aggregates;
mod arrays;
mod atomics;
mod collections;
mod cstr;
mod exact;
mod garble;
mod garbler;
mod heap;
mod impls;
pub mod laws;
mod leaf;
mod nogarble;
mod nonzero;
mod seqs;
mod strutil;
mod tuples;

pub use crate::addr::{Ip4Addr, Ip6Addr, SockAddr4, SockAddr6};
pub use crate::aggregates::{Holder, Inline, MyEnum, MyStruct, Named};
pub use crate::atomics::{atomic_bool_value, atomic_i16_value, atomic_i32_value, atomic_i64_value};
pub use crate::atomics::{atomic_i8_value, atomic_isize_value, atomic_u16_value, atomic_u32_value};
pub use crate::atomics::{atomic_u64_value, atomic_u8_value, atomic_usize_value};
pub use crate::collections::{GMap, GSet};
pub use crate::cstr::CStrBytes;
pub use crate::heap::GHeap;
pub use crate::exact::ExactEq;
pub use crate::garble::Garble;
pub use crate::garbler::Garbler;
pub use crate::garbler::{churn, garble_any, next_scalar, seed_out, LeafRec, LogGarbler, PassGarbler, SeedGarbler, SimpleGarbler, ZeroGarbler};
pub use crate::leaf::Leaf;
pub use crate::nogarble::NoGarble;
pub use crate::nonzero::{NonZeroI128, NonZeroI16, NonZeroI32, NonZeroI64, NonZeroI8, NonZeroIsize};
pub use crate::nonzero::{NonZeroU128, NonZeroU16, NonZeroU32, NonZeroU64, NonZeroU8, NonZeroUsize};
