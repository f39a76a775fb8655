use crate::garble::Garble;
use crate::leaf::Leaf;
use vstd::prelude::*;

verus! {

/// The state update of the canonical seeded strategy: an exclusive-or
/// shift scramble of the seed.
pub open spec fn churn(s: u64) -> u64 {
    (s ^ (s << 13)) ^ (s >> 7)
}

/// The Unicode scalar after `c`, or `'g'` where the successor is no scalar.
pub open spec fn next_scalar(c: char) -> char {
    if c as u32 == 0xD7FF || c as u32 == 0x10FFFF {
        'g'
    } else {
        ((c as u32 + 1) as char)
    }
}

/// The answer of the canonical seeded strategy with seed `s` to the leaf
/// call `c`: an odd seed perturbs (exclusive-or with the seed for integers,
/// negation for booleans only when the seed is odd, successor scalars for
/// characters and text), an even seed keeps the value.
pub open spec fn seed_out(s: u64, c: Leaf) -> Leaf {
    let hot = s % 2 == 1;
    match c {
        Leaf::Bool(v) => Leaf::Bool(v != hot),
        Leaf::Char(v) => Leaf::Char(
            if hot {
                next_scalar(v)
            } else {
                v
            },
        ),
        Leaf::U8(v) => Leaf::U8(v ^ (s as u8)),
        Leaf::U16(v) => Leaf::U16(v ^ (s as u16)),
        Leaf::U32(v) => Leaf::U32(v ^ (s as u32)),
        Leaf::U64(v) => Leaf::U64(v ^ s),
        Leaf::U128(v) => Leaf::U128(v ^ (s as u128)),
        Leaf::Usize(v) => Leaf::Usize(v ^ (s as usize)),
        Leaf::I8(v) => Leaf::I8(v ^ (s as i8)),
        Leaf::I16(v) => Leaf::I16(v ^ (s as i16)),
        Leaf::I32(v) => Leaf::I32(v ^ (s as i32)),
        Leaf::I64(v) => Leaf::I64(v ^ (s as i64)),
        Leaf::I128(v) => Leaf::I128(v ^ (s as i128)),
        Leaf::Isize(v) => Leaf::Isize(v ^ (s as isize)),
        Leaf::Str(v) => Leaf::Str(
            if hot {
                v.map_values(|ch: char| next_scalar(ch))
            } else {
                v
            },
        ),
    }
}

/// A strategy that knows how to perturb each leaf type.
///
/// Every method takes a leaf value and returns a value of the same leaf type
/// (a borrowed string garbles into an owned one). Strategies are total: no
/// method may panic or signal an error; one that cannot perturb a value
/// returns it unchanged.
///
/// Four groups of specification members describe a strategy as a whole:
///
/// - [`Garbler::keeps`]: the strategy returns every leaf unchanged, and keeps
///   doing so after any call.
/// - [`Garbler::logs`] and [`Garbler::log`]: the strategy records its leaf
///   calls; each per-leaf method then appends exactly one [`Leaf`] to the log.
///   This pins down the traversal-order guarantee: during one garbling, leaf
///   calls happen in the deterministic order stated by [`Garble::trace`].
/// - [`Garbler::flattens`]: the strategy returns the flat constant of every
///   leaf — zero, false, a space, the empty string — and keeps doing so.
/// - [`Garbler::follows_seed`] and [`Garbler::seed_state`]: the strategy is
///   deterministically seeded; each per-leaf answer is then [`seed_out`] of
///   the current seed and the call, and the seed advances by [`churn`], which
///   is what makes repeated garbling from one seed reproducible.
pub trait Garbler: Sized {
    /// True when this strategy returns every leaf value unchanged, now and
    /// after any number of calls.
    spec fn keeps(self) -> bool;

    /// True when this strategy records its leaf calls in [`Garbler::log`].
    spec fn logs(self) -> bool;

    /// The leaf calls this strategy has answered so far, oldest first.
    spec fn log(self) -> Seq<Leaf>;

    /// True when this strategy flattens every leaf — integers to zero,
    /// booleans to false, characters to a space, strings to the empty
    /// string — now and after any number of calls.
    spec fn flattens(self) -> bool;

    /// True when this strategy is deterministically seeded: every per-leaf
    /// answer is [`seed_out`] of the current seed and the call, and each
    /// call advances the seed by [`churn`].
    spec fn follows_seed(self) -> bool;

    /// The current seed of a deterministically seeded strategy.
    spec fn seed_state(self) -> u64;

    fn garble_bool(&mut self, value: bool) -> (r: bool)
        ensures
            old(self).keeps() ==> final(self).keeps() && r == value,
            old(self).logs() ==> final(self).logs() && final(self).log() == old(self).log().push(
                Leaf::Bool(value),
            ),
            old(self).follows_seed() ==> final(self).follows_seed() && final(self).seed_state()
                == churn(old(self).seed_state()) && Leaf::Bool(r) == seed_out(
                old(self).seed_state(),
                Leaf::Bool(value),
            ),
            old(self).flattens() ==> final(self).flattens() && r == false,
    ;

    fn garble_char(&mut self, value: char) -> (r: char)
        ensures
            old(self).keeps() ==> final(self).keeps() && r == value,
            old(self).logs() ==> final(self).logs() && final(self).log() == old(self).log().push(
                Leaf::Char(value),
            ),
            old(self).follows_seed() ==> final(self).follows_seed() && final(self).seed_state()
                == churn(old(self).seed_state()) && Leaf::Char(r) == seed_out(
                old(self).seed_state(),
                Leaf::Char(value),
            ),
            old(self).flattens() ==> final(self).flattens() && r == ' ',
    ;

    fn garble_u8(&mut self, value: u8) -> (r: u8)
        ensures
            old(self).keeps() ==> final(self).keeps() && r == value,
            old(self).logs() ==> final(self).logs() && final(self).log() == old(self).log().push(
                Leaf::U8(value),
            ),
            old(self).follows_seed() ==> final(self).follows_seed() && final(self).seed_state()
                == churn(old(self).seed_state()) && Leaf::U8(r) == seed_out(
                old(self).seed_state(),
                Leaf::U8(value),
            ),
            old(self).flattens() ==> final(self).flattens() && r == 0,
    ;

    fn garble_u16(&mut self, value: u16) -> (r: u16)
        ensures
            old(self).keeps() ==> final(self).keeps() && r == value,
            old(self).logs() ==> final(self).logs() && final(self).log() == old(self).log().push(
                Leaf::U16(value),
            ),
            old(self).follows_seed() ==> final(self).follows_seed() && final(self).seed_state()
                == churn(old(self).seed_state()) && Leaf::U16(r) == seed_out(
                old(self).seed_state(),
                Leaf::U16(value),
            ),
            old(self).flattens() ==> final(self).flattens() && r == 0,
    ;

    fn garble_u32(&mut self, value: u32) -> (r: u32)
        ensures
            old(self).keeps() ==> final(self).keeps() && r == value,
            old(self).logs() ==> final(self).logs() && final(self).log() == old(self).log().push(
                Leaf::U32(value),
            ),
            old(self).follows_seed() ==> final(self).follows_seed() && final(self).seed_state()
                == churn(old(self).seed_state()) && Leaf::U32(r) == seed_out(
                old(self).seed_state(),
                Leaf::U32(value),
            ),
            old(self).flattens() ==> final(self).flattens() && r == 0,
    ;

    fn garble_u64(&mut self, value: u64) -> (r: u64)
        ensures
            old(self).keeps() ==> final(self).keeps() && r == value,
            old(self).logs() ==> final(self).logs() && final(self).log() == old(self).log().push(
                Leaf::U64(value),
            ),
            old(self).follows_seed() ==> final(self).follows_seed() && final(self).seed_state()
                == churn(old(self).seed_state()) && Leaf::U64(r) == seed_out(
                old(self).seed_state(),
                Leaf::U64(value),
            ),
            old(self).flattens() ==> final(self).flattens() && r == 0,
    ;

    fn garble_u128(&mut self, value: u128) -> (r: u128)
        ensures
            old(self).keeps() ==> final(self).keeps() && r == value,
            old(self).logs() ==> final(self).logs() && final(self).log() == old(self).log().push(
                Leaf::U128(value),
            ),
            old(self).follows_seed() ==> final(self).follows_seed() && final(self).seed_state()
                == churn(old(self).seed_state()) && Leaf::U128(r) == seed_out(
                old(self).seed_state(),
                Leaf::U128(value),
            ),
            old(self).flattens() ==> final(self).flattens() && r == 0,
    ;

    fn garble_usize(&mut self, value: usize) -> (r: usize)
        ensures
            old(self).keeps() ==> final(self).keeps() && r == value,
            old(self).logs() ==> final(self).logs() && final(self).log() == old(self).log().push(
                Leaf::Usize(value),
            ),
            old(self).follows_seed() ==> final(self).follows_seed() && final(self).seed_state()
                == churn(old(self).seed_state()) && Leaf::Usize(r) == seed_out(
                old(self).seed_state(),
                Leaf::Usize(value),
            ),
            old(self).flattens() ==> final(self).flattens() && r == 0,
    ;

    fn garble_i8(&mut self, value: i8) -> (r: i8)
        ensures
            old(self).keeps() ==> final(self).keeps() && r == value,
            old(self).logs() ==> final(self).logs() && final(self).log() == old(self).log().push(
                Leaf::I8(value),
            ),
            old(self).follows_seed() ==> final(self).follows_seed() && final(self).seed_state()
                == churn(old(self).seed_state()) && Leaf::I8(r) == seed_out(
                old(self).seed_state(),
                Leaf::I8(value),
            ),
            old(self).flattens() ==> final(self).flattens() && r == 0,
    ;

    fn garble_i16(&mut self, value: i16) -> (r: i16)
        ensures
            old(self).keeps() ==> final(self).keeps() && r == value,
            old(self).logs() ==> final(self).logs() && final(self).log() == old(self).log().push(
                Leaf::I16(value),
            ),
            old(self).follows_seed() ==> final(self).follows_seed() && final(self).seed_state()
                == churn(old(self).seed_state()) && Leaf::I16(r) == seed_out(
                old(self).seed_state(),
                Leaf::I16(value),
            ),
            old(self).flattens() ==> final(self).flattens() && r == 0,
    ;

    fn garble_i32(&mut self, value: i32) -> (r: i32)
        ensures
            old(self).keeps() ==> final(self).keeps() && r == value,
            old(self).logs() ==> final(self).logs() && final(self).log() == old(self).log().push(
                Leaf::I32(value),
            ),
            old(self).follows_seed() ==> final(self).follows_seed() && final(self).seed_state()
                == churn(old(self).seed_state()) && Leaf::I32(r) == seed_out(
                old(self).seed_state(),
                Leaf::I32(value),
            ),
            old(self).flattens() ==> final(self).flattens() && r == 0,
    ;

    fn garble_i64(&mut self, value: i64) -> (r: i64)
        ensures
            old(self).keeps() ==> final(self).keeps() && r == value,
            old(self).logs() ==> final(self).logs() && final(self).log() == old(self).log().push(
                Leaf::I64(value),
            ),
            old(self).follows_seed() ==> final(self).follows_seed() && final(self).seed_state()
                == churn(old(self).seed_state()) && Leaf::I64(r) == seed_out(
                old(self).seed_state(),
                Leaf::I64(value),
            ),
            old(self).flattens() ==> final(self).flattens() && r == 0,
    ;

    fn garble_i128(&mut self, value: i128) -> (r: i128)
        ensures
            old(self).keeps() ==> final(self).keeps() && r == value,
            old(self).logs() ==> final(self).logs() && final(self).log() == old(self).log().push(
                Leaf::I128(value),
            ),
            old(self).follows_seed() ==> final(self).follows_seed() && final(self).seed_state()
                == churn(old(self).seed_state()) && Leaf::I128(r) == seed_out(
                old(self).seed_state(),
                Leaf::I128(value),
            ),
            old(self).flattens() ==> final(self).flattens() && r == 0,
    ;

    fn garble_isize(&mut self, value: isize) -> (r: isize)
        ensures
            old(self).keeps() ==> final(self).keeps() && r == value,
            old(self).logs() ==> final(self).logs() && final(self).log() == old(self).log().push(
                Leaf::Isize(value),
            ),
            old(self).follows_seed() ==> final(self).follows_seed() && final(self).seed_state()
                == churn(old(self).seed_state()) && Leaf::Isize(r) == seed_out(
                old(self).seed_state(),
                Leaf::Isize(value),
            ),
            old(self).flattens() ==> final(self).flattens() && r == 0,
    ;

    fn garble_str(&mut self, value: &str) -> (r: String)
        ensures
            old(self).keeps() ==> final(self).keeps() && r@ == value@,
            old(self).logs() ==> final(self).logs() && final(self).log() == old(self).log().push(
                Leaf::Str(value@),
            ),
            old(self).follows_seed() ==> final(self).follows_seed() && final(self).seed_state()
                == churn(old(self).seed_state()) && Leaf::Str(r@) == seed_out(
                old(self).seed_state(),
                Leaf::Str(value@),
            ),
            old(self).flattens() ==> final(self).flattens() && r@ == Seq::<char>::empty(),
    ;
}

/// Convenience entry point: garble any garblable value with the given
/// strategy. Equivalent to calling [`Garble::garble`], so callers can write
/// strategy-first code without importing the capability by name.
pub fn garble_any<G: Garbler, T: Garble>(garbler: &mut G, value: T) -> (out: T::Output)
    ensures
        value.garble_rel(out),
        old(garbler).keeps() ==> final(garbler).keeps() && value.id_rel(out),
        old(garbler).logs() ==> final(garbler).logs() && old(garbler).log().is_prefix_of(
            final(garbler).log(),
        ) && (value.trace_exact() ==> final(garbler).log() == old(garbler).log() + value.trace()),
        old(garbler).follows_seed() ==> final(garbler).follows_seed() && (value.seed_known()
            ==> value.seed_rel(old(garbler).seed_state(), out, final(garbler).seed_state())),
        old(garbler).flattens() ==> final(garbler).flattens() && value.flat_rel(out),
{
    value.garble(garbler)
}

} // verus!

mod log;
mod seeded;
mod pass;
mod simple;
mod zero;
pub use log::{LeafRec, LogGarbler};
pub use pass::PassGarbler;
pub use seeded::SeedGarbler;
pub use simple::SimpleGarbler;
pub use zero::ZeroGarbler;
