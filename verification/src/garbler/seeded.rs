use crate::garbler::{churn, next_scalar, Garbler};
use crate::leaf::Leaf;
use crate::strutil::{char_from_u32, push_char};
use vstd::prelude::*;
use vstd::string::StrSliceExecFns;

verus! {

/// A deterministically seeded strategy.
///
/// Every per-leaf answer is a function of the current seed and the input
/// alone, and the seed advances by [`churn`] on each call, so garbling the
/// same value twice from the same seed yields the same output; the exact
/// contracts on the per-leaf methods state the answers.
#[derive(Debug, Clone, PartialEq, Eq, Structural)]
pub struct SeedGarbler {
    seed: u64,
}

impl SeedGarbler {
    /// The current seed.
    pub closed spec fn seed(self) -> u64 {
        self.seed
    }

    /// Whether the current seed perturbs: odd seeds do, even seeds do not.
    pub open spec fn hot(self) -> bool {
        self.seed() % 2 == 1
    }

    /// Determinism under a seed: two seeded strategies with the same seed
    /// are the same value, and each per-leaf answer is, by its contract, a
    /// function of the seed and the input alone, so garbling equal inputs
    /// from equal seeds yields equal outputs.
    pub proof fn same_seed_same_strategy(a: SeedGarbler, b: SeedGarbler)
        requires
            a.seed() == b.seed(),
        ensures
            a == b,
    {
    }

    /// Create a strategy from the given seed.
    pub fn new(seed: u64) -> (r: SeedGarbler)
        ensures
            r.seed() == seed,
    {
        SeedGarbler { seed }
    }

    fn advance(&mut self)
        ensures
            final(self).seed() == churn(old(self).seed()),
    {
        self.seed = (self.seed ^ (self.seed << 13)) ^ (self.seed >> 7);
    }
}

impl Garbler for SeedGarbler {
    open spec fn keeps(self) -> bool {
        false
    }

    open spec fn logs(self) -> bool {
        false
    }

    open spec fn log(self) -> Seq<Leaf> {
        Seq::empty()
    }

    open spec fn flattens(self) -> bool {
        false
    }

    open spec fn follows_seed(self) -> bool {
        true
    }

    open spec fn seed_state(self) -> u64 {
        self.seed()
    }

    fn garble_bool(&mut self, value: bool) -> (r: bool)
        ensures
            final(self).seed() == churn(old(self).seed()),
            r == (value != old(self).hot()),
    {
        let flip: bool = self.seed % 2 == 1;
        self.advance();
        value != flip
    }

    fn garble_char(&mut self, value: char) -> (r: char)
        ensures
            final(self).seed() == churn(old(self).seed()),
            r == (if old(self).hot() {
                next_scalar(value)
            } else {
                value
            }),
    {
        let hot: bool = self.seed % 2 == 1;
        self.advance();
        if hot {
            let u = value as u32;
            proof {
                vstd::utf8::char_is_scalar(value);
            }
            if u == 0xD7FF || u == 0x10FFFF {
                'g'
            } else {
                let r = char_from_u32(u + 1);
                match r {
                    Some(c) => {
                        proof {
                            vstd::utf8::char_u32_cast(c, (u + 1) as u32);
                            assert(c == next_scalar(value));
                        }
                        c
                    },
                    None => 'g',
                }
            }
        } else {
            value
        }
    }

    fn garble_u8(&mut self, value: u8) -> (r: u8)
        ensures
            final(self).seed() == churn(old(self).seed()),
            r == (value ^ (old(self).seed() as u8)),
    {
        let mask = self.seed as u8;
        self.advance();
        value ^ mask
    }

    fn garble_u16(&mut self, value: u16) -> (r: u16)
        ensures
            final(self).seed() == churn(old(self).seed()),
            r == (value ^ (old(self).seed() as u16)),
    {
        let mask = self.seed as u16;
        self.advance();
        value ^ mask
    }

    fn garble_u32(&mut self, value: u32) -> (r: u32)
        ensures
            final(self).seed() == churn(old(self).seed()),
            r == (value ^ (old(self).seed() as u32)),
    {
        let mask = self.seed as u32;
        self.advance();
        value ^ mask
    }

    fn garble_u64(&mut self, value: u64) -> (r: u64)
        ensures
            final(self).seed() == churn(old(self).seed()),
            r == (value ^ (old(self).seed() as u64)),
    {
        let mask = self.seed as u64;
        self.advance();
        value ^ mask
    }

    fn garble_u128(&mut self, value: u128) -> (r: u128)
        ensures
            final(self).seed() == churn(old(self).seed()),
            r == (value ^ (old(self).seed() as u128)),
    {
        let mask = self.seed as u128;
        self.advance();
        value ^ mask
    }

    fn garble_usize(&mut self, value: usize) -> (r: usize)
        ensures
            final(self).seed() == churn(old(self).seed()),
            r == (value ^ (old(self).seed() as usize)),
    {
        let mask = self.seed as usize;
        self.advance();
        value ^ mask
    }

    fn garble_i8(&mut self, value: i8) -> (r: i8)
        ensures
            final(self).seed() == churn(old(self).seed()),
            r == (value ^ (old(self).seed() as i8)),
    {
        let mask = self.seed as i8;
        self.advance();
        value ^ mask
    }

    fn garble_i16(&mut self, value: i16) -> (r: i16)
        ensures
            final(self).seed() == churn(old(self).seed()),
            r == (value ^ (old(self).seed() as i16)),
    {
        let mask = self.seed as i16;
        self.advance();
        value ^ mask
    }

    fn garble_i32(&mut self, value: i32) -> (r: i32)
        ensures
            final(self).seed() == churn(old(self).seed()),
            r == (value ^ (old(self).seed() as i32)),
    {
        let mask = self.seed as i32;
        self.advance();
        value ^ mask
    }

    fn garble_i64(&mut self, value: i64) -> (r: i64)
        ensures
            final(self).seed() == churn(old(self).seed()),
            r == (value ^ (old(self).seed() as i64)),
    {
        let mask = self.seed as i64;
        self.advance();
        value ^ mask
    }

    fn garble_i128(&mut self, value: i128) -> (r: i128)
        ensures
            final(self).seed() == churn(old(self).seed()),
            r == (value ^ (old(self).seed() as i128)),
    {
        let mask = self.seed as i128;
        self.advance();
        value ^ mask
    }

    fn garble_isize(&mut self, value: isize) -> (r: isize)
        ensures
            final(self).seed() == churn(old(self).seed()),
            r == (value ^ (old(self).seed() as isize)),
    {
        let mask = self.seed as isize;
        self.advance();
        value ^ mask
    }

    fn garble_str(&mut self, value: &str) -> (r: String)
        ensures
            final(self).seed() == churn(old(self).seed()),
            r@ == (if old(self).hot() {
                value@.map_values(|c: char| next_scalar(c))
            } else {
                value@
            }),
    {
        let hot: bool = self.seed % 2 == 1;
        self.advance();
        if hot {
            let n = value.unicode_len();
            let mut out = String::new();
            let mut i: usize = 0;
            proof {
                assert(out@ =~= value@.take(0).map_values(|c: char| next_scalar(c)));
            }
            while i < n
                invariant
                    n == value@.len(),
                    i <= n,
                    out@ == value@.take(i as int).map_values(|c: char| next_scalar(c)),
                decreases n - i,
            {
                let c = value.get_char(i);
                let u = c as u32;
                proof {
                    vstd::utf8::char_is_scalar(c);
                }
                let c2: char = if u == 0xD7FF || u == 0x10FFFF {
                    'g'
                } else {
                    let r = char_from_u32(u + 1);
                    match r {
                        Some(cc) => {
                            proof {
                                vstd::utf8::char_u32_cast(cc, (u + 1) as u32);
                                assert(cc == next_scalar(c));
                            }
                            cc
                        },
                        None => 'g',
                    }
                };
                push_char(&mut out, c2);
                i = i + 1;
                proof {
                    assert(c2 == next_scalar(c));
                    assert(out@ =~= value@.take(i as int).map_values(|c: char| next_scalar(c)));
                }
            }
            proof {
                assert(value@.take(n as int) =~= value@);
            }
            out
        } else {
            value.to_owned()
        }
    }
}

} // verus!
