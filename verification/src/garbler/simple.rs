use crate::garbler::Garbler;
use crate::leaf::Leaf;
use rand::rngs::ThreadRng;
use rand::Rng;
use crate::strutil::{char_from_u32, push_char};
use vstd::prelude::*;
use vstd::string::StrSliceExecFns;

verus! {

#[verifier::external_type_specification]
#[verifier::external_body]
pub struct ExThreadRng(ThreadRng);

/// Relies on rand::thread_rng: hands out the thread-local generator.
#[verifier::external_body]
fn fresh_rng() -> ThreadRng {
    rand::thread_rng()
}

/// Relies on rand::Rng::gen_ratio: returns true with probability
/// `num / den`; per its documentation and source, the draw is always false
/// when `num` is 0 and always true when `num` equals `den`. It panics when
/// `den` is 0 or `num > den`, so those inputs are excluded.
#[verifier::external_body]
fn rng_ratio(rng: &mut ThreadRng, num: u32, den: u32) -> (r: bool)
    requires
        0 < den,
        num <= den,
    ensures
        num == 0 ==> !r,
        num == den ==> r,
{
    rng.gen_ratio(num, den)
}

/// Relies on rand::Rng::gen: draws a machine word; nothing is promised of it.
#[verifier::external_body]
fn rng_u64(rng: &mut ThreadRng) -> u64 {
    rng.gen()
}

/// Relies on rand::Rng::gen: draws a character; nothing is promised of it.
#[verifier::external_body]
fn rng_char(rng: &mut ThreadRng) -> char {
    rng.gen()
}

/// The Unicode scalar after `value`, or `'g'` where there is none; in
/// either case a character other than `value`.
fn next_char(value: char) -> (r: char)
    ensures
        r != value,
{
    let u = value as u32;
    match char_from_u32(u + 1) {
        Some(c) => c,
        None => 'g',
    }
}

/// The reference strategy: perturbs each leaf at random, with a fixed
/// per-leaf probability.
///
/// The rate is a probability in thousandths: 0 never perturbs (garbling is
/// then the identity), 1000 perturbs every leaf. Rates above 1000 are
/// clamped. A perturbed integer is replaced by a random value of the same
/// width, with wrapping increment as the fallback when the draw collides
/// with the input, so a full-rate integer or boolean garble never returns
/// its input.
#[derive(Debug)]
pub struct SimpleGarbler {
    rate: u32,
    rng: ThreadRng,
}

impl SimpleGarbler {
    /// The per-leaf perturbation rate, in thousandths.
    pub closed spec fn rate(self) -> u32 {
        self.rate
    }

    /// Create a strategy with the given perturbation rate in thousandths:
    /// 0 never perturbs, 1000 always does; higher values are clamped.
    pub fn new(rate: u32) -> (r: SimpleGarbler)
        ensures
            r.rate() == (if rate > 1000 { 1000u32 } else { rate }),
            r.keeps() <==> rate == 0,
    {
        let clamped: u32 = if rate > 1000 { 1000 } else { rate };
        SimpleGarbler { rate: clamped, rng: fresh_rng() }
    }

    fn should_garble(&mut self) -> (r: bool)
        ensures
            final(self).rate() == old(self).rate(),
            old(self).rate() == 0 ==> !r,
            old(self).rate() >= 1000 ==> r,
    {
        let num: u32 = if self.rate > 1000 { 1000 } else { self.rate };
        rng_ratio(&mut self.rng, num, 1000)
    }
}

impl Garbler for SimpleGarbler {
    open spec fn keeps(self) -> bool {
        self.rate() == 0
    }

    open spec fn logs(self) -> bool {
        false
    }

    open spec fn log(self) -> Seq<Leaf> {
        Seq::empty()
    }

    open spec fn flattens(self) -> bool {
        false
    }

    open spec fn follows_seed(self) -> bool {
        false
    }

    open spec fn seed_state(self) -> u64 {
        0
    }

    fn garble_bool(&mut self, value: bool) -> (r: bool)
        ensures
            final(self).rate() == old(self).rate(),
            old(self).rate() >= 1000 ==> r == !value,
    {
        let flip = self.should_garble();
        flip != value
    }

    fn garble_char(&mut self, value: char) -> (r: char)
        ensures
            final(self).rate() == old(self).rate(),
            old(self).rate() >= 1000 ==> r != value,
    {
        if self.should_garble() {
            let v = rng_char(&mut self.rng);
            if v == value {
                next_char(value)
            } else {
                v
            }
        } else {
            value
        }
    }

    fn garble_u8(&mut self, value: u8) -> (r: u8)
        ensures
            final(self).rate() == old(self).rate(),
            old(self).rate() >= 1000 ==> r != value,
    {
        if self.should_garble() {
            let v = rng_u64(&mut self.rng) as u8;
            if v == value {
                value.wrapping_add(1)
            } else {
                v
            }
        } else {
            value
        }
    }

    fn garble_u16(&mut self, value: u16) -> (r: u16)
        ensures
            final(self).rate() == old(self).rate(),
            old(self).rate() >= 1000 ==> r != value,
    {
        if self.should_garble() {
            let v = rng_u64(&mut self.rng) as u16;
            if v == value {
                value.wrapping_add(1)
            } else {
                v
            }
        } else {
            value
        }
    }

    fn garble_u32(&mut self, value: u32) -> (r: u32)
        ensures
            final(self).rate() == old(self).rate(),
            old(self).rate() >= 1000 ==> r != value,
    {
        if self.should_garble() {
            let v = rng_u64(&mut self.rng) as u32;
            if v == value {
                value.wrapping_add(1)
            } else {
                v
            }
        } else {
            value
        }
    }

    fn garble_u64(&mut self, value: u64) -> (r: u64)
        ensures
            final(self).rate() == old(self).rate(),
            old(self).rate() >= 1000 ==> r != value,
    {
        if self.should_garble() {
            let v = rng_u64(&mut self.rng);
            if v == value {
                value.wrapping_add(1)
            } else {
                v
            }
        } else {
            value
        }
    }

    fn garble_u128(&mut self, value: u128) -> (r: u128)
        ensures
            final(self).rate() == old(self).rate(),
            old(self).rate() >= 1000 ==> r != value,
    {
        if self.should_garble() {
            let v = (rng_u64(&mut self.rng) as u128) << 64 | (rng_u64(&mut self.rng) as u128);
            if v == value {
                value.wrapping_add(1)
            } else {
                v
            }
        } else {
            value
        }
    }

    fn garble_usize(&mut self, value: usize) -> (r: usize)
        ensures
            final(self).rate() == old(self).rate(),
            old(self).rate() >= 1000 ==> r != value,
    {
        if self.should_garble() {
            let v = rng_u64(&mut self.rng) as usize;
            if v == value {
                value.wrapping_add(1)
            } else {
                v
            }
        } else {
            value
        }
    }

    fn garble_i8(&mut self, value: i8) -> (r: i8)
        ensures
            final(self).rate() == old(self).rate(),
            old(self).rate() >= 1000 ==> r != value,
    {
        if self.should_garble() {
            let v = rng_u64(&mut self.rng) as i8;
            if v == value {
                value.wrapping_add(1)
            } else {
                v
            }
        } else {
            value
        }
    }

    fn garble_i16(&mut self, value: i16) -> (r: i16)
        ensures
            final(self).rate() == old(self).rate(),
            old(self).rate() >= 1000 ==> r != value,
    {
        if self.should_garble() {
            let v = rng_u64(&mut self.rng) as i16;
            if v == value {
                value.wrapping_add(1)
            } else {
                v
            }
        } else {
            value
        }
    }

    fn garble_i32(&mut self, value: i32) -> (r: i32)
        ensures
            final(self).rate() == old(self).rate(),
            old(self).rate() >= 1000 ==> r != value,
    {
        if self.should_garble() {
            let v = rng_u64(&mut self.rng) as i32;
            if v == value {
                value.wrapping_add(1)
            } else {
                v
            }
        } else {
            value
        }
    }

    fn garble_i64(&mut self, value: i64) -> (r: i64)
        ensures
            final(self).rate() == old(self).rate(),
            old(self).rate() >= 1000 ==> r != value,
    {
        if self.should_garble() {
            let v = rng_u64(&mut self.rng) as i64;
            if v == value {
                value.wrapping_add(1)
            } else {
                v
            }
        } else {
            value
        }
    }

    fn garble_i128(&mut self, value: i128) -> (r: i128)
        ensures
            final(self).rate() == old(self).rate(),
            old(self).rate() >= 1000 ==> r != value,
    {
        if self.should_garble() {
            let v = ((rng_u64(&mut self.rng) as u128) << 64 | (rng_u64(&mut self.rng) as u128)) as i128;
            if v == value {
                value.wrapping_add(1)
            } else {
                v
            }
        } else {
            value
        }
    }

    fn garble_isize(&mut self, value: isize) -> (r: isize)
        ensures
            final(self).rate() == old(self).rate(),
            old(self).rate() >= 1000 ==> r != value,
    {
        if self.should_garble() {
            let v = rng_u64(&mut self.rng) as isize;
            if v == value {
                value.wrapping_add(1)
            } else {
                v
            }
        } else {
            value
        }
    }

    // A perturbed string garbles per character: each character is replaced,
    // with the same per-leaf probability, by a random character.
    fn garble_str(&mut self, value: &str) -> (r: String)
        ensures
            final(self).rate() == old(self).rate(),
            r@.len() == value@.len(),
    {
        let n = value.unicode_len();
        let mut out = String::new();
        let mut i: usize = 0;
        proof {
            assert(value@.take(0) =~= Seq::<char>::empty());
        }
        while i < n
            invariant
                n == value@.len(),
                i <= n,
                out@.len() == i,
                self.rate() == old(self).rate(),
                old(self).keeps() ==> self.keeps() && out@ == value@.take(i as int),
            decreases n - i,
        {
            let c = value.get_char(i);
            let c2 = if self.should_garble() {
                rng_char(&mut self.rng)
            } else {
                c
            };
            push_char(&mut out, c2);
            i = i + 1;
            proof {
                if old(self).keeps() {
                    assert(out@ =~= value@.take(i as int));
                }
            }
        }
        proof {
            assert(value@.take(n as int) =~= value@);
        }
        out
    }
}

} // verus!
