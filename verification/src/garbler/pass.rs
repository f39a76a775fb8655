use crate::garbler::Garbler;
use crate::leaf::Leaf;
use vstd::prelude::*;

verus! {

/// A strategy that returns every leaf unchanged.
///
/// It witnesses the identity clause of the garbling contract: garbling any
/// value with a keeping strategy reproduces the value.
pub struct PassGarbler;

impl PassGarbler {
    /// Create a keeping strategy.
    pub fn new() -> (r: PassGarbler)
        ensures
            r.keeps(),
    {
        PassGarbler
    }
}

impl Garbler for PassGarbler {
    open spec fn keeps(self) -> bool {
        true
    }

    open spec fn logs(self) -> bool {
        false
    }

    open spec fn log(self) -> Seq<Leaf> {
        Seq::empty()
    }

    open spec fn flattens(self) -> bool {
        false
    }

    open spec fn follows_seed(self) -> bool {
        false
    }

    open spec fn seed_state(self) -> u64 {
        0
    }

    fn garble_bool(&mut self, value: bool) -> (r: bool) {
        value
    }

    fn garble_char(&mut self, value: char) -> (r: char) {
        value
    }

    fn garble_u8(&mut self, value: u8) -> (r: u8) {
        value
    }

    fn garble_u16(&mut self, value: u16) -> (r: u16) {
        value
    }

    fn garble_u32(&mut self, value: u32) -> (r: u32) {
        value
    }

    fn garble_u64(&mut self, value: u64) -> (r: u64) {
        value
    }

    fn garble_u128(&mut self, value: u128) -> (r: u128) {
        value
    }

    fn garble_usize(&mut self, value: usize) -> (r: usize) {
        value
    }

    fn garble_i8(&mut self, value: i8) -> (r: i8) {
        value
    }

    fn garble_i16(&mut self, value: i16) -> (r: i16) {
        value
    }

    fn garble_i32(&mut self, value: i32) -> (r: i32) {
        value
    }

    fn garble_i64(&mut self, value: i64) -> (r: i64) {
        value
    }

    fn garble_i128(&mut self, value: i128) -> (r: i128) {
        value
    }

    fn garble_isize(&mut self, value: isize) -> (r: isize) {
        value
    }

    fn garble_str(&mut self, value: &str) -> (r: String) {
        value.to_owned()
    }
}

} // verus!
