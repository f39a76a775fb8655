use crate::garbler::Garbler;
use crate::leaf::Leaf;
use vstd::prelude::*;

verus! {

/// A strategy that flattens every leaf: integers to zero, booleans to false,
/// characters to a space, strings to the empty string.
pub struct ZeroGarbler;

impl ZeroGarbler {
    /// Create a flattening strategy.
    pub fn new() -> (r: ZeroGarbler)
        ensures
            !r.keeps(),
    {
        ZeroGarbler
    }
}

impl Garbler for ZeroGarbler {
    open spec fn keeps(self) -> bool {
        false
    }

    open spec fn logs(self) -> bool {
        false
    }

    open spec fn log(self) -> Seq<Leaf> {
        Seq::empty()
    }

    open spec fn flattens(self) -> bool {
        true
    }

    open spec fn follows_seed(self) -> bool {
        false
    }

    open spec fn seed_state(self) -> u64 {
        0
    }

    fn garble_bool(&mut self, value: bool) -> (r: bool)
        ensures
            r == false,
    {
        false
    }

    fn garble_char(&mut self, value: char) -> (r: char)
        ensures
            r == ' ',
    {
        ' '
    }

    fn garble_u8(&mut self, value: u8) -> (r: u8)
        ensures
            r == 0,
    {
        0
    }

    fn garble_u16(&mut self, value: u16) -> (r: u16)
        ensures
            r == 0,
    {
        0
    }

    fn garble_u32(&mut self, value: u32) -> (r: u32)
        ensures
            r == 0,
    {
        0
    }

    fn garble_u64(&mut self, value: u64) -> (r: u64)
        ensures
            r == 0,
    {
        0
    }

    fn garble_u128(&mut self, value: u128) -> (r: u128)
        ensures
            r == 0,
    {
        0
    }

    fn garble_usize(&mut self, value: usize) -> (r: usize)
        ensures
            r == 0,
    {
        0
    }

    fn garble_i8(&mut self, value: i8) -> (r: i8)
        ensures
            r == 0,
    {
        0
    }

    fn garble_i16(&mut self, value: i16) -> (r: i16)
        ensures
            r == 0,
    {
        0
    }

    fn garble_i32(&mut self, value: i32) -> (r: i32)
        ensures
            r == 0,
    {
        0
    }

    fn garble_i64(&mut self, value: i64) -> (r: i64)
        ensures
            r == 0,
    {
        0
    }

    fn garble_i128(&mut self, value: i128) -> (r: i128)
        ensures
            r == 0,
    {
        0
    }

    fn garble_isize(&mut self, value: isize) -> (r: isize)
        ensures
            r == 0,
    {
        0
    }

    fn garble_str(&mut self, value: &str) -> (r: String)
        ensures
            r@ == Seq::<char>::empty(),
    {
        String::new()
    }
}

} // verus!
