use crate::garbler::Garbler;
use crate::leaf::{lemma_map_values_push, Leaf};
use vstd::prelude::*;

verus! {

/// One recorded leaf call, as an executable value: the counterpart of
/// [`Leaf`] that a running program can hold and compare.
#[derive(Debug, Clone, PartialEq, Eq)]
pub enum LeafRec {
    Bool(bool),
    Char(char),
    U8(u8),
    U16(u16),
    U32(u32),
    U64(u64),
    U128(u128),
    Usize(usize),
    I8(i8),
    I16(i16),
    I32(i32),
    I64(i64),
    I128(i128),
    Isize(isize),
    Str(String),
}

impl View for LeafRec {
    type V = Leaf;

    open spec fn view(&self) -> Leaf {
        match self {
            LeafRec::Bool(v) => Leaf::Bool(*v),
            LeafRec::Char(v) => Leaf::Char(*v),
            LeafRec::U8(v) => Leaf::U8(*v),
            LeafRec::U16(v) => Leaf::U16(*v),
            LeafRec::U32(v) => Leaf::U32(*v),
            LeafRec::U64(v) => Leaf::U64(*v),
            LeafRec::U128(v) => Leaf::U128(*v),
            LeafRec::Usize(v) => Leaf::Usize(*v),
            LeafRec::I8(v) => Leaf::I8(*v),
            LeafRec::I16(v) => Leaf::I16(*v),
            LeafRec::I32(v) => Leaf::I32(*v),
            LeafRec::I64(v) => Leaf::I64(*v),
            LeafRec::I128(v) => Leaf::I128(*v),
            LeafRec::Isize(v) => Leaf::Isize(*v),
            LeafRec::Str(v) => Leaf::Str(v@),
        }
    }
}

/// A strategy that returns every leaf unchanged and records each call.
///
/// Garbling a value with it shows the traversal order: afterwards the
/// recorded calls are exactly the value's trace, leaves in ascending
/// position order, a map entry's key before its value.
pub struct LogGarbler {
    calls: Vec<LeafRec>,
}

impl LogGarbler {
    /// Create a logging strategy with an empty call log.
    pub fn new() -> (r: LogGarbler)
        ensures
            r.keeps(),
            r.logs(),
            r.log() == Seq::<Leaf>::empty(),
    {
        let r = LogGarbler { calls: Vec::new() };
        proof {
            assert(r.calls@.map_values(|c: LeafRec| c@) =~= Seq::<Leaf>::empty());
        }
        r
    }

    /// The calls recorded so far, oldest first.
    pub fn calls(&self) -> (r: &Vec<LeafRec>)
        ensures
            r@.map_values(|c: LeafRec| c@) == self.log(),
    {
        &self.calls
    }

    fn record(&mut self, rec: LeafRec)
        ensures
            final(self).log() == old(self).log().push(rec@),
    {
        proof {
            lemma_map_values_push(self.calls@, |c: LeafRec| c@, rec);
        }
        self.calls.push(rec);
    }
}

impl Garbler for LogGarbler {
    open spec fn keeps(self) -> bool {
        true
    }

    open spec fn logs(self) -> bool {
        true
    }

    closed spec fn log(self) -> Seq<Leaf> {
        self.calls@.map_values(|c: LeafRec| c@)
    }

    open spec fn flattens(self) -> bool {
        false
    }

    open spec fn follows_seed(self) -> bool {
        false
    }

    open spec fn seed_state(self) -> u64 {
        0
    }

    fn garble_bool(&mut self, value: bool) -> (r: bool) {
        self.record(LeafRec::Bool(value));
        value
    }

    fn garble_char(&mut self, value: char) -> (r: char) {
        self.record(LeafRec::Char(value));
        value
    }

    fn garble_u8(&mut self, value: u8) -> (r: u8) {
        self.record(LeafRec::U8(value));
        value
    }

    fn garble_u16(&mut self, value: u16) -> (r: u16) {
        self.record(LeafRec::U16(value));
        value
    }

    fn garble_u32(&mut self, value: u32) -> (r: u32) {
        self.record(LeafRec::U32(value));
        value
    }

    fn garble_u64(&mut self, value: u64) -> (r: u64) {
        self.record(LeafRec::U64(value));
        value
    }

    fn garble_u128(&mut self, value: u128) -> (r: u128) {
        self.record(LeafRec::U128(value));
        value
    }

    fn garble_usize(&mut self, value: usize) -> (r: usize) {
        self.record(LeafRec::Usize(value));
        value
    }

    fn garble_i8(&mut self, value: i8) -> (r: i8) {
        self.record(LeafRec::I8(value));
        value
    }

    fn garble_i16(&mut self, value: i16) -> (r: i16) {
        self.record(LeafRec::I16(value));
        value
    }

    fn garble_i32(&mut self, value: i32) -> (r: i32) {
        self.record(LeafRec::I32(value));
        value
    }

    fn garble_i64(&mut self, value: i64) -> (r: i64) {
        self.record(LeafRec::I64(value));
        value
    }

    fn garble_i128(&mut self, value: i128) -> (r: i128) {
        self.record(LeafRec::I128(value));
        value
    }

    fn garble_isize(&mut self, value: isize) -> (r: isize) {
        self.record(LeafRec::Isize(value));
        value
    }

    fn garble_str(&mut self, value: &str) -> (r: String) {
        self.record(LeafRec::Str(value.to_owned()));
        value.to_owned()
    }
}

} // verus!
