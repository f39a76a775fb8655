use crate::garble::{seq_seed_after, trace_of_seq, Garble};
use crate::garbler::{churn, seed_out, Garbler};
use crate::leaf::{
    lemma_concat_assoc, lemma_concat_empty, lemma_prefix_refl, lemma_prefix_trans, Leaf,
};
use vstd::prelude::*;

verus! {

/// A null-terminated-style byte string: bytes with no interior null.
///
/// Garbling hands each byte to the strategy in order; a byte the strategy
/// turns into zero is rebound to `0x3F`, the ASCII question mark, so the
/// null-free invariant survives every strategy. The repair is policy, not an
/// error.
#[derive(Debug, PartialEq, Eq)]
pub struct CStrBytes {
    bytes: Vec<u8>,
}

impl CStrBytes {
    #[verifier::type_invariant]
    spec fn wf(self) -> bool {
        forall|i: int| 0 <= i < self.bytes@.len() ==> self.bytes@[i] != 0
    }

    /// The held bytes, none of them zero.
    pub closed spec fn bytes(self) -> Seq<u8> {
        self.bytes@
    }

    /// Wrap the given bytes; `None` when any of them is zero.
    pub fn new(bytes: Vec<u8>) -> (r: Option<CStrBytes>)
        ensures
            r is Some <==> (forall|i: int| 0 <= i < bytes@.len() ==> bytes@[i] != 0),
            r is Some ==> r->0.bytes() == bytes@,
    {
        let mut i: usize = 0;
        while i < bytes.len()
            invariant
                i <= bytes@.len(),
                forall|j: int| 0 <= j < i ==> bytes@[j] != 0,
            decreases bytes@.len() - i,
        {
            if bytes[i] == 0 {
                return None;
            }
            i = i + 1;
        }
        Some(CStrBytes { bytes })
    }

    /// Read access to the held bytes.
    pub fn as_bytes(&self) -> (r: &Vec<u8>)
        ensures
            r@ == self.bytes(),
    {
        &self.bytes
    }
}

/// The repair step: a byte the strategy turned into zero is rebound to the
/// ASCII question mark.
pub open spec fn repair(b: u8) -> u8 {
    if b == 0 {
        0x3F
    } else {
        b
    }
}

/// Relates the bytes, a starting seed, the repaired garbled bytes and the
/// end seed of one byte-string garbling under the canonical seeded strategy.
pub open spec fn cstr_seed_rel(s: Seq<u8>, st: u64, out: Seq<u8>, st2: u64) -> bool
    decreases s.len(),
{
    if s.len() == 0 {
        out.len() == 0 && st2 == st
    } else {
        let sm = seq_seed_after(s.drop_last(), st);
        out.len() == s.len() && cstr_seed_rel(s.drop_last(), st, out.drop_last(), sm) && (
        match seed_out(sm, Leaf::U8(s.last())) {
            Leaf::U8(n) => out.last() == repair(n),
            _ => false,
        }) && st2 == churn(sm)
    }
}

/// A pinned byte-string relation ends at [`seq_seed_after`].
proof fn cstr_seed_after_ok(s: Seq<u8>, st: u64, out: Seq<u8>, st2: u64)
    requires
        cstr_seed_rel(s, st, out, st2),
    ensures
        st2 == seq_seed_after(s, st),
{
    if s.len() == 0 {
    } else {
        assert(seq_seed_after(s, st) == s.last().seed_after(seq_seed_after(s.drop_last(), st)));
    }
}

/// Functionality of [`cstr_seed_rel`]: from one starting seed, the repaired
/// garbled bytes and the end seed are pinned.
proof fn cstr_seed_functional(s: Seq<u8>, st: u64, o1: Seq<u8>, s1: u64, o2: Seq<u8>, s2: u64)
    requires
        cstr_seed_rel(s, st, o1, s1),
        cstr_seed_rel(s, st, o2, s2),
    ensures
        s1 == s2,
        o1 == o2,
    decreases s.len(),
{
    if s.len() == 0 {
        assert(o1 =~= o2);
    } else {
        let sm = seq_seed_after(s.drop_last(), st);
        cstr_seed_functional(s.drop_last(), st, o1.drop_last(), sm, o2.drop_last(), sm);
        assert forall|i: int| 0 <= i < o1.len() implies o1[i] == o2[i] by {
            if i < o1.len() - 1 {
                assert(o1.drop_last()[i] == o1[i]);
                assert(o2.drop_last()[i] == o2[i]);
            } else {
                assert(o1[i] == o1.last());
                assert(o2[i] == o2.last());
            }
        }
        assert(o1 =~= o2);
    }
}

impl Garble for CStrBytes {
    type Output = CStrBytes;

    open spec fn garble_rel(self, out: CStrBytes) -> bool {
        &&& out.bytes().len() == self.bytes().len()
        &&& forall|i: int| 0 <= i < out.bytes().len() ==> out.bytes()[i] != 0
    }

    open spec fn id_rel(self, out: CStrBytes) -> bool {
        out.bytes() == self.bytes()
    }

    open spec fn flat_rel(self, out: CStrBytes) -> bool {
        &&& out.bytes().len() == self.bytes().len()
        &&& forall|i: int| 0 <= i < out.bytes().len() ==> out.bytes()[i] == 0x3F
    }

    open spec fn trace(self) -> Seq<Leaf> {
        trace_of_seq(self.bytes())
    }

    open spec fn trace_exact(self) -> bool {
        true
    }

    open spec fn seed_known(self) -> bool {
        true
    }

    open spec fn out_eq(a: CStrBytes, b: CStrBytes) -> bool {
        a.bytes() == b.bytes()
    }

    open spec fn seed_rel(self, s: u64, out: CStrBytes, s2: u64) -> bool {
        cstr_seed_rel(self.bytes(), s, out.bytes(), s2)
    }

    proof fn seed_functional(self, s: u64, o1: CStrBytes, s1: u64, o2: CStrBytes, s2: u64) {
        cstr_seed_functional(self.bytes(), s, o1.bytes(), s1, o2.bytes(), s2);
    }

    open spec fn seed_after(self, s: u64) -> u64 {
        seq_seed_after(self.bytes(), s)
    }

    proof fn seed_after_ok(self, s: u64, out: CStrBytes, s2: u64) {
        cstr_seed_after_ok(self.bytes(), s, out.bytes(), s2);
    }

    fn garble<G: Garbler>(self, garbler: &mut G) -> (out: CStrBytes) {
        proof {
            use_type_invariant(&self);
        }
        let ghost g0 = *garbler;
        let CStrBytes { bytes } = self;
        let mut out: Vec<u8> = Vec::new();
        let mut i: usize = 0;
        proof {
            assert(bytes@.take(0) =~= Seq::<u8>::empty());
            assert(out@ =~= bytes@.take(0));
            lemma_prefix_refl(g0.log());
            lemma_concat_empty(g0.log());
            assert(cstr_seed_rel(bytes@.take(0), g0.seed_state(), out@, g0.seed_state()));
        }
        while i < bytes.len()
            invariant
                g0 == *old(garbler),
                i <= bytes@.len(),
                out@.len() == i,
                forall|j: int| 0 <= j < bytes@.len() ==> bytes@[j] != 0,
                forall|j: int| 0 <= j < i ==> out@[j] != 0,
                g0.keeps() ==> garbler.keeps() && out@ == bytes@.take(i as int),
                g0.flattens() ==> garbler.flattens() && (forall|j: int|
                    0 <= j < i ==> out@[j] == 0x3F),
                g0.logs() ==> garbler.logs() && g0.log().is_prefix_of(garbler.log())
                    && garbler.log() == g0.log() + trace_of_seq(bytes@.take(i as int)),
                g0.follows_seed() ==> garbler.follows_seed() && cstr_seed_rel(
                    bytes@.take(i as int),
                    g0.seed_state(),
                    out@,
                    garbler.seed_state(),
                ),
            decreases bytes@.len() - i,
        {
            let ghost k = i as int;
            let ghost pre = *garbler;
            let ghost out_pre = out@;
            let b = bytes[i];
            let gb = garbler.garble_u8(b);
            let b2: u8 = if gb == 0 {
                0x3F
            } else {
                gb
            };
            out.push(b2);
            i = i + 1;
            proof {
                if g0.follows_seed() {
                    assert(bytes@.take(k + 1).drop_last() =~= bytes@.take(k));
                    assert(out@.drop_last() =~= out_pre);
                    assert(bytes@.take(k + 1).last() == bytes@[k]);
                    assert(out@.last() == b2);
                    assert(b2 == repair(gb));
                    cstr_seed_after_ok(
                        bytes@.take(k),
                        g0.seed_state(),
                        out_pre,
                        pre.seed_state(),
                    );
                    assert(cstr_seed_rel(
                        bytes@.take(k + 1),
                        g0.seed_state(),
                        out@,
                        garbler.seed_state(),
                    ));
                }
                if g0.keeps() {
                    assert(out@ =~= bytes@.take(k + 1));
                }
                if g0.logs() {
                    lemma_prefix_trans(g0.log(), pre.log(), garbler.log());
                    assert(bytes@.take(k + 1).drop_last() =~= bytes@.take(k));
                    assert(bytes@.take(k + 1).last() == bytes@[k]);
                    assert(trace_of_seq(bytes@.take(k + 1)) == trace_of_seq(bytes@.take(k))
                        + bytes@[k].trace());
                    assert(pre.log().push(Leaf::U8(b)) =~= pre.log() + bytes@[k].trace());
                    lemma_concat_assoc(g0.log(), trace_of_seq(bytes@.take(k)), bytes@[k].trace());
                }
            }
        }
        proof {
            assert(bytes@.take(bytes@.len() as int) =~= bytes@);
        }
        CStrBytes { bytes: out }
    }
}

} // verus!
