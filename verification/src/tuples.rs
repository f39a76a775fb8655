use crate::garble::Garble;
use crate::garbler::Garbler;
use crate::leaf::{lemma_concat_assoc, lemma_prefix_trans, Leaf};
use vstd::prelude::*;

verus! {

// Tuples garble positionally: each component is garbled in ascending
// position order and the tuple is reassembled. Arity and positions are
// untouched.
impl<T0: Garble> Garble for (T0,) {
    type Output = (T0::Output,);

    open spec fn garble_rel(self, out: (T0::Output,)) -> bool {
        self.0.garble_rel(out.0)
    }

    open spec fn id_rel(self, out: (T0::Output,)) -> bool {
        self.0.id_rel(out.0)
    }

    open spec fn flat_rel(self, out: (T0::Output,)) -> bool {
        self.0.flat_rel(out.0)
    }

    open spec fn trace(self) -> Seq<Leaf> {
        self.0.trace()
    }

    open spec fn trace_exact(self) -> bool {
        self.0.trace_exact()
    }

    open spec fn seed_known(self) -> bool {
        self.0.seed_known()
    }

    open spec fn out_eq(a: (T0::Output,), b: (T0::Output,)) -> bool {
        T0::out_eq(a.0, b.0)
    }

    open spec fn seed_rel(self, s: u64, out: (T0::Output,), s2: u64) -> bool {
        self.0.seed_rel(s, out.0, s2)
    }

    proof fn seed_functional(self, s: u64, o1: (T0::Output,), s1: u64, o2: (T0::Output,), s2: u64) {
        self.0.seed_functional(s, o1.0, s1, o2.0, s2);
    }

    open spec fn seed_after(self, s: u64) -> u64 {
        self.0.seed_after(s)
    }

    proof fn seed_after_ok(self, s: u64, out: (T0::Output,), s2: u64) {
        self.0.seed_after_ok(s, out.0, s2);
    }

    fn garble<G: Garbler>(self, garbler: &mut G) -> (out: (T0::Output,)) {
        let (v0,) = self;
        (v0.garble(garbler),)
    }
}

impl<T0: Garble, T1: Garble> Garble for (T0, T1) {
    type Output = (T0::Output, T1::Output);

    open spec fn garble_rel(self, out: (T0::Output, T1::Output)) -> bool {
        &&& self.0.garble_rel(out.0)
        &&& self.1.garble_rel(out.1)
    }

    open spec fn id_rel(self, out: (T0::Output, T1::Output)) -> bool {
        &&& self.0.id_rel(out.0)
        &&& self.1.id_rel(out.1)
    }

    open spec fn flat_rel(self, out: (T0::Output, T1::Output)) -> bool {
        &&& self.0.flat_rel(out.0)
        &&& self.1.flat_rel(out.1)
    }

    open spec fn trace(self) -> Seq<Leaf> {
        self.0.trace() + self.1.trace()
    }

    open spec fn trace_exact(self) -> bool {
        &&& self.0.trace_exact()
        &&& self.1.trace_exact()
    }

    open spec fn seed_known(self) -> bool {
        &&& self.0.seed_known()
        &&& self.1.seed_known()
    }

    open spec fn out_eq(a: (T0::Output, T1::Output), b: (T0::Output, T1::Output)) -> bool {
        &&& T0::out_eq(a.0, b.0)
        &&& T1::out_eq(a.1, b.1)
    }

    open spec fn seed_rel(self, s: u64, out: (T0::Output, T1::Output), s2: u64) -> bool {
        let m1 = self.0.seed_after(s);
        &&& self.0.seed_rel(s, out.0, m1)
        &&& self.1.seed_rel(m1, out.1, s2)
    }

    proof fn seed_functional(self, s: u64, o1: (T0::Output, T1::Output), s1: u64, o2: (T0::Output, T1::Output), s2: u64) {
        let m1 = self.0.seed_after(s);
        self.0.seed_functional(s, o1.0, m1, o2.0, m1);
        self.1.seed_functional(m1, o1.1, s1, o2.1, s2);
    }

    open spec fn seed_after(self, s: u64) -> u64 {
        self.1.seed_after(self.0.seed_after(s))
    }

    proof fn seed_after_ok(self, s: u64, out: (T0::Output, T1::Output), s2: u64) {
        self.1.seed_after_ok(self.0.seed_after(s), out.1, s2);
    }

    fn garble<G: Garbler>(self, garbler: &mut G) -> (out: (T0::Output, T1::Output)) {
        let ghost s = self;
        let (v0, v1) = self;
        let r0 = v0.garble(garbler);
        let ghost mid1 = *garbler;
        let r1 = v1.garble(garbler);
        proof {
            if old(garbler).logs() {
                lemma_prefix_trans(old(garbler).log(), mid1.log(), garbler.log());
                if s.trace_exact() {
                    lemma_concat_assoc(old(garbler).log(), s.0.trace(), s.1.trace());
                }
            }
            if old(garbler).follows_seed() && s.seed_known() {
                s.0.seed_after_ok(old(garbler).seed_state(), r0, mid1.seed_state());
            }
        }
        (r0, r1)
    }
}

impl<T0: Garble, T1: Garble, T2: Garble> Garble for (T0, T1, T2) {
    type Output = (T0::Output, T1::Output, T2::Output);

    open spec fn garble_rel(self, out: (T0::Output, T1::Output, T2::Output)) -> bool {
        &&& self.0.garble_rel(out.0)
        &&& self.1.garble_rel(out.1)
        &&& self.2.garble_rel(out.2)
    }

    open spec fn id_rel(self, out: (T0::Output, T1::Output, T2::Output)) -> bool {
        &&& self.0.id_rel(out.0)
        &&& self.1.id_rel(out.1)
        &&& self.2.id_rel(out.2)
    }

    open spec fn flat_rel(self, out: (T0::Output, T1::Output, T2::Output)) -> bool {
        &&& self.0.flat_rel(out.0)
        &&& self.1.flat_rel(out.1)
        &&& self.2.flat_rel(out.2)
    }

    open spec fn trace(self) -> Seq<Leaf> {
        self.0.trace() + self.1.trace() + self.2.trace()
    }

    open spec fn trace_exact(self) -> bool {
        &&& self.0.trace_exact()
        &&& self.1.trace_exact()
        &&& self.2.trace_exact()
    }

    open spec fn seed_known(self) -> bool {
        &&& self.0.seed_known()
        &&& self.1.seed_known()
        &&& self.2.seed_known()
    }

    open spec fn out_eq(a: (T0::Output, T1::Output, T2::Output), b: (T0::Output, T1::Output, T2::Output)) -> bool {
        &&& T0::out_eq(a.0, b.0)
        &&& T1::out_eq(a.1, b.1)
        &&& T2::out_eq(a.2, b.2)
    }

    open spec fn seed_rel(self, s: u64, out: (T0::Output, T1::Output, T2::Output), s2: u64) -> bool {
        let m1 = self.0.seed_after(s);
        let m2 = self.1.seed_after(m1);
        &&& self.0.seed_rel(s, out.0, m1)
        &&& self.1.seed_rel(m1, out.1, m2)
        &&& self.2.seed_rel(m2, out.2, s2)
    }

    proof fn seed_functional(self, s: u64, o1: (T0::Output, T1::Output, T2::Output), s1: u64, o2: (T0::Output, T1::Output, T2::Output), s2: u64) {
        let m1 = self.0.seed_after(s);
        let m2 = self.1.seed_after(m1);
        self.0.seed_functional(s, o1.0, m1, o2.0, m1);
        self.1.seed_functional(m1, o1.1, m2, o2.1, m2);
        self.2.seed_functional(m2, o1.2, s1, o2.2, s2);
    }

    open spec fn seed_after(self, s: u64) -> u64 {
        self.2.seed_after(self.1.seed_after(self.0.seed_after(s)))
    }

    proof fn seed_after_ok(self, s: u64, out: (T0::Output, T1::Output, T2::Output), s2: u64) {
        self.2.seed_after_ok(self.1.seed_after(self.0.seed_after(s)), out.2, s2);
    }

    fn garble<G: Garbler>(self, garbler: &mut G) -> (out: (T0::Output, T1::Output, T2::Output)) {
        let ghost s = self;
        let (v0, v1, v2) = self;
        let r0 = v0.garble(garbler);
        let ghost mid1 = *garbler;
        let r1 = v1.garble(garbler);
        let ghost mid2 = *garbler;
        let r2 = v2.garble(garbler);
        proof {
            if old(garbler).logs() {
                lemma_prefix_trans(old(garbler).log(), mid1.log(), mid2.log());
                lemma_prefix_trans(old(garbler).log(), mid2.log(), garbler.log());
                if s.trace_exact() {
                    lemma_concat_assoc(old(garbler).log(), s.0.trace(), s.1.trace());
                    lemma_concat_assoc(old(garbler).log(), s.0.trace() + s.1.trace(), s.2.trace());
                }
            }
            if old(garbler).follows_seed() && s.seed_known() {
                s.0.seed_after_ok(old(garbler).seed_state(), r0, mid1.seed_state());
                s.1.seed_after_ok(mid1.seed_state(), r1, mid2.seed_state());
            }
        }
        (r0, r1, r2)
    }
}

impl<T0: Garble, T1: Garble, T2: Garble, T3: Garble> Garble for (T0, T1, T2, T3) {
    type Output = (T0::Output, T1::Output, T2::Output, T3::Output);

    open spec fn garble_rel(self, out: (T0::Output, T1::Output, T2::Output, T3::Output)) -> bool {
        &&& self.0.garble_rel(out.0)
        &&& self.1.garble_rel(out.1)
        &&& self.2.garble_rel(out.2)
        &&& self.3.garble_rel(out.3)
    }

    open spec fn id_rel(self, out: (T0::Output, T1::Output, T2::Output, T3::Output)) -> bool {
        &&& self.0.id_rel(out.0)
        &&& self.1.id_rel(out.1)
        &&& self.2.id_rel(out.2)
        &&& self.3.id_rel(out.3)
    }

    open spec fn flat_rel(self, out: (T0::Output, T1::Output, T2::Output, T3::Output)) -> bool {
        &&& self.0.flat_rel(out.0)
        &&& self.1.flat_rel(out.1)
        &&& self.2.flat_rel(out.2)
        &&& self.3.flat_rel(out.3)
    }

    open spec fn trace(self) -> Seq<Leaf> {
        self.0.trace() + self.1.trace() + self.2.trace() + self.3.trace()
    }

    open spec fn trace_exact(self) -> bool {
        &&& self.0.trace_exact()
        &&& self.1.trace_exact()
        &&& self.2.trace_exact()
        &&& self.3.trace_exact()
    }

    open spec fn seed_known(self) -> bool {
        &&& self.0.seed_known()
        &&& self.1.seed_known()
        &&& self.2.seed_known()
        &&& self.3.seed_known()
    }

    open spec fn out_eq(a: (T0::Output, T1::Output, T2::Output, T3::Output), b: (T0::Output, T1::Output, T2::Output, T3::Output)) -> bool {
        &&& T0::out_eq(a.0, b.0)
        &&& T1::out_eq(a.1, b.1)
        &&& T2::out_eq(a.2, b.2)
        &&& T3::out_eq(a.3, b.3)
    }

    open spec fn seed_rel(self, s: u64, out: (T0::Output, T1::Output, T2::Output, T3::Output), s2: u64) -> bool {
        let m1 = self.0.seed_after(s);
        let m2 = self.1.seed_after(m1);
        let m3 = self.2.seed_after(m2);
        &&& self.0.seed_rel(s, out.0, m1)
        &&& self.1.seed_rel(m1, out.1, m2)
        &&& self.2.seed_rel(m2, out.2, m3)
        &&& self.3.seed_rel(m3, out.3, s2)
    }

    proof fn seed_functional(self, s: u64, o1: (T0::Output, T1::Output, T2::Output, T3::Output), s1: u64, o2: (T0::Output, T1::Output, T2::Output, T3::Output), s2: u64) {
        let m1 = self.0.seed_after(s);
        let m2 = self.1.seed_after(m1);
        let m3 = self.2.seed_after(m2);
        self.0.seed_functional(s, o1.0, m1, o2.0, m1);
        self.1.seed_functional(m1, o1.1, m2, o2.1, m2);
        self.2.seed_functional(m2, o1.2, m3, o2.2, m3);
        self.3.seed_functional(m3, o1.3, s1, o2.3, s2);
    }

    open spec fn seed_after(self, s: u64) -> u64 {
        self.3.seed_after(self.2.seed_after(self.1.seed_after(self.0.seed_after(s))))
    }

    proof fn seed_after_ok(self, s: u64, out: (T0::Output, T1::Output, T2::Output, T3::Output), s2: u64) {
        self.3.seed_after_ok(self.2.seed_after(self.1.seed_after(self.0.seed_after(s))), out.3, s2);
    }

    fn garble<G: Garbler>(self, garbler: &mut G) -> (out: (T0::Output, T1::Output, T2::Output, T3::Output)) {
        let ghost s = self;
        let (v0, v1, v2, v3) = self;
        let r0 = v0.garble(garbler);
        let ghost mid1 = *garbler;
        let r1 = v1.garble(garbler);
        let ghost mid2 = *garbler;
        let r2 = v2.garble(garbler);
        let ghost mid3 = *garbler;
        let r3 = v3.garble(garbler);
        proof {
            if old(garbler).logs() {
                lemma_prefix_trans(old(garbler).log(), mid1.log(), mid2.log());
                lemma_prefix_trans(old(garbler).log(), mid2.log(), mid3.log());
                lemma_prefix_trans(old(garbler).log(), mid3.log(), garbler.log());
                if s.trace_exact() {
                    lemma_concat_assoc(old(garbler).log(), s.0.trace(), s.1.trace());
                    lemma_concat_assoc(old(garbler).log(), s.0.trace() + s.1.trace(), s.2.trace());
                    lemma_concat_assoc(old(garbler).log(), s.0.trace() + s.1.trace() + s.2.trace(), s.3.trace());
                }
            }
            if old(garbler).follows_seed() && s.seed_known() {
                s.0.seed_after_ok(old(garbler).seed_state(), r0, mid1.seed_state());
                s.1.seed_after_ok(mid1.seed_state(), r1, mid2.seed_state());
                s.2.seed_after_ok(mid2.seed_state(), r2, mid3.seed_state());
            }
        }
        (r0, r1, r2, r3)
    }
}

impl<T0: Garble, T1: Garble, T2: Garble, T3: Garble, T4: Garble> Garble for (T0, T1, T2, T3, T4) {
    type Output = (T0::Output, T1::Output, T2::Output, T3::Output, T4::Output);

    open spec fn garble_rel(self, out: (T0::Output, T1::Output, T2::Output, T3::Output, T4::Output)) -> bool {
        &&& self.0.garble_rel(out.0)
        &&& self.1.garble_rel(out.1)
        &&& self.2.garble_rel(out.2)
        &&& self.3.garble_rel(out.3)
        &&& self.4.garble_rel(out.4)
    }

    open spec fn id_rel(self, out: (T0::Output, T1::Output, T2::Output, T3::Output, T4::Output)) -> bool {
        &&& self.0.id_rel(out.0)
        &&& self.1.id_rel(out.1)
        &&& self.2.id_rel(out.2)
        &&& self.3.id_rel(out.3)
        &&& self.4.id_rel(out.4)
    }

    open spec fn flat_rel(self, out: (T0::Output, T1::Output, T2::Output, T3::Output, T4::Output)) -> bool {
        &&& self.0.flat_rel(out.0)
        &&& self.1.flat_rel(out.1)
        &&& self.2.flat_rel(out.2)
        &&& self.3.flat_rel(out.3)
        &&& self.4.flat_rel(out.4)
    }

    open spec fn trace(self) -> Seq<Leaf> {
        self.0.trace() + self.1.trace() + self.2.trace() + self.3.trace() + self.4.trace()
    }

    open spec fn trace_exact(self) -> bool {
        &&& self.0.trace_exact()
        &&& self.1.trace_exact()
        &&& self.2.trace_exact()
        &&& self.3.trace_exact()
        &&& self.4.trace_exact()
    }

    open spec fn seed_known(self) -> bool {
        &&& self.0.seed_known()
        &&& self.1.seed_known()
        &&& self.2.seed_known()
        &&& self.3.seed_known()
        &&& self.4.seed_known()
    }

    open spec fn out_eq(a: (T0::Output, T1::Output, T2::Output, T3::Output, T4::Output), b: (T0::Output, T1::Output, T2::Output, T3::Output, T4::Output)) -> bool {
        &&& T0::out_eq(a.0, b.0)
        &&& T1::out_eq(a.1, b.1)
        &&& T2::out_eq(a.2, b.2)
        &&& T3::out_eq(a.3, b.3)
        &&& T4::out_eq(a.4, b.4)
    }

    open spec fn seed_rel(self, s: u64, out: (T0::Output, T1::Output, T2::Output, T3::Output, T4::Output), s2: u64) -> bool {
        let m1 = self.0.seed_after(s);
        let m2 = self.1.seed_after(m1);
        let m3 = self.2.seed_after(m2);
        let m4 = self.3.seed_after(m3);
        &&& self.0.seed_rel(s, out.0, m1)
        &&& self.1.seed_rel(m1, out.1, m2)
        &&& self.2.seed_rel(m2, out.2, m3)
        &&& self.3.seed_rel(m3, out.3, m4)
        &&& self.4.seed_rel(m4, out.4, s2)
    }

    proof fn seed_functional(self, s: u64, o1: (T0::Output, T1::Output, T2::Output, T3::Output, T4::Output), s1: u64, o2: (T0::Output, T1::Output, T2::Output, T3::Output, T4::Output), s2: u64) {
        let m1 = self.0.seed_after(s);
        let m2 = self.1.seed_after(m1);
        let m3 = self.2.seed_after(m2);
        let m4 = self.3.seed_after(m3);
        self.0.seed_functional(s, o1.0, m1, o2.0, m1);
        self.1.seed_functional(m1, o1.1, m2, o2.1, m2);
        self.2.seed_functional(m2, o1.2, m3, o2.2, m3);
        self.3.seed_functional(m3, o1.3, m4, o2.3, m4);
        self.4.seed_functional(m4, o1.4, s1, o2.4, s2);
    }

    open spec fn seed_after(self, s: u64) -> u64 {
        self.4.seed_after(self.3.seed_after(self.2.seed_after(self.1.seed_after(self.0.seed_after(s)))))
    }

    proof fn seed_after_ok(self, s: u64, out: (T0::Output, T1::Output, T2::Output, T3::Output, T4::Output), s2: u64) {
        self.4.seed_after_ok(self.3.seed_after(self.2.seed_after(self.1.seed_after(self.0.seed_after(s)))), out.4, s2);
    }

    fn garble<G: Garbler>(self, garbler: &mut G) -> (out: (T0::Output, T1::Output, T2::Output, T3::Output, T4::Output)) {
        let ghost s = self;
        let (v0, v1, v2, v3, v4) = self;
        let r0 = v0.garble(garbler);
        let ghost mid1 = *garbler;
        let r1 = v1.garble(garbler);
        let ghost mid2 = *garbler;
        let r2 = v2.garble(garbler);
        let ghost mid3 = *garbler;
        let r3 = v3.garble(garbler);
        let ghost mid4 = *garbler;
        let r4 = v4.garble(garbler);
        proof {
            if old(garbler).logs() {
                lemma_prefix_trans(old(garbler).log(), mid1.log(), mid2.log());
                lemma_prefix_trans(old(garbler).log(), mid2.log(), mid3.log());
                lemma_prefix_trans(old(garbler).log(), mid3.log(), mid4.log());
                lemma_prefix_trans(old(garbler).log(), mid4.log(), garbler.log());
                if s.trace_exact() {
                    lemma_concat_assoc(old(garbler).log(), s.0.trace(), s.1.trace());
                    lemma_concat_assoc(old(garbler).log(), s.0.trace() + s.1.trace(), s.2.trace());
                    lemma_concat_assoc(old(garbler).log(), s.0.trace() + s.1.trace() + s.2.trace(), s.3.trace());
                    lemma_concat_assoc(old(garbler).log(), s.0.trace() + s.1.trace() + s.2.trace() + s.3.trace(), s.4.trace());
                }
            }
            if old(garbler).follows_seed() && s.seed_known() {
                s.0.seed_after_ok(old(garbler).seed_state(), r0, mid1.seed_state());
                s.1.seed_after_ok(mid1.seed_state(), r1, mid2.seed_state());
                s.2.seed_after_ok(mid2.seed_state(), r2, mid3.seed_state());
                s.3.seed_after_ok(mid3.seed_state(), r3, mid4.seed_state());
            }
        }
        (r0, r1, r2, r3, r4)
    }
}

impl<T0: Garble, T1: Garble, T2: Garble, T3: Garble, T4: Garble, T5: Garble> Garble for (T0, T1, T2, T3, T4, T5) {
    type Output = (T0::Output, T1::Output, T2::Output, T3::Output, T4::Output, T5::Output);

    open spec fn garble_rel(self, out: (T0::Output, T1::Output, T2::Output, T3::Output, T4::Output, T5::Output)) -> bool {
        &&& self.0.garble_rel(out.0)
        &&& self.1.garble_rel(out.1)
        &&& self.2.garble_rel(out.2)
        &&& self.3.garble_rel(out.3)
        &&& self.4.garble_rel(out.4)
        &&& self.5.garble_rel(out.5)
    }

    open spec fn id_rel(self, out: (T0::Output, T1::Output, T2::Output, T3::Output, T4::Output, T5::Output)) -> bool {
        &&& self.0.id_rel(out.0)
        &&& self.1.id_rel(out.1)
        &&& self.2.id_rel(out.2)
        &&& self.3.id_rel(out.3)
        &&& self.4.id_rel(out.4)
        &&& self.5.id_rel(out.5)
    }

    open spec fn flat_rel(self, out: (T0::Output, T1::Output, T2::Output, T3::Output, T4::Output, T5::Output)) -> bool {
        &&& self.0.flat_rel(out.0)
        &&& self.1.flat_rel(out.1)
        &&& self.2.flat_rel(out.2)
        &&& self.3.flat_rel(out.3)
        &&& self.4.flat_rel(out.4)
        &&& self.5.flat_rel(out.5)
    }

    open spec fn trace(self) -> Seq<Leaf> {
        self.0.trace() + self.1.trace() + self.2.trace() + self.3.trace() + self.4.trace() + self.5.trace()
    }

    open spec fn trace_exact(self) -> bool {
        &&& self.0.trace_exact()
        &&& self.1.trace_exact()
        &&& self.2.trace_exact()
        &&& self.3.trace_exact()
        &&& self.4.trace_exact()
        &&& self.5.trace_exact()
    }

    open spec fn seed_known(self) -> bool {
        &&& self.0.seed_known()
        &&& self.1.seed_known()
        &&& self.2.seed_known()
        &&& self.3.seed_known()
        &&& self.4.seed_known()
        &&& self.5.seed_known()
    }

    open spec fn out_eq(a: (T0::Output, T1::Output, T2::Output, T3::Output, T4::Output, T5::Output), b: (T0::Output, T1::Output, T2::Output, T3::Output, T4::Output, T5::Output)) -> bool {
        &&& T0::out_eq(a.0, b.0)
        &&& T1::out_eq(a.1, b.1)
        &&& T2::out_eq(a.2, b.2)
        &&& T3::out_eq(a.3, b.3)
        &&& T4::out_eq(a.4, b.4)
        &&& T5::out_eq(a.5, b.5)
    }

    open spec fn seed_rel(self, s: u64, out: (T0::Output, T1::Output, T2::Output, T3::Output, T4::Output, T5::Output), s2: u64) -> bool {
        let m1 = self.0.seed_after(s);
        let m2 = self.1.seed_after(m1);
        let m3 = self.2.seed_after(m2);
        let m4 = self.3.seed_after(m3);
        let m5 = self.4.seed_after(m4);
        &&& self.0.seed_rel(s, out.0, m1)
        &&& self.1.seed_rel(m1, out.1, m2)
        &&& self.2.seed_rel(m2, out.2, m3)
        &&& self.3.seed_rel(m3, out.3, m4)
        &&& self.4.seed_rel(m4, out.4, m5)
        &&& self.5.seed_rel(m5, out.5, s2)
    }

    proof fn seed_functional(self, s: u64, o1: (T0::Output, T1::Output, T2::Output, T3::Output, T4::Output, T5::Output), s1: u64, o2: (T0::Output, T1::Output, T2::Output, T3::Output, T4::Output, T5::Output), s2: u64) {
        let m1 = self.0.seed_after(s);
        let m2 = self.1.seed_after(m1);
        let m3 = self.2.seed_after(m2);
        let m4 = self.3.seed_after(m3);
        let m5 = self.4.seed_after(m4);
        self.0.seed_functional(s, o1.0, m1, o2.0, m1);
        self.1.seed_functional(m1, o1.1, m2, o2.1, m2);
        self.2.seed_functional(m2, o1.2, m3, o2.2, m3);
        self.3.seed_functional(m3, o1.3, m4, o2.3, m4);
        self.4.seed_functional(m4, o1.4, m5, o2.4, m5);
        self.5.seed_functional(m5, o1.5, s1, o2.5, s2);
    }

    open spec fn seed_after(self, s: u64) -> u64 {
        self.5.seed_after(self.4.seed_after(self.3.seed_after(self.2.seed_after(self.1.seed_after(self.0.seed_after(s))))))
    }

    proof fn seed_after_ok(self, s: u64, out: (T0::Output, T1::Output, T2::Output, T3::Output, T4::Output, T5::Output), s2: u64) {
        self.5.seed_after_ok(self.4.seed_after(self.3.seed_after(self.2.seed_after(self.1.seed_after(self.0.seed_after(s))))), out.5, s2);
    }

    fn garble<G: Garbler>(self, garbler: &mut G) -> (out: (T0::Output, T1::Output, T2::Output, T3::Output, T4::Output, T5::Output)) {
        let ghost s = self;
        let (v0, v1, v2, v3, v4, v5) = self;
        let r0 = v0.garble(garbler);
        let ghost mid1 = *garbler;
        let r1 = v1.garble(garbler);
        let ghost mid2 = *garbler;
        let r2 = v2.garble(garbler);
        let ghost mid3 = *garbler;
        let r3 = v3.garble(garbler);
        let ghost mid4 = *garbler;
        let r4 = v4.garble(garbler);
        let ghost mid5 = *garbler;
        let r5 = v5.garble(garbler);
        proof {
            if old(garbler).logs() {
                lemma_prefix_trans(old(garbler).log(), mid1.log(), mid2.log());
                lemma_prefix_trans(old(garbler).log(), mid2.log(), mid3.log());
                lemma_prefix_trans(old(garbler).log(), mid3.log(), mid4.log());
                lemma_prefix_trans(old(garbler).log(), mid4.log(), mid5.log());
                lemma_prefix_trans(old(garbler).log(), mid5.log(), garbler.log());
                if s.trace_exact() {
                    lemma_concat_assoc(old(garbler).log(), s.0.trace(), s.1.trace());
                    lemma_concat_assoc(old(garbler).log(), s.0.trace() + s.1.trace(), s.2.trace());
                    lemma_concat_assoc(old(garbler).log(), s.0.trace() + s.1.trace() + s.2.trace(), s.3.trace());
                    lemma_concat_assoc(old(garbler).log(), s.0.trace() + s.1.trace() + s.2.trace() + s.3.trace(), s.4.trace());
                    lemma_concat_assoc(old(garbler).log(), s.0.trace() + s.1.trace() + s.2.trace() + s.3.trace() + s.4.trace(), s.5.trace());
                }
            }
            if old(garbler).follows_seed() && s.seed_known() {
                s.0.seed_after_ok(old(garbler).seed_state(), r0, mid1.seed_state());
                s.1.seed_after_ok(mid1.seed_state(), r1, mid2.seed_state());
                s.2.seed_after_ok(mid2.seed_state(), r2, mid3.seed_state());
                s.3.seed_after_ok(mid3.seed_state(), r3, mid4.seed_state());
                s.4.seed_after_ok(mid4.seed_state(), r4, mid5.seed_state());
            }
        }
        (r0, r1, r2, r3, r4, r5)
    }
}

impl<T0: Garble, T1: Garble, T2: Garble, T3: Garble, T4: Garble, T5: Garble, T6: Garble> Garble for (T0, T1, T2, T3, T4, T5, T6) {
    type Output = (T0::Output, T1::Output, T2::Output, T3::Output, T4::Output, T5::Output, T6::Output);

    open spec fn garble_rel(self, out: (T0::Output, T1::Output, T2::Output, T3::Output, T4::Output, T5::Output, T6::Output)) -> bool {
        &&& self.0.garble_rel(out.0)
        &&& self.1.garble_rel(out.1)
        &&& self.2.garble_rel(out.2)
        &&& self.3.garble_rel(out.3)
        &&& self.4.garble_rel(out.4)
        &&& self.5.garble_rel(out.5)
        &&& self.6.garble_rel(out.6)
    }

    open spec fn id_rel(self, out: (T0::Output, T1::Output, T2::Output, T3::Output, T4::Output, T5::Output, T6::Output)) -> bool {
        &&& self.0.id_rel(out.0)
        &&& self.1.id_rel(out.1)
        &&& self.2.id_rel(out.2)
        &&& self.3.id_rel(out.3)
        &&& self.4.id_rel(out.4)
        &&& self.5.id_rel(out.5)
        &&& self.6.id_rel(out.6)
    }

    open spec fn flat_rel(self, out: (T0::Output, T1::Output, T2::Output, T3::Output, T4::Output, T5::Output, T6::Output)) -> bool {
        &&& self.0.flat_rel(out.0)
        &&& self.1.flat_rel(out.1)
        &&& self.2.flat_rel(out.2)
        &&& self.3.flat_rel(out.3)
        &&& self.4.flat_rel(out.4)
        &&& self.5.flat_rel(out.5)
        &&& self.6.flat_rel(out.6)
    }

    open spec fn trace(self) -> Seq<Leaf> {
        self.0.trace() + self.1.trace() + self.2.trace() + self.3.trace() + self.4.trace() + self.5.trace() + self.6.trace()
    }

    open spec fn trace_exact(self) -> bool {
        &&& self.0.trace_exact()
        &&& self.1.trace_exact()
        &&& self.2.trace_exact()
        &&& self.3.trace_exact()
        &&& self.4.trace_exact()
        &&& self.5.trace_exact()
        &&& self.6.trace_exact()
    }

    open spec fn seed_known(self) -> bool {
        &&& self.0.seed_known()
        &&& self.1.seed_known()
        &&& self.2.seed_known()
        &&& self.3.seed_known()
        &&& self.4.seed_known()
        &&& self.5.seed_known()
        &&& self.6.seed_known()
    }

    open spec fn out_eq(a: (T0::Output, T1::Output, T2::Output, T3::Output, T4::Output, T5::Output, T6::Output), b: (T0::Output, T1::Output, T2::Output, T3::Output, T4::Output, T5::Output, T6::Output)) -> bool {
        &&& T0::out_eq(a.0, b.0)
        &&& T1::out_eq(a.1, b.1)
        &&& T2::out_eq(a.2, b.2)
        &&& T3::out_eq(a.3, b.3)
        &&& T4::out_eq(a.4, b.4)
        &&& T5::out_eq(a.5, b.5)
        &&& T6::out_eq(a.6, b.6)
    }

    open spec fn seed_rel(self, s: u64, out: (T0::Output, T1::Output, T2::Output, T3::Output, T4::Output, T5::Output, T6::Output), s2: u64) -> bool {
        let m1 = self.0.seed_after(s);
        let m2 = self.1.seed_after(m1);
        let m3 = self.2.seed_after(m2);
        let m4 = self.3.seed_after(m3);
        let m5 = self.4.seed_after(m4);
        let m6 = self.5.seed_after(m5);
        &&& self.0.seed_rel(s, out.0, m1)
        &&& self.1.seed_rel(m1, out.1, m2)
        &&& self.2.seed_rel(m2, out.2, m3)
        &&& self.3.seed_rel(m3, out.3, m4)
        &&& self.4.seed_rel(m4, out.4, m5)
        &&& self.5.seed_rel(m5, out.5, m6)
        &&& self.6.seed_rel(m6, out.6, s2)
    }

    proof fn seed_functional(self, s: u64, o1: (T0::Output, T1::Output, T2::Output, T3::Output, T4::Output, T5::Output, T6::Output), s1: u64, o2: (T0::Output, T1::Output, T2::Output, T3::Output, T4::Output, T5::Output, T6::Output), s2: u64) {
        let m1 = self.0.seed_after(s);
        let m2 = self.1.seed_after(m1);
        let m3 = self.2.seed_after(m2);
        let m4 = self.3.seed_after(m3);
        let m5 = self.4.seed_after(m4);
        let m6 = self.5.seed_after(m5);
        self.0.seed_functional(s, o1.0, m1, o2.0, m1);
        self.1.seed_functional(m1, o1.1, m2, o2.1, m2);
        self.2.seed_functional(m2, o1.2, m3, o2.2, m3);
        self.3.seed_functional(m3, o1.3, m4, o2.3, m4);
        self.4.seed_functional(m4, o1.4, m5, o2.4, m5);
        self.5.seed_functional(m5, o1.5, m6, o2.5, m6);
        self.6.seed_functional(m6, o1.6, s1, o2.6, s2);
    }

    open spec fn seed_after(self, s: u64) -> u64 {
        self.6.seed_after(self.5.seed_after(self.4.seed_after(self.3.seed_after(self.2.seed_after(self.1.seed_after(self.0.seed_after(s)))))))
    }

    proof fn seed_after_ok(self, s: u64, out: (T0::Output, T1::Output, T2::Output, T3::Output, T4::Output, T5::Output, T6::Output), s2: u64) {
        self.6.seed_after_ok(self.5.seed_after(self.4.seed_after(self.3.seed_after(self.2.seed_after(self.1.seed_after(self.0.seed_after(s)))))), out.6, s2);
    }

    fn garble<G: Garbler>(self, garbler: &mut G) -> (out: (T0::Output, T1::Output, T2::Output, T3::Output, T4::Output, T5::Output, T6::Output)) {
        let ghost s = self;
        let (v0, v1, v2, v3, v4, v5, v6) = self;
        let r0 = v0.garble(garbler);
        let ghost mid1 = *garbler;
        let r1 = v1.garble(garbler);
        let ghost mid2 = *garbler;
        let r2 = v2.garble(garbler);
        let ghost mid3 = *garbler;
        let r3 = v3.garble(garbler);
        let ghost mid4 = *garbler;
        let r4 = v4.garble(garbler);
        let ghost mid5 = *garbler;
        let r5 = v5.garble(garbler);
        let ghost mid6 = *garbler;
        let r6 = v6.garble(garbler);
        proof {
            if old(garbler).logs() {
                lemma_prefix_trans(old(garbler).log(), mid1.log(), mid2.log());
                lemma_prefix_trans(old(garbler).log(), mid2.log(), mid3.log());
                lemma_prefix_trans(old(garbler).log(), mid3.log(), mid4.log());
                lemma_prefix_trans(old(garbler).log(), mid4.log(), mid5.log());
                lemma_prefix_trans(old(garbler).log(), mid5.log(), mid6.log());
                lemma_prefix_trans(old(garbler).log(), mid6.log(), garbler.log());
                if s.trace_exact() {
                    lemma_concat_assoc(old(garbler).log(), s.0.trace(), s.1.trace());
                    lemma_concat_assoc(old(garbler).log(), s.0.trace() + s.1.trace(), s.2.trace());
                    lemma_concat_assoc(old(garbler).log(), s.0.trace() + s.1.trace() + s.2.trace(), s.3.trace());
                    lemma_concat_assoc(old(garbler).log(), s.0.trace() + s.1.trace() + s.2.trace() + s.3.trace(), s.4.trace());
                    lemma_concat_assoc(old(garbler).log(), s.0.trace() + s.1.trace() + s.2.trace() + s.3.trace() + s.4.trace(), s.5.trace());
                    lemma_concat_assoc(old(garbler).log(), s.0.trace() + s.1.trace() + s.2.trace() + s.3.trace() + s.4.trace() + s.5.trace(), s.6.trace());
                }
            }
            if old(garbler).follows_seed() && s.seed_known() {
                s.0.seed_after_ok(old(garbler).seed_state(), r0, mid1.seed_state());
                s.1.seed_after_ok(mid1.seed_state(), r1, mid2.seed_state());
                s.2.seed_after_ok(mid2.seed_state(), r2, mid3.seed_state());
                s.3.seed_after_ok(mid3.seed_state(), r3, mid4.seed_state());
                s.4.seed_after_ok(mid4.seed_state(), r4, mid5.seed_state());
                s.5.seed_after_ok(mid5.seed_state(), r5, mid6.seed_state());
            }
        }
        (r0, r1, r2, r3, r4, r5, r6)
    }
}

impl<T0: Garble, T1: Garble, T2: Garble, T3: Garble, T4: Garble, T5: Garble, T6: Garble, T7: Garble> Garble for (T0, T1, T2, T3, T4, T5, T6, T7) {
    type Output = (T0::Output, T1::Output, T2::Output, T3::Output, T4::Output, T5::Output, T6::Output, T7::Output);

    open spec fn garble_rel(self, out: (T0::Output, T1::Output, T2::Output, T3::Output, T4::Output, T5::Output, T6::Output, T7::Output)) -> bool {
        &&& self.0.garble_rel(out.0)
        &&& self.1.garble_rel(out.1)
        &&& self.2.garble_rel(out.2)
        &&& self.3.garble_rel(out.3)
        &&& self.4.garble_rel(out.4)
        &&& self.5.garble_rel(out.5)
        &&& self.6.garble_rel(out.6)
        &&& self.7.garble_rel(out.7)
    }

    open spec fn id_rel(self, out: (T0::Output, T1::Output, T2::Output, T3::Output, T4::Output, T5::Output, T6::Output, T7::Output)) -> bool {
        &&& self.0.id_rel(out.0)
        &&& self.1.id_rel(out.1)
        &&& self.2.id_rel(out.2)
        &&& self.3.id_rel(out.3)
        &&& self.4.id_rel(out.4)
        &&& self.5.id_rel(out.5)
        &&& self.6.id_rel(out.6)
        &&& self.7.id_rel(out.7)
    }

    open spec fn flat_rel(self, out: (T0::Output, T1::Output, T2::Output, T3::Output, T4::Output, T5::Output, T6::Output, T7::Output)) -> bool {
        &&& self.0.flat_rel(out.0)
        &&& self.1.flat_rel(out.1)
        &&& self.2.flat_rel(out.2)
        &&& self.3.flat_rel(out.3)
        &&& self.4.flat_rel(out.4)
        &&& self.5.flat_rel(out.5)
        &&& self.6.flat_rel(out.6)
        &&& self.7.flat_rel(out.7)
    }

    open spec fn trace(self) -> Seq<Leaf> {
        self.0.trace() + self.1.trace() + self.2.trace() + self.3.trace() + self.4.trace() + self.5.trace() + self.6.trace() + self.7.trace()
    }

    open spec fn trace_exact(self) -> bool {
        &&& self.0.trace_exact()
        &&& self.1.trace_exact()
        &&& self.2.trace_exact()
        &&& self.3.trace_exact()
        &&& self.4.trace_exact()
        &&& self.5.trace_exact()
        &&& self.6.trace_exact()
        &&& self.7.trace_exact()
    }

    open spec fn seed_known(self) -> bool {
        &&& self.0.seed_known()
        &&& self.1.seed_known()
        &&& self.2.seed_known()
        &&& self.3.seed_known()
        &&& self.4.seed_known()
        &&& self.5.seed_known()
        &&& self.6.seed_known()
        &&& self.7.seed_known()
    }

    open spec fn out_eq(a: (T0::Output, T1::Output, T2::Output, T3::Output, T4::Output, T5::Output, T6::Output, T7::Output), b: (T0::Output, T1::Output, T2::Output, T3::Output, T4::Output, T5::Output, T6::Output, T7::Output)) -> bool {
        &&& T0::out_eq(a.0, b.0)
        &&& T1::out_eq(a.1, b.1)
        &&& T2::out_eq(a.2, b.2)
        &&& T3::out_eq(a.3, b.3)
        &&& T4::out_eq(a.4, b.4)
        &&& T5::out_eq(a.5, b.5)
        &&& T6::out_eq(a.6, b.6)
        &&& T7::out_eq(a.7, b.7)
    }

    open spec fn seed_rel(self, s: u64, out: (T0::Output, T1::Output, T2::Output, T3::Output, T4::Output, T5::Output, T6::Output, T7::Output), s2: u64) -> bool {
        let m1 = self.0.seed_after(s);
        let m2 = self.1.seed_after(m1);
        let m3 = self.2.seed_after(m2);
        let m4 = self.3.seed_after(m3);
        let m5 = self.4.seed_after(m4);
        let m6 = self.5.seed_after(m5);
        let m7 = self.6.seed_after(m6);
        &&& self.0.seed_rel(s, out.0, m1)
        &&& self.1.seed_rel(m1, out.1, m2)
        &&& self.2.seed_rel(m2, out.2, m3)
        &&& self.3.seed_rel(m3, out.3, m4)
        &&& self.4.seed_rel(m4, out.4, m5)
        &&& self.5.seed_rel(m5, out.5, m6)
        &&& self.6.seed_rel(m6, out.6, m7)
        &&& self.7.seed_rel(m7, out.7, s2)
    }

    proof fn seed_functional(self, s: u64, o1: (T0::Output, T1::Output, T2::Output, T3::Output, T4::Output, T5::Output, T6::Output, T7::Output), s1: u64, o2: (T0::Output, T1::Output, T2::Output, T3::Output, T4::Output, T5::Output, T6::Output, T7::Output), s2: u64) {
        let m1 = self.0.seed_after(s);
        let m2 = self.1.seed_after(m1);
        let m3 = self.2.seed_after(m2);
        let m4 = self.3.seed_after(m3);
        let m5 = self.4.seed_after(m4);
        let m6 = self.5.seed_after(m5);
        let m7 = self.6.seed_after(m6);
        self.0.seed_functional(s, o1.0, m1, o2.0, m1);
        self.1.seed_functional(m1, o1.1, m2, o2.1, m2);
        self.2.seed_functional(m2, o1.2, m3, o2.2, m3);
        self.3.seed_functional(m3, o1.3, m4, o2.3, m4);
        self.4.seed_functional(m4, o1.4, m5, o2.4, m5);
        self.5.seed_functional(m5, o1.5, m6, o2.5, m6);
        self.6.seed_functional(m6, o1.6, m7, o2.6, m7);
        self.7.seed_functional(m7, o1.7, s1, o2.7, s2);
    }

    open spec fn seed_after(self, s: u64) -> u64 {
        self.7.seed_after(self.6.seed_after(self.5.seed_after(self.4.seed_after(self.3.seed_after(self.2.seed_after(self.1.seed_after(self.0.seed_after(s))))))))
    }

    proof fn seed_after_ok(self, s: u64, out: (T0::Output, T1::Output, T2::Output, T3::Output, T4::Output, T5::Output, T6::Output, T7::Output), s2: u64) {
        self.7.seed_after_ok(self.6.seed_after(self.5.seed_after(self.4.seed_after(self.3.seed_after(self.2.seed_after(self.1.seed_after(self.0.seed_after(s))))))), out.7, s2);
    }

    fn garble<G: Garbler>(self, garbler: &mut G) -> (out: (T0::Output, T1::Output, T2::Output, T3::Output, T4::Output, T5::Output, T6::Output, T7::Output)) {
        let ghost s = self;
        let (v0, v1, v2, v3, v4, v5, v6, v7) = self;
        let r0 = v0.garble(garbler);
        let ghost mid1 = *garbler;
        let r1 = v1.garble(garbler);
        let ghost mid2 = *garbler;
        let r2 = v2.garble(garbler);
        let ghost mid3 = *garbler;
        let r3 = v3.garble(garbler);
        let ghost mid4 = *garbler;
        let r4 = v4.garble(garbler);
        let ghost mid5 = *garbler;
        let r5 = v5.garble(garbler);
        let ghost mid6 = *garbler;
        let r6 = v6.garble(garbler);
        let ghost mid7 = *garbler;
        let r7 = v7.garble(garbler);
        proof {
            if old(garbler).logs() {
                lemma_prefix_trans(old(garbler).log(), mid1.log(), mid2.log());
                lemma_prefix_trans(old(garbler).log(), mid2.log(), mid3.log());
                lemma_prefix_trans(old(garbler).log(), mid3.log(), mid4.log());
                lemma_prefix_trans(old(garbler).log(), mid4.log(), mid5.log());
                lemma_prefix_trans(old(garbler).log(), mid5.log(), mid6.log());
                lemma_prefix_trans(old(garbler).log(), mid6.log(), mid7.log());
                lemma_prefix_trans(old(garbler).log(), mid7.log(), garbler.log());
                if s.trace_exact() {
                    lemma_concat_assoc(old(garbler).log(), s.0.trace(), s.1.trace());
                    lemma_concat_assoc(old(garbler).log(), s.0.trace() + s.1.trace(), s.2.trace());
                    lemma_concat_assoc(old(garbler).log(), s.0.trace() + s.1.trace() + s.2.trace(), s.3.trace());
                    lemma_concat_assoc(old(garbler).log(), s.0.trace() + s.1.trace() + s.2.trace() + s.3.trace(), s.4.trace());
                    lemma_concat_assoc(old(garbler).log(), s.0.trace() + s.1.trace() + s.2.trace() + s.3.trace() + s.4.trace(), s.5.trace());
                    lemma_concat_assoc(old(garbler).log(), s.0.trace() + s.1.trace() + s.2.trace() + s.3.trace() + s.4.trace() + s.5.trace(), s.6.trace());
                    lemma_concat_assoc(old(garbler).log(), s.0.trace() + s.1.trace() + s.2.trace() + s.3.trace() + s.4.trace() + s.5.trace() + s.6.trace(), s.7.trace());
                }
            }
            if old(garbler).follows_seed() && s.seed_known() {
                s.0.seed_after_ok(old(garbler).seed_state(), r0, mid1.seed_state());
                s.1.seed_after_ok(mid1.seed_state(), r1, mid2.seed_state());
                s.2.seed_after_ok(mid2.seed_state(), r2, mid3.seed_state());
                s.3.seed_after_ok(mid3.seed_state(), r3, mid4.seed_state());
                s.4.seed_after_ok(mid4.seed_state(), r4, mid5.seed_state());
                s.5.seed_after_ok(mid5.seed_state(), r5, mid6.seed_state());
                s.6.seed_after_ok(mid6.seed_state(), r6, mid7.seed_state());
            }
        }
        (r0, r1, r2, r3, r4, r5, r6, r7)
    }
}

impl<T0: Garble, T1: Garble, T2: Garble, T3: Garble, T4: Garble, T5: Garble, T6: Garble, T7: Garble, T8: Garble> Garble for (T0, T1, T2, T3, T4, T5, T6, T7, T8) {
    type Output = (T0::Output, T1::Output, T2::Output, T3::Output, T4::Output, T5::Output, T6::Output, T7::Output, T8::Output);

    open spec fn garble_rel(self, out: (T0::Output, T1::Output, T2::Output, T3::Output, T4::Output, T5::Output, T6::Output, T7::Output, T8::Output)) -> bool {
        &&& self.0.garble_rel(out.0)
        &&& self.1.garble_rel(out.1)
        &&& self.2.garble_rel(out.2)
        &&& self.3.garble_rel(out.3)
        &&& self.4.garble_rel(out.4)
        &&& self.5.garble_rel(out.5)
        &&& self.6.garble_rel(out.6)
        &&& self.7.garble_rel(out.7)
        &&& self.8.garble_rel(out.8)
    }

    open spec fn id_rel(self, out: (T0::Output, T1::Output, T2::Output, T3::Output, T4::Output, T5::Output, T6::Output, T7::Output, T8::Output)) -> bool {
        &&& self.0.id_rel(out.0)
        &&& self.1.id_rel(out.1)
        &&& self.2.id_rel(out.2)
        &&& self.3.id_rel(out.3)
        &&& self.4.id_rel(out.4)
        &&& self.5.id_rel(out.5)
        &&& self.6.id_rel(out.6)
        &&& self.7.id_rel(out.7)
        &&& self.8.id_rel(out.8)
    }

    open spec fn flat_rel(self, out: (T0::Output, T1::Output, T2::Output, T3::Output, T4::Output, T5::Output, T6::Output, T7::Output, T8::Output)) -> bool {
        &&& self.0.flat_rel(out.0)
        &&& self.1.flat_rel(out.1)
        &&& self.2.flat_rel(out.2)
        &&& self.3.flat_rel(out.3)
        &&& self.4.flat_rel(out.4)
        &&& self.5.flat_rel(out.5)
        &&& self.6.flat_rel(out.6)
        &&& self.7.flat_rel(out.7)
        &&& self.8.flat_rel(out.8)
    }

    open spec fn trace(self) -> Seq<Leaf> {
        self.0.trace() + self.1.trace() + self.2.trace() + self.3.trace() + self.4.trace() + self.5.trace() + self.6.trace() + self.7.trace() + self.8.trace()
    }

    open spec fn trace_exact(self) -> bool {
        &&& self.0.trace_exact()
        &&& self.1.trace_exact()
        &&& self.2.trace_exact()
        &&& self.3.trace_exact()
        &&& self.4.trace_exact()
        &&& self.5.trace_exact()
        &&& self.6.trace_exact()
        &&& self.7.trace_exact()
        &&& self.8.trace_exact()
    }

    open spec fn seed_known(self) -> bool {
        &&& self.0.seed_known()
        &&& self.1.seed_known()
        &&& self.2.seed_known()
        &&& self.3.seed_known()
        &&& self.4.seed_known()
        &&& self.5.seed_known()
        &&& self.6.seed_known()
        &&& self.7.seed_known()
        &&& self.8.seed_known()
    }

    open spec fn out_eq(a: (T0::Output, T1::Output, T2::Output, T3::Output, T4::Output, T5::Output, T6::Output, T7::Output, T8::Output), b: (T0::Output, T1::Output, T2::Output, T3::Output, T4::Output, T5::Output, T6::Output, T7::Output, T8::Output)) -> bool {
        &&& T0::out_eq(a.0, b.0)
        &&& T1::out_eq(a.1, b.1)
        &&& T2::out_eq(a.2, b.2)
        &&& T3::out_eq(a.3, b.3)
        &&& T4::out_eq(a.4, b.4)
        &&& T5::out_eq(a.5, b.5)
        &&& T6::out_eq(a.6, b.6)
        &&& T7::out_eq(a.7, b.7)
        &&& T8::out_eq(a.8, b.8)
    }

    open spec fn seed_rel(self, s: u64, out: (T0::Output, T1::Output, T2::Output, T3::Output, T4::Output, T5::Output, T6::Output, T7::Output, T8::Output), s2: u64) -> bool {
        let m1 = self.0.seed_after(s);
        let m2 = self.1.seed_after(m1);
        let m3 = self.2.seed_after(m2);
        let m4 = self.3.seed_after(m3);
        let m5 = self.4.seed_after(m4);
        let m6 = self.5.seed_after(m5);
        let m7 = self.6.seed_after(m6);
        let m8 = self.7.seed_after(m7);
        &&& self.0.seed_rel(s, out.0, m1)
        &&& self.1.seed_rel(m1, out.1, m2)
        &&& self.2.seed_rel(m2, out.2, m3)
        &&& self.3.seed_rel(m3, out.3, m4)
        &&& self.4.seed_rel(m4, out.4, m5)
        &&& self.5.seed_rel(m5, out.5, m6)
        &&& self.6.seed_rel(m6, out.6, m7)
        &&& self.7.seed_rel(m7, out.7, m8)
        &&& self.8.seed_rel(m8, out.8, s2)
    }

    proof fn seed_functional(self, s: u64, o1: (T0::Output, T1::Output, T2::Output, T3::Output, T4::Output, T5::Output, T6::Output, T7::Output, T8::Output), s1: u64, o2: (T0::Output, T1::Output, T2::Output, T3::Output, T4::Output, T5::Output, T6::Output, T7::Output, T8::Output), s2: u64) {
        let m1 = self.0.seed_after(s);
        let m2 = self.1.seed_after(m1);
        let m3 = self.2.seed_after(m2);
        let m4 = self.3.seed_after(m3);
        let m5 = self.4.seed_after(m4);
        let m6 = self.5.seed_after(m5);
        let m7 = self.6.seed_after(m6);
        let m8 = self.7.seed_after(m7);
        self.0.seed_functional(s, o1.0, m1, o2.0, m1);
        self.1.seed_functional(m1, o1.1, m2, o2.1, m2);
        self.2.seed_functional(m2, o1.2, m3, o2.2, m3);
        self.3.seed_functional(m3, o1.3, m4, o2.3, m4);
        self.4.seed_functional(m4, o1.4, m5, o2.4, m5);
        self.5.seed_functional(m5, o1.5, m6, o2.5, m6);
        self.6.seed_functional(m6, o1.6, m7, o2.6, m7);
        self.7.seed_functional(m7, o1.7, m8, o2.7, m8);
        self.8.seed_functional(m8, o1.8, s1, o2.8, s2);
    }

    open spec fn seed_after(self, s: u64) -> u64 {
        self.8.seed_after(self.7.seed_after(self.6.seed_after(self.5.seed_after(self.4.seed_after(self.3.seed_after(self.2.seed_after(self.1.seed_after(self.0.seed_after(s)))))))))
    }

    proof fn seed_after_ok(self, s: u64, out: (T0::Output, T1::Output, T2::Output, T3::Output, T4::Output, T5::Output, T6::Output, T7::Output, T8::Output), s2: u64) {
        self.8.seed_after_ok(self.7.seed_after(self.6.seed_after(self.5.seed_after(self.4.seed_after(self.3.seed_after(self.2.seed_after(self.1.seed_after(self.0.seed_after(s)))))))), out.8, s2);
    }

    fn garble<G: Garbler>(self, garbler: &mut G) -> (out: (T0::Output, T1::Output, T2::Output, T3::Output, T4::Output, T5::Output, T6::Output, T7::Output, T8::Output)) {
        let ghost s = self;
        let (v0, v1, v2, v3, v4, v5, v6, v7, v8) = self;
        let r0 = v0.garble(garbler);
        let ghost mid1 = *garbler;
        let r1 = v1.garble(garbler);
        let ghost mid2 = *garbler;
        let r2 = v2.garble(garbler);
        let ghost mid3 = *garbler;
        let r3 = v3.garble(garbler);
        let ghost mid4 = *garbler;
        let r4 = v4.garble(garbler);
        let ghost mid5 = *garbler;
        let r5 = v5.garble(garbler);
        let ghost mid6 = *garbler;
        let r6 = v6.garble(garbler);
        let ghost mid7 = *garbler;
        let r7 = v7.garble(garbler);
        let ghost mid8 = *garbler;
        let r8 = v8.garble(garbler);
        proof {
            if old(garbler).logs() {
                lemma_prefix_trans(old(garbler).log(), mid1.log(), mid2.log());
                lemma_prefix_trans(old(garbler).log(), mid2.log(), mid3.log());
                lemma_prefix_trans(old(garbler).log(), mid3.log(), mid4.log());
                lemma_prefix_trans(old(garbler).log(), mid4.log(), mid5.log());
                lemma_prefix_trans(old(garbler).log(), mid5.log(), mid6.log());
                lemma_prefix_trans(old(garbler).log(), mid6.log(), mid7.log());
                lemma_prefix_trans(old(garbler).log(), mid7.log(), mid8.log());
                lemma_prefix_trans(old(garbler).log(), mid8.log(), garbler.log());
                if s.trace_exact() {
                    lemma_concat_assoc(old(garbler).log(), s.0.trace(), s.1.trace());
                    lemma_concat_assoc(old(garbler).log(), s.0.trace() + s.1.trace(), s.2.trace());
                    lemma_concat_assoc(old(garbler).log(), s.0.trace() + s.1.trace() + s.2.trace(), s.3.trace());
                    lemma_concat_assoc(old(garbler).log(), s.0.trace() + s.1.trace() + s.2.trace() + s.3.trace(), s.4.trace());
                    lemma_concat_assoc(old(garbler).log(), s.0.trace() + s.1.trace() + s.2.trace() + s.3.trace() + s.4.trace(), s.5.trace());
                    lemma_concat_assoc(old(garbler).log(), s.0.trace() + s.1.trace() + s.2.trace() + s.3.trace() + s.4.trace() + s.5.trace(), s.6.trace());
                    lemma_concat_assoc(old(garbler).log(), s.0.trace() + s.1.trace() + s.2.trace() + s.3.trace() + s.4.trace() + s.5.trace() + s.6.trace(), s.7.trace());
                    lemma_concat_assoc(old(garbler).log(), s.0.trace() + s.1.trace() + s.2.trace() + s.3.trace() + s.4.trace() + s.5.trace() + s.6.trace() + s.7.trace(), s.8.trace());
                }
            }
            if old(garbler).follows_seed() && s.seed_known() {
                s.0.seed_after_ok(old(garbler).seed_state(), r0, mid1.seed_state());
                s.1.seed_after_ok(mid1.seed_state(), r1, mid2.seed_state());
                s.2.seed_after_ok(mid2.seed_state(), r2, mid3.seed_state());
                s.3.seed_after_ok(mid3.seed_state(), r3, mid4.seed_state());
                s.4.seed_after_ok(mid4.seed_state(), r4, mid5.seed_state());
                s.5.seed_after_ok(mid5.seed_state(), r5, mid6.seed_state());
                s.6.seed_after_ok(mid6.seed_state(), r6, mid7.seed_state());
                s.7.seed_after_ok(mid7.seed_state(), r7, mid8.seed_state());
            }
        }
        (r0, r1, r2, r3, r4, r5, r6, r7, r8)
    }
}

impl<T0: Garble, T1: Garble, T2: Garble, T3: Garble, T4: Garble, T5: Garble, T6: Garble, T7: Garble, T8: Garble, T9: Garble> Garble for (T0, T1, T2, T3, T4, T5, T6, T7, T8, T9) {
    type Output = (T0::Output, T1::Output, T2::Output, T3::Output, T4::Output, T5::Output, T6::Output, T7::Output, T8::Output, T9::Output);

    open spec fn garble_rel(self, out: (T0::Output, T1::Output, T2::Output, T3::Output, T4::Output, T5::Output, T6::Output, T7::Output, T8::Output, T9::Output)) -> bool {
        &&& self.0.garble_rel(out.0)
        &&& self.1.garble_rel(out.1)
        &&& self.2.garble_rel(out.2)
        &&& self.3.garble_rel(out.3)
        &&& self.4.garble_rel(out.4)
        &&& self.5.garble_rel(out.5)
        &&& self.6.garble_rel(out.6)
        &&& self.7.garble_rel(out.7)
        &&& self.8.garble_rel(out.8)
        &&& self.9.garble_rel(out.9)
    }

    open spec fn id_rel(self, out: (T0::Output, T1::Output, T2::Output, T3::Output, T4::Output, T5::Output, T6::Output, T7::Output, T8::Output, T9::Output)) -> bool {
        &&& self.0.id_rel(out.0)
        &&& self.1.id_rel(out.1)
        &&& self.2.id_rel(out.2)
        &&& self.3.id_rel(out.3)
        &&& self.4.id_rel(out.4)
        &&& self.5.id_rel(out.5)
        &&& self.6.id_rel(out.6)
        &&& self.7.id_rel(out.7)
        &&& self.8.id_rel(out.8)
        &&& self.9.id_rel(out.9)
    }

    open spec fn flat_rel(self, out: (T0::Output, T1::Output, T2::Output, T3::Output, T4::Output, T5::Output, T6::Output, T7::Output, T8::Output, T9::Output)) -> bool {
        &&& self.0.flat_rel(out.0)
        &&& self.1.flat_rel(out.1)
        &&& self.2.flat_rel(out.2)
        &&& self.3.flat_rel(out.3)
        &&& self.4.flat_rel(out.4)
        &&& self.5.flat_rel(out.5)
        &&& self.6.flat_rel(out.6)
        &&& self.7.flat_rel(out.7)
        &&& self.8.flat_rel(out.8)
        &&& self.9.flat_rel(out.9)
    }

    open spec fn trace(self) -> Seq<Leaf> {
        self.0.trace() + self.1.trace() + self.2.trace() + self.3.trace() + self.4.trace() + self.5.trace() + self.6.trace() + self.7.trace() + self.8.trace() + self.9.trace()
    }

    open spec fn trace_exact(self) -> bool {
        &&& self.0.trace_exact()
        &&& self.1.trace_exact()
        &&& self.2.trace_exact()
        &&& self.3.trace_exact()
        &&& self.4.trace_exact()
        &&& self.5.trace_exact()
        &&& self.6.trace_exact()
        &&& self.7.trace_exact()
        &&& self.8.trace_exact()
        &&& self.9.trace_exact()
    }

    open spec fn seed_known(self) -> bool {
        &&& self.0.seed_known()
        &&& self.1.seed_known()
        &&& self.2.seed_known()
        &&& self.3.seed_known()
        &&& self.4.seed_known()
        &&& self.5.seed_known()
        &&& self.6.seed_known()
        &&& self.7.seed_known()
        &&& self.8.seed_known()
        &&& self.9.seed_known()
    }

    open spec fn out_eq(a: (T0::Output, T1::Output, T2::Output, T3::Output, T4::Output, T5::Output, T6::Output, T7::Output, T8::Output, T9::Output), b: (T0::Output, T1::Output, T2::Output, T3::Output, T4::Output, T5::Output, T6::Output, T7::Output, T8::Output, T9::Output)) -> bool {
        &&& T0::out_eq(a.0, b.0)
        &&& T1::out_eq(a.1, b.1)
        &&& T2::out_eq(a.2, b.2)
        &&& T3::out_eq(a.3, b.3)
        &&& T4::out_eq(a.4, b.4)
        &&& T5::out_eq(a.5, b.5)
        &&& T6::out_eq(a.6, b.6)
        &&& T7::out_eq(a.7, b.7)
        &&& T8::out_eq(a.8, b.8)
        &&& T9::out_eq(a.9, b.9)
    }

    open spec fn seed_rel(self, s: u64, out: (T0::Output, T1::Output, T2::Output, T3::Output, T4::Output, T5::Output, T6::Output, T7::Output, T8::Output, T9::Output), s2: u64) -> bool {
        let m1 = self.0.seed_after(s);
        let m2 = self.1.seed_after(m1);
        let m3 = self.2.seed_after(m2);
        let m4 = self.3.seed_after(m3);
        let m5 = self.4.seed_after(m4);
        let m6 = self.5.seed_after(m5);
        let m7 = self.6.seed_after(m6);
        let m8 = self.7.seed_after(m7);
        let m9 = self.8.seed_after(m8);
        &&& self.0.seed_rel(s, out.0, m1)
        &&& self.1.seed_rel(m1, out.1, m2)
        &&& self.2.seed_rel(m2, out.2, m3)
        &&& self.3.seed_rel(m3, out.3, m4)
        &&& self.4.seed_rel(m4, out.4, m5)
        &&& self.5.seed_rel(m5, out.5, m6)
        &&& self.6.seed_rel(m6, out.6, m7)
        &&& self.7.seed_rel(m7, out.7, m8)
        &&& self.8.seed_rel(m8, out.8, m9)
        &&& self.9.seed_rel(m9, out.9, s2)
    }

    proof fn seed_functional(self, s: u64, o1: (T0::Output, T1::Output, T2::Output, T3::Output, T4::Output, T5::Output, T6::Output, T7::Output, T8::Output, T9::Output), s1: u64, o2: (T0::Output, T1::Output, T2::Output, T3::Output, T4::Output, T5::Output, T6::Output, T7::Output, T8::Output, T9::Output), s2: u64) {
        let m1 = self.0.seed_after(s);
        let m2 = self.1.seed_after(m1);
        let m3 = self.2.seed_after(m2);
        let m4 = self.3.seed_after(m3);
        let m5 = self.4.seed_after(m4);
        let m6 = self.5.seed_after(m5);
        let m7 = self.6.seed_after(m6);
        let m8 = self.7.seed_after(m7);
        let m9 = self.8.seed_after(m8);
        self.0.seed_functional(s, o1.0, m1, o2.0, m1);
        self.1.seed_functional(m1, o1.1, m2, o2.1, m2);
        self.2.seed_functional(m2, o1.2, m3, o2.2, m3);
        self.3.seed_functional(m3, o1.3, m4, o2.3, m4);
        self.4.seed_functional(m4, o1.4, m5, o2.4, m5);
        self.5.seed_functional(m5, o1.5, m6, o2.5, m6);
        self.6.seed_functional(m6, o1.6, m7, o2.6, m7);
        self.7.seed_functional(m7, o1.7, m8, o2.7, m8);
        self.8.seed_functional(m8, o1.8, m9, o2.8, m9);
        self.9.seed_functional(m9, o1.9, s1, o2.9, s2);
    }

    open spec fn seed_after(self, s: u64) -> u64 {
        self.9.seed_after(self.8.seed_after(self.7.seed_after(self.6.seed_after(self.5.seed_after(self.4.seed_after(self.3.seed_after(self.2.seed_after(self.1.seed_after(self.0.seed_after(s))))))))))
    }

    proof fn seed_after_ok(self, s: u64, out: (T0::Output, T1::Output, T2::Output, T3::Output, T4::Output, T5::Output, T6::Output, T7::Output, T8::Output, T9::Output), s2: u64) {
        self.9.seed_after_ok(self.8.seed_after(self.7.seed_after(self.6.seed_after(self.5.seed_after(self.4.seed_after(self.3.seed_after(self.2.seed_after(self.1.seed_after(self.0.seed_after(s))))))))), out.9, s2);
    }

    fn garble<G: Garbler>(self, garbler: &mut G) -> (out: (T0::Output, T1::Output, T2::Output, T3::Output, T4::Output, T5::Output, T6::Output, T7::Output, T8::Output, T9::Output)) {
        let ghost s = self;
        let (v0, v1, v2, v3, v4, v5, v6, v7, v8, v9) = self;
        let r0 = v0.garble(garbler);
        let ghost mid1 = *garbler;
        let r1 = v1.garble(garbler);
        let ghost mid2 = *garbler;
        let r2 = v2.garble(garbler);
        let ghost mid3 = *garbler;
        let r3 = v3.garble(garbler);
        let ghost mid4 = *garbler;
        let r4 = v4.garble(garbler);
        let ghost mid5 = *garbler;
        let r5 = v5.garble(garbler);
        let ghost mid6 = *garbler;
        let r6 = v6.garble(garbler);
        let ghost mid7 = *garbler;
        let r7 = v7.garble(garbler);
        let ghost mid8 = *garbler;
        let r8 = v8.garble(garbler);
        let ghost mid9 = *garbler;
        let r9 = v9.garble(garbler);
        proof {
            if old(garbler).logs() {
                lemma_prefix_trans(old(garbler).log(), mid1.log(), mid2.log());
                lemma_prefix_trans(old(garbler).log(), mid2.log(), mid3.log());
                lemma_prefix_trans(old(garbler).log(), mid3.log(), mid4.log());
                lemma_prefix_trans(old(garbler).log(), mid4.log(), mid5.log());
                lemma_prefix_trans(old(garbler).log(), mid5.log(), mid6.log());
                lemma_prefix_trans(old(garbler).log(), mid6.log(), mid7.log());
                lemma_prefix_trans(old(garbler).log(), mid7.log(), mid8.log());
                lemma_prefix_trans(old(garbler).log(), mid8.log(), mid9.log());
                lemma_prefix_trans(old(garbler).log(), mid9.log(), garbler.log());
                if s.trace_exact() {
                    lemma_concat_assoc(old(garbler).log(), s.0.trace(), s.1.trace());
                    lemma_concat_assoc(old(garbler).log(), s.0.trace() + s.1.trace(), s.2.trace());
                    lemma_concat_assoc(old(garbler).log(), s.0.trace() + s.1.trace() + s.2.trace(), s.3.trace());
                    lemma_concat_assoc(old(garbler).log(), s.0.trace() + s.1.trace() + s.2.trace() + s.3.trace(), s.4.trace());
                    lemma_concat_assoc(old(garbler).log(), s.0.trace() + s.1.trace() + s.2.trace() + s.3.trace() + s.4.trace(), s.5.trace());
                    lemma_concat_assoc(old(garbler).log(), s.0.trace() + s.1.trace() + s.2.trace() + s.3.trace() + s.4.trace() + s.5.trace(), s.6.trace());
                    lemma_concat_assoc(old(garbler).log(), s.0.trace() + s.1.trace() + s.2.trace() + s.3.trace() + s.4.trace() + s.5.trace() + s.6.trace(), s.7.trace());
                    lemma_concat_assoc(old(garbler).log(), s.0.trace() + s.1.trace() + s.2.trace() + s.3.trace() + s.4.trace() + s.5.trace() + s.6.trace() + s.7.trace(), s.8.trace());
                    lemma_concat_assoc(old(garbler).log(), s.0.trace() + s.1.trace() + s.2.trace() + s.3.trace() + s.4.trace() + s.5.trace() + s.6.trace() + s.7.trace() + s.8.trace(), s.9.trace());
                }
            }
            if old(garbler).follows_seed() && s.seed_known() {
                s.0.seed_after_ok(old(garbler).seed_state(), r0, mid1.seed_state());
                s.1.seed_after_ok(mid1.seed_state(), r1, mid2.seed_state());
                s.2.seed_after_ok(mid2.seed_state(), r2, mid3.seed_state());
                s.3.seed_after_ok(mid3.seed_state(), r3, mid4.seed_state());
                s.4.seed_after_ok(mid4.seed_state(), r4, mid5.seed_state());
                s.5.seed_after_ok(mid5.seed_state(), r5, mid6.seed_state());
                s.6.seed_after_ok(mid6.seed_state(), r6, mid7.seed_state());
                s.7.seed_after_ok(mid7.seed_state(), r7, mid8.seed_state());
                s.8.seed_after_ok(mid8.seed_state(), r8, mid9.seed_state());
            }
        }
        (r0, r1, r2, r3, r4, r5, r6, r7, r8, r9)
    }
}

impl<T0: Garble, T1: Garble, T2: Garble, T3: Garble, T4: Garble, T5: Garble, T6: Garble, T7: Garble, T8: Garble, T9: Garble, T10: Garble> Garble for (T0, T1, T2, T3, T4, T5, T6, T7, T8, T9, T10) {
    type Output = (T0::Output, T1::Output, T2::Output, T3::Output, T4::Output, T5::Output, T6::Output, T7::Output, T8::Output, T9::Output, T10::Output);

    open spec fn garble_rel(self, out: (T0::Output, T1::Output, T2::Output, T3::Output, T4::Output, T5::Output, T6::Output, T7::Output, T8::Output, T9::Output, T10::Output)) -> bool {
        &&& self.0.garble_rel(out.0)
        &&& self.1.garble_rel(out.1)
        &&& self.2.garble_rel(out.2)
        &&& self.3.garble_rel(out.3)
        &&& self.4.garble_rel(out.4)
        &&& self.5.garble_rel(out.5)
        &&& self.6.garble_rel(out.6)
        &&& self.7.garble_rel(out.7)
        &&& self.8.garble_rel(out.8)
        &&& self.9.garble_rel(out.9)
        &&& self.10.garble_rel(out.10)
    }

    open spec fn id_rel(self, out: (T0::Output, T1::Output, T2::Output, T3::Output, T4::Output, T5::Output, T6::Output, T7::Output, T8::Output, T9::Output, T10::Output)) -> bool {
        &&& self.0.id_rel(out.0)
        &&& self.1.id_rel(out.1)
        &&& self.2.id_rel(out.2)
        &&& self.3.id_rel(out.3)
        &&& self.4.id_rel(out.4)
        &&& self.5.id_rel(out.5)
        &&& self.6.id_rel(out.6)
        &&& self.7.id_rel(out.7)
        &&& self.8.id_rel(out.8)
        &&& self.9.id_rel(out.9)
        &&& self.10.id_rel(out.10)
    }

    open spec fn flat_rel(self, out: (T0::Output, T1::Output, T2::Output, T3::Output, T4::Output, T5::Output, T6::Output, T7::Output, T8::Output, T9::Output, T10::Output)) -> bool {
        &&& self.0.flat_rel(out.0)
        &&& self.1.flat_rel(out.1)
        &&& self.2.flat_rel(out.2)
        &&& self.3.flat_rel(out.3)
        &&& self.4.flat_rel(out.4)
        &&& self.5.flat_rel(out.5)
        &&& self.6.flat_rel(out.6)
        &&& self.7.flat_rel(out.7)
        &&& self.8.flat_rel(out.8)
        &&& self.9.flat_rel(out.9)
        &&& self.10.flat_rel(out.10)
    }

    open spec fn trace(self) -> Seq<Leaf> {
        self.0.trace() + self.1.trace() + self.2.trace() + self.3.trace() + self.4.trace() + self.5.trace() + self.6.trace() + self.7.trace() + self.8.trace() + self.9.trace() + self.10.trace()
    }

    open spec fn trace_exact(self) -> bool {
        &&& self.0.trace_exact()
        &&& self.1.trace_exact()
        &&& self.2.trace_exact()
        &&& self.3.trace_exact()
        &&& self.4.trace_exact()
        &&& self.5.trace_exact()
        &&& self.6.trace_exact()
        &&& self.7.trace_exact()
        &&& self.8.trace_exact()
        &&& self.9.trace_exact()
        &&& self.10.trace_exact()
    }

    open spec fn seed_known(self) -> bool {
        &&& self.0.seed_known()
        &&& self.1.seed_known()
        &&& self.2.seed_known()
        &&& self.3.seed_known()
        &&& self.4.seed_known()
        &&& self.5.seed_known()
        &&& self.6.seed_known()
        &&& self.7.seed_known()
        &&& self.8.seed_known()
        &&& self.9.seed_known()
        &&& self.10.seed_known()
    }

    open spec fn out_eq(a: (T0::Output, T1::Output, T2::Output, T3::Output, T4::Output, T5::Output, T6::Output, T7::Output, T8::Output, T9::Output, T10::Output), b: (T0::Output, T1::Output, T2::Output, T3::Output, T4::Output, T5::Output, T6::Output, T7::Output, T8::Output, T9::Output, T10::Output)) -> bool {
        &&& T0::out_eq(a.0, b.0)
        &&& T1::out_eq(a.1, b.1)
        &&& T2::out_eq(a.2, b.2)
        &&& T3::out_eq(a.3, b.3)
        &&& T4::out_eq(a.4, b.4)
        &&& T5::out_eq(a.5, b.5)
        &&& T6::out_eq(a.6, b.6)
        &&& T7::out_eq(a.7, b.7)
        &&& T8::out_eq(a.8, b.8)
        &&& T9::out_eq(a.9, b.9)
        &&& T10::out_eq(a.10, b.10)
    }

    open spec fn seed_rel(self, s: u64, out: (T0::Output, T1::Output, T2::Output, T3::Output, T4::Output, T5::Output, T6::Output, T7::Output, T8::Output, T9::Output, T10::Output), s2: u64) -> bool {
        let m1 = self.0.seed_after(s);
        let m2 = self.1.seed_after(m1);
        let m3 = self.2.seed_after(m2);
        let m4 = self.3.seed_after(m3);
        let m5 = self.4.seed_after(m4);
        let m6 = self.5.seed_after(m5);
        let m7 = self.6.seed_after(m6);
        let m8 = self.7.seed_after(m7);
        let m9 = self.8.seed_after(m8);
        let m10 = self.9.seed_after(m9);
        &&& self.0.seed_rel(s, out.0, m1)
        &&& self.1.seed_rel(m1, out.1, m2)
        &&& self.2.seed_rel(m2, out.2, m3)
        &&& self.3.seed_rel(m3, out.3, m4)
        &&& self.4.seed_rel(m4, out.4, m5)
        &&& self.5.seed_rel(m5, out.5, m6)
        &&& self.6.seed_rel(m6, out.6, m7)
        &&& self.7.seed_rel(m7, out.7, m8)
        &&& self.8.seed_rel(m8, out.8, m9)
        &&& self.9.seed_rel(m9, out.9, m10)
        &&& self.10.seed_rel(m10, out.10, s2)
    }

    proof fn seed_functional(self, s: u64, o1: (T0::Output, T1::Output, T2::Output, T3::Output, T4::Output, T5::Output, T6::Output, T7::Output, T8::Output, T9::Output, T10::Output), s1: u64, o2: (T0::Output, T1::Output, T2::Output, T3::Output, T4::Output, T5::Output, T6::Output, T7::Output, T8::Output, T9::Output, T10::Output), s2: u64) {
        let m1 = self.0.seed_after(s);
        let m2 = self.1.seed_after(m1);
        let m3 = self.2.seed_after(m2);
        let m4 = self.3.seed_after(m3);
        let m5 = self.4.seed_after(m4);
        let m6 = self.5.seed_after(m5);
        let m7 = self.6.seed_after(m6);
        let m8 = self.7.seed_after(m7);
        let m9 = self.8.seed_after(m8);
        let m10 = self.9.seed_after(m9);
        self.0.seed_functional(s, o1.0, m1, o2.0, m1);
        self.1.seed_functional(m1, o1.1, m2, o2.1, m2);
        self.2.seed_functional(m2, o1.2, m3, o2.2, m3);
        self.3.seed_functional(m3, o1.3, m4, o2.3, m4);
        self.4.seed_functional(m4, o1.4, m5, o2.4, m5);
        self.5.seed_functional(m5, o1.5, m6, o2.5, m6);
        self.6.seed_functional(m6, o1.6, m7, o2.6, m7);
        self.7.seed_functional(m7, o1.7, m8, o2.7, m8);
        self.8.seed_functional(m8, o1.8, m9, o2.8, m9);
        self.9.seed_functional(m9, o1.9, m10, o2.9, m10);
        self.10.seed_functional(m10, o1.10, s1, o2.10, s2);
    }

    open spec fn seed_after(self, s: u64) -> u64 {
        self.10.seed_after(self.9.seed_after(self.8.seed_after(self.7.seed_after(self.6.seed_after(self.5.seed_after(self.4.seed_after(self.3.seed_after(self.2.seed_after(self.1.seed_after(self.0.seed_after(s)))))))))))
    }

    proof fn seed_after_ok(self, s: u64, out: (T0::Output, T1::Output, T2::Output, T3::Output, T4::Output, T5::Output, T6::Output, T7::Output, T8::Output, T9::Output, T10::Output), s2: u64) {
        self.10.seed_after_ok(self.9.seed_after(self.8.seed_after(self.7.seed_after(self.6.seed_after(self.5.seed_after(self.4.seed_after(self.3.seed_after(self.2.seed_after(self.1.seed_after(self.0.seed_after(s)))))))))), out.10, s2);
    }

    fn garble<G: Garbler>(self, garbler: &mut G) -> (out: (T0::Output, T1::Output, T2::Output, T3::Output, T4::Output, T5::Output, T6::Output, T7::Output, T8::Output, T9::Output, T10::Output)) {
        let ghost s = self;
        let (v0, v1, v2, v3, v4, v5, v6, v7, v8, v9, v10) = self;
        let r0 = v0.garble(garbler);
        let ghost mid1 = *garbler;
        let r1 = v1.garble(garbler);
        let ghost mid2 = *garbler;
        let r2 = v2.garble(garbler);
        let ghost mid3 = *garbler;
        let r3 = v3.garble(garbler);
        let ghost mid4 = *garbler;
        let r4 = v4.garble(garbler);
        let ghost mid5 = *garbler;
        let r5 = v5.garble(garbler);
        let ghost mid6 = *garbler;
        let r6 = v6.garble(garbler);
        let ghost mid7 = *garbler;
        let r7 = v7.garble(garbler);
        let ghost mid8 = *garbler;
        let r8 = v8.garble(garbler);
        let ghost mid9 = *garbler;
        let r9 = v9.garble(garbler);
        let ghost mid10 = *garbler;
        let r10 = v10.garble(garbler);
        proof {
            if old(garbler).logs() {
                lemma_prefix_trans(old(garbler).log(), mid1.log(), mid2.log());
                lemma_prefix_trans(old(garbler).log(), mid2.log(), mid3.log());
                lemma_prefix_trans(old(garbler).log(), mid3.log(), mid4.log());
                lemma_prefix_trans(old(garbler).log(), mid4.log(), mid5.log());
                lemma_prefix_trans(old(garbler).log(), mid5.log(), mid6.log());
                lemma_prefix_trans(old(garbler).log(), mid6.log(), mid7.log());
                lemma_prefix_trans(old(garbler).log(), mid7.log(), mid8.log());
                lemma_prefix_trans(old(garbler).log(), mid8.log(), mid9.log());
                lemma_prefix_trans(old(garbler).log(), mid9.log(), mid10.log());
                lemma_prefix_trans(old(garbler).log(), mid10.log(), garbler.log());
                if s.trace_exact() {
                    lemma_concat_assoc(old(garbler).log(), s.0.trace(), s.1.trace());
                    lemma_concat_assoc(old(garbler).log(), s.0.trace() + s.1.trace(), s.2.trace());
                    lemma_concat_assoc(old(garbler).log(), s.0.trace() + s.1.trace() + s.2.trace(), s.3.trace());
                    lemma_concat_assoc(old(garbler).log(), s.0.trace() + s.1.trace() + s.2.trace() + s.3.trace(), s.4.trace());
                    lemma_concat_assoc(old(garbler).log(), s.0.trace() + s.1.trace() + s.2.trace() + s.3.trace() + s.4.trace(), s.5.trace());
                    lemma_concat_assoc(old(garbler).log(), s.0.trace() + s.1.trace() + s.2.trace() + s.3.trace() + s.4.trace() + s.5.trace(), s.6.trace());
                    lemma_concat_assoc(old(garbler).log(), s.0.trace() + s.1.trace() + s.2.trace() + s.3.trace() + s.4.trace() + s.5.trace() + s.6.trace(), s.7.trace());
                    lemma_concat_assoc(old(garbler).log(), s.0.trace() + s.1.trace() + s.2.trace() + s.3.trace() + s.4.trace() + s.5.trace() + s.6.trace() + s.7.trace(), s.8.trace());
                    lemma_concat_assoc(old(garbler).log(), s.0.trace() + s.1.trace() + s.2.trace() + s.3.trace() + s.4.trace() + s.5.trace() + s.6.trace() + s.7.trace() + s.8.trace(), s.9.trace());
                    lemma_concat_assoc(old(garbler).log(), s.0.trace() + s.1.trace() + s.2.trace() + s.3.trace() + s.4.trace() + s.5.trace() + s.6.trace() + s.7.trace() + s.8.trace() + s.9.trace(), s.10.trace());
                }
            }
            if old(garbler).follows_seed() && s.seed_known() {
                s.0.seed_after_ok(old(garbler).seed_state(), r0, mid1.seed_state());
                s.1.seed_after_ok(mid1.seed_state(), r1, mid2.seed_state());
                s.2.seed_after_ok(mid2.seed_state(), r2, mid3.seed_state());
                s.3.seed_after_ok(mid3.seed_state(), r3, mid4.seed_state());
                s.4.seed_after_ok(mid4.seed_state(), r4, mid5.seed_state());
                s.5.seed_after_ok(mid5.seed_state(), r5, mid6.seed_state());
                s.6.seed_after_ok(mid6.seed_state(), r6, mid7.seed_state());
                s.7.seed_after_ok(mid7.seed_state(), r7, mid8.seed_state());
                s.8.seed_after_ok(mid8.seed_state(), r8, mid9.seed_state());
                s.9.seed_after_ok(mid9.seed_state(), r9, mid10.seed_state());
            }
        }
        (r0, r1, r2, r3, r4, r5, r6, r7, r8, r9, r10)
    }
}

impl<T0: Garble, T1: Garble, T2: Garble, T3: Garble, T4: Garble, T5: Garble, T6: Garble, T7: Garble, T8: Garble, T9: Garble, T10: Garble, T11: Garble> Garble for (T0, T1, T2, T3, T4, T5, T6, T7, T8, T9, T10, T11) {
    type Output = (T0::Output, T1::Output, T2::Output, T3::Output, T4::Output, T5::Output, T6::Output, T7::Output, T8::Output, T9::Output, T10::Output, T11::Output);

    open spec fn garble_rel(self, out: (T0::Output, T1::Output, T2::Output, T3::Output, T4::Output, T5::Output, T6::Output, T7::Output, T8::Output, T9::Output, T10::Output, T11::Output)) -> bool {
        &&& self.0.garble_rel(out.0)
        &&& self.1.garble_rel(out.1)
        &&& self.2.garble_rel(out.2)
        &&& self.3.garble_rel(out.3)
        &&& self.4.garble_rel(out.4)
        &&& self.5.garble_rel(out.5)
        &&& self.6.garble_rel(out.6)
        &&& self.7.garble_rel(out.7)
        &&& self.8.garble_rel(out.8)
        &&& self.9.garble_rel(out.9)
        &&& self.10.garble_rel(out.10)
        &&& self.11.garble_rel(out.11)
    }

    open spec fn id_rel(self, out: (T0::Output, T1::Output, T2::Output, T3::Output, T4::Output, T5::Output, T6::Output, T7::Output, T8::Output, T9::Output, T10::Output, T11::Output)) -> bool {
        &&& self.0.id_rel(out.0)
        &&& self.1.id_rel(out.1)
        &&& self.2.id_rel(out.2)
        &&& self.3.id_rel(out.3)
        &&& self.4.id_rel(out.4)
        &&& self.5.id_rel(out.5)
        &&& self.6.id_rel(out.6)
        &&& self.7.id_rel(out.7)
        &&& self.8.id_rel(out.8)
        &&& self.9.id_rel(out.9)
        &&& self.10.id_rel(out.10)
        &&& self.11.id_rel(out.11)
    }

    open spec fn flat_rel(self, out: (T0::Output, T1::Output, T2::Output, T3::Output, T4::Output, T5::Output, T6::Output, T7::Output, T8::Output, T9::Output, T10::Output, T11::Output)) -> bool {
        &&& self.0.flat_rel(out.0)
        &&& self.1.flat_rel(out.1)
        &&& self.2.flat_rel(out.2)
        &&& self.3.flat_rel(out.3)
        &&& self.4.flat_rel(out.4)
        &&& self.5.flat_rel(out.5)
        &&& self.6.flat_rel(out.6)
        &&& self.7.flat_rel(out.7)
        &&& self.8.flat_rel(out.8)
        &&& self.9.flat_rel(out.9)
        &&& self.10.flat_rel(out.10)
        &&& self.11.flat_rel(out.11)
    }

    open spec fn trace(self) -> Seq<Leaf> {
        self.0.trace() + self.1.trace() + self.2.trace() + self.3.trace() + self.4.trace() + self.5.trace() + self.6.trace() + self.7.trace() + self.8.trace() + self.9.trace() + self.10.trace() + self.11.trace()
    }

    open spec fn trace_exact(self) -> bool {
        &&& self.0.trace_exact()
        &&& self.1.trace_exact()
        &&& self.2.trace_exact()
        &&& self.3.trace_exact()
        &&& self.4.trace_exact()
        &&& self.5.trace_exact()
        &&& self.6.trace_exact()
        &&& self.7.trace_exact()
        &&& self.8.trace_exact()
        &&& self.9.trace_exact()
        &&& self.10.trace_exact()
        &&& self.11.trace_exact()
    }

    open spec fn seed_known(self) -> bool {
        &&& self.0.seed_known()
        &&& self.1.seed_known()
        &&& self.2.seed_known()
        &&& self.3.seed_known()
        &&& self.4.seed_known()
        &&& self.5.seed_known()
        &&& self.6.seed_known()
        &&& self.7.seed_known()
        &&& self.8.seed_known()
        &&& self.9.seed_known()
        &&& self.10.seed_known()
        &&& self.11.seed_known()
    }

    open spec fn out_eq(a: (T0::Output, T1::Output, T2::Output, T3::Output, T4::Output, T5::Output, T6::Output, T7::Output, T8::Output, T9::Output, T10::Output, T11::Output), b: (T0::Output, T1::Output, T2::Output, T3::Output, T4::Output, T5::Output, T6::Output, T7::Output, T8::Output, T9::Output, T10::Output, T11::Output)) -> bool {
        &&& T0::out_eq(a.0, b.0)
        &&& T1::out_eq(a.1, b.1)
        &&& T2::out_eq(a.2, b.2)
        &&& T3::out_eq(a.3, b.3)
        &&& T4::out_eq(a.4, b.4)
        &&& T5::out_eq(a.5, b.5)
        &&& T6::out_eq(a.6, b.6)
        &&& T7::out_eq(a.7, b.7)
        &&& T8::out_eq(a.8, b.8)
        &&& T9::out_eq(a.9, b.9)
        &&& T10::out_eq(a.10, b.10)
        &&& T11::out_eq(a.11, b.11)
    }

    open spec fn seed_rel(self, s: u64, out: (T0::Output, T1::Output, T2::Output, T3::Output, T4::Output, T5::Output, T6::Output, T7::Output, T8::Output, T9::Output, T10::Output, T11::Output), s2: u64) -> bool {
        let m1 = self.0.seed_after(s);
        let m2 = self.1.seed_after(m1);
        let m3 = self.2.seed_after(m2);
        let m4 = self.3.seed_after(m3);
        let m5 = self.4.seed_after(m4);
        let m6 = self.5.seed_after(m5);
        let m7 = self.6.seed_after(m6);
        let m8 = self.7.seed_after(m7);
        let m9 = self.8.seed_after(m8);
        let m10 = self.9.seed_after(m9);
        let m11 = self.10.seed_after(m10);
        &&& self.0.seed_rel(s, out.0, m1)
        &&& self.1.seed_rel(m1, out.1, m2)
        &&& self.2.seed_rel(m2, out.2, m3)
        &&& self.3.seed_rel(m3, out.3, m4)
        &&& self.4.seed_rel(m4, out.4, m5)
        &&& self.5.seed_rel(m5, out.5, m6)
        &&& self.6.seed_rel(m6, out.6, m7)
        &&& self.7.seed_rel(m7, out.7, m8)
        &&& self.8.seed_rel(m8, out.8, m9)
        &&& self.9.seed_rel(m9, out.9, m10)
        &&& self.10.seed_rel(m10, out.10, m11)
        &&& self.11.seed_rel(m11, out.11, s2)
    }

    proof fn seed_functional(self, s: u64, o1: (T0::Output, T1::Output, T2::Output, T3::Output, T4::Output, T5::Output, T6::Output, T7::Output, T8::Output, T9::Output, T10::Output, T11::Output), s1: u64, o2: (T0::Output, T1::Output, T2::Output, T3::Output, T4::Output, T5::Output, T6::Output, T7::Output, T8::Output, T9::Output, T10::Output, T11::Output), s2: u64) {
        let m1 = self.0.seed_after(s);
        let m2 = self.1.seed_after(m1);
        let m3 = self.2.seed_after(m2);
        let m4 = self.3.seed_after(m3);
        let m5 = self.4.seed_after(m4);
        let m6 = self.5.seed_after(m5);
        let m7 = self.6.seed_after(m6);
        let m8 = self.7.seed_after(m7);
        let m9 = self.8.seed_after(m8);
        let m10 = self.9.seed_after(m9);
        let m11 = self.10.seed_after(m10);
        self.0.seed_functional(s, o1.0, m1, o2.0, m1);
        self.1.seed_functional(m1, o1.1, m2, o2.1, m2);
        self.2.seed_functional(m2, o1.2, m3, o2.2, m3);
        self.3.seed_functional(m3, o1.3, m4, o2.3, m4);
        self.4.seed_functional(m4, o1.4, m5, o2.4, m5);
        self.5.seed_functional(m5, o1.5, m6, o2.5, m6);
        self.6.seed_functional(m6, o1.6, m7, o2.6, m7);
        self.7.seed_functional(m7, o1.7, m8, o2.7, m8);
        self.8.seed_functional(m8, o1.8, m9, o2.8, m9);
        self.9.seed_functional(m9, o1.9, m10, o2.9, m10);
        self.10.seed_functional(m10, o1.10, m11, o2.10, m11);
        self.11.seed_functional(m11, o1.11, s1, o2.11, s2);
    }

    open spec fn seed_after(self, s: u64) -> u64 {
        self.11.seed_after(self.10.seed_after(self.9.seed_after(self.8.seed_after(self.7.seed_after(self.6.seed_after(self.5.seed_after(self.4.seed_after(self.3.seed_after(self.2.seed_after(self.1.seed_after(self.0.seed_after(s))))))))))))
    }

    proof fn seed_after_ok(self, s: u64, out: (T0::Output, T1::Output, T2::Output, T3::Output, T4::Output, T5::Output, T6::Output, T7::Output, T8::Output, T9::Output, T10::Output, T11::Output), s2: u64) {
        self.11.seed_after_ok(self.10.seed_after(self.9.seed_after(self.8.seed_after(self.7.seed_after(self.6.seed_after(self.5.seed_after(self.4.seed_after(self.3.seed_after(self.2.seed_after(self.1.seed_after(self.0.seed_after(s))))))))))), out.11, s2);
    }

    fn garble<G: Garbler>(self, garbler: &mut G) -> (out: (T0::Output, T1::Output, T2::Output, T3::Output, T4::Output, T5::Output, T6::Output, T7::Output, T8::Output, T9::Output, T10::Output, T11::Output)) {
        let ghost s = self;
        let (v0, v1, v2, v3, v4, v5, v6, v7, v8, v9, v10, v11) = self;
        let r0 = v0.garble(garbler);
        let ghost mid1 = *garbler;
        let r1 = v1.garble(garbler);
        let ghost mid2 = *garbler;
        let r2 = v2.garble(garbler);
        let ghost mid3 = *garbler;
        let r3 = v3.garble(garbler);
        let ghost mid4 = *garbler;
        let r4 = v4.garble(garbler);
        let ghost mid5 = *garbler;
        let r5 = v5.garble(garbler);
        let ghost mid6 = *garbler;
        let r6 = v6.garble(garbler);
        let ghost mid7 = *garbler;
        let r7 = v7.garble(garbler);
        let ghost mid8 = *garbler;
        let r8 = v8.garble(garbler);
        let ghost mid9 = *garbler;
        let r9 = v9.garble(garbler);
        let ghost mid10 = *garbler;
        let r10 = v10.garble(garbler);
        let ghost mid11 = *garbler;
        let r11 = v11.garble(garbler);
        proof {
            if old(garbler).logs() {
                lemma_prefix_trans(old(garbler).log(), mid1.log(), mid2.log());
                lemma_prefix_trans(old(garbler).log(), mid2.log(), mid3.log());
                lemma_prefix_trans(old(garbler).log(), mid3.log(), mid4.log());
                lemma_prefix_trans(old(garbler).log(), mid4.log(), mid5.log());
                lemma_prefix_trans(old(garbler).log(), mid5.log(), mid6.log());
                lemma_prefix_trans(old(garbler).log(), mid6.log(), mid7.log());
                lemma_prefix_trans(old(garbler).log(), mid7.log(), mid8.log());
                lemma_prefix_trans(old(garbler).log(), mid8.log(), mid9.log());
                lemma_prefix_trans(old(garbler).log(), mid9.log(), mid10.log());
                lemma_prefix_trans(old(garbler).log(), mid10.log(), mid11.log());
                lemma_prefix_trans(old(garbler).log(), mid11.log(), garbler.log());
                if s.trace_exact() {
                    lemma_concat_assoc(old(garbler).log(), s.0.trace(), s.1.trace());
                    lemma_concat_assoc(old(garbler).log(), s.0.trace() + s.1.trace(), s.2.trace());
                    lemma_concat_assoc(old(garbler).log(), s.0.trace() + s.1.trace() + s.2.trace(), s.3.trace());
                    lemma_concat_assoc(old(garbler).log(), s.0.trace() + s.1.trace() + s.2.trace() + s.3.trace(), s.4.trace());
                    lemma_concat_assoc(old(garbler).log(), s.0.trace() + s.1.trace() + s.2.trace() + s.3.trace() + s.4.trace(), s.5.trace());
                    lemma_concat_assoc(old(garbler).log(), s.0.trace() + s.1.trace() + s.2.trace() + s.3.trace() + s.4.trace() + s.5.trace(), s.6.trace());
                    lemma_concat_assoc(old(garbler).log(), s.0.trace() + s.1.trace() + s.2.trace() + s.3.trace() + s.4.trace() + s.5.trace() + s.6.trace(), s.7.trace());
                    lemma_concat_assoc(old(garbler).log(), s.0.trace() + s.1.trace() + s.2.trace() + s.3.trace() + s.4.trace() + s.5.trace() + s.6.trace() + s.7.trace(), s.8.trace());
                    lemma_concat_assoc(old(garbler).log(), s.0.trace() + s.1.trace() + s.2.trace() + s.3.trace() + s.4.trace() + s.5.trace() + s.6.trace() + s.7.trace() + s.8.trace(), s.9.trace());
                    lemma_concat_assoc(old(garbler).log(), s.0.trace() + s.1.trace() + s.2.trace() + s.3.trace() + s.4.trace() + s.5.trace() + s.6.trace() + s.7.trace() + s.8.trace() + s.9.trace(), s.10.trace());
                    lemma_concat_assoc(old(garbler).log(), s.0.trace() + s.1.trace() + s.2.trace() + s.3.trace() + s.4.trace() + s.5.trace() + s.6.trace() + s.7.trace() + s.8.trace() + s.9.trace() + s.10.trace(), s.11.trace());
                }
            }
            if old(garbler).follows_seed() && s.seed_known() {
                s.0.seed_after_ok(old(garbler).seed_state(), r0, mid1.seed_state());
                s.1.seed_after_ok(mid1.seed_state(), r1, mid2.seed_state());
                s.2.seed_after_ok(mid2.seed_state(), r2, mid3.seed_state());
                s.3.seed_after_ok(mid3.seed_state(), r3, mid4.seed_state());
                s.4.seed_after_ok(mid4.seed_state(), r4, mid5.seed_state());
                s.5.seed_after_ok(mid5.seed_state(), r5, mid6.seed_state());
                s.6.seed_after_ok(mid6.seed_state(), r6, mid7.seed_state());
                s.7.seed_after_ok(mid7.seed_state(), r7, mid8.seed_state());
                s.8.seed_after_ok(mid8.seed_state(), r8, mid9.seed_state());
                s.9.seed_after_ok(mid9.seed_state(), r9, mid10.seed_state());
                s.10.seed_after_ok(mid10.seed_state(), r10, mid11.seed_state());
            }
        }
        (r0, r1, r2, r3, r4, r5, r6, r7, r8, r9, r10, r11)
    }
}

impl<T0: Garble, T1: Garble, T2: Garble, T3: Garble, T4: Garble, T5: Garble, T6: Garble, T7: Garble, T8: Garble, T9: Garble, T10: Garble, T11: Garble, T12: Garble> Garble for (T0, T1, T2, T3, T4, T5, T6, T7, T8, T9, T10, T11, T12) {
    type Output = (T0::Output, T1::Output, T2::Output, T3::Output, T4::Output, T5::Output, T6::Output, T7::Output, T8::Output, T9::Output, T10::Output, T11::Output, T12::Output);

    open spec fn garble_rel(self, out: (T0::Output, T1::Output, T2::Output, T3::Output, T4::Output, T5::Output, T6::Output, T7::Output, T8::Output, T9::Output, T10::Output, T11::Output, T12::Output)) -> bool {
        &&& self.0.garble_rel(out.0)
        &&& self.1.garble_rel(out.1)
        &&& self.2.garble_rel(out.2)
        &&& self.3.garble_rel(out.3)
        &&& self.4.garble_rel(out.4)
        &&& self.5.garble_rel(out.5)
        &&& self.6.garble_rel(out.6)
        &&& self.7.garble_rel(out.7)
        &&& self.8.garble_rel(out.8)
        &&& self.9.garble_rel(out.9)
        &&& self.10.garble_rel(out.10)
        &&& self.11.garble_rel(out.11)
        &&& self.12.garble_rel(out.12)
    }

    open spec fn id_rel(self, out: (T0::Output, T1::Output, T2::Output, T3::Output, T4::Output, T5::Output, T6::Output, T7::Output, T8::Output, T9::Output, T10::Output, T11::Output, T12::Output)) -> bool {
        &&& self.0.id_rel(out.0)
        &&& self.1.id_rel(out.1)
        &&& self.2.id_rel(out.2)
        &&& self.3.id_rel(out.3)
        &&& self.4.id_rel(out.4)
        &&& self.5.id_rel(out.5)
        &&& self.6.id_rel(out.6)
        &&& self.7.id_rel(out.7)
        &&& self.8.id_rel(out.8)
        &&& self.9.id_rel(out.9)
        &&& self.10.id_rel(out.10)
        &&& self.11.id_rel(out.11)
        &&& self.12.id_rel(out.12)
    }

    open spec fn flat_rel(self, out: (T0::Output, T1::Output, T2::Output, T3::Output, T4::Output, T5::Output, T6::Output, T7::Output, T8::Output, T9::Output, T10::Output, T11::Output, T12::Output)) -> bool {
        &&& self.0.flat_rel(out.0)
        &&& self.1.flat_rel(out.1)
        &&& self.2.flat_rel(out.2)
        &&& self.3.flat_rel(out.3)
        &&& self.4.flat_rel(out.4)
        &&& self.5.flat_rel(out.5)
        &&& self.6.flat_rel(out.6)
        &&& self.7.flat_rel(out.7)
        &&& self.8.flat_rel(out.8)
        &&& self.9.flat_rel(out.9)
        &&& self.10.flat_rel(out.10)
        &&& self.11.flat_rel(out.11)
        &&& self.12.flat_rel(out.12)
    }

    open spec fn trace(self) -> Seq<Leaf> {
        self.0.trace() + self.1.trace() + self.2.trace() + self.3.trace() + self.4.trace() + self.5.trace() + self.6.trace() + self.7.trace() + self.8.trace() + self.9.trace() + self.10.trace() + self.11.trace() + self.12.trace()
    }

    open spec fn trace_exact(self) -> bool {
        &&& self.0.trace_exact()
        &&& self.1.trace_exact()
        &&& self.2.trace_exact()
        &&& self.3.trace_exact()
        &&& self.4.trace_exact()
        &&& self.5.trace_exact()
        &&& self.6.trace_exact()
        &&& self.7.trace_exact()
        &&& self.8.trace_exact()
        &&& self.9.trace_exact()
        &&& self.10.trace_exact()
        &&& self.11.trace_exact()
        &&& self.12.trace_exact()
    }

    open spec fn seed_known(self) -> bool {
        &&& self.0.seed_known()
        &&& self.1.seed_known()
        &&& self.2.seed_known()
        &&& self.3.seed_known()
        &&& self.4.seed_known()
        &&& self.5.seed_known()
        &&& self.6.seed_known()
        &&& self.7.seed_known()
        &&& self.8.seed_known()
        &&& self.9.seed_known()
        &&& self.10.seed_known()
        &&& self.11.seed_known()
        &&& self.12.seed_known()
    }

    open spec fn out_eq(a: (T0::Output, T1::Output, T2::Output, T3::Output, T4::Output, T5::Output, T6::Output, T7::Output, T8::Output, T9::Output, T10::Output, T11::Output, T12::Output), b: (T0::Output, T1::Output, T2::Output, T3::Output, T4::Output, T5::Output, T6::Output, T7::Output, T8::Output, T9::Output, T10::Output, T11::Output, T12::Output)) -> bool {
        &&& T0::out_eq(a.0, b.0)
        &&& T1::out_eq(a.1, b.1)
        &&& T2::out_eq(a.2, b.2)
        &&& T3::out_eq(a.3, b.3)
        &&& T4::out_eq(a.4, b.4)
        &&& T5::out_eq(a.5, b.5)
        &&& T6::out_eq(a.6, b.6)
        &&& T7::out_eq(a.7, b.7)
        &&& T8::out_eq(a.8, b.8)
        &&& T9::out_eq(a.9, b.9)
        &&& T10::out_eq(a.10, b.10)
        &&& T11::out_eq(a.11, b.11)
        &&& T12::out_eq(a.12, b.12)
    }

    open spec fn seed_rel(self, s: u64, out: (T0::Output, T1::Output, T2::Output, T3::Output, T4::Output, T5::Output, T6::Output, T7::Output, T8::Output, T9::Output, T10::Output, T11::Output, T12::Output), s2: u64) -> bool {
        let m1 = self.0.seed_after(s);
        let m2 = self.1.seed_after(m1);
        let m3 = self.2.seed_after(m2);
        let m4 = self.3.seed_after(m3);
        let m5 = self.4.seed_after(m4);
        let m6 = self.5.seed_after(m5);
        let m7 = self.6.seed_after(m6);
        let m8 = self.7.seed_after(m7);
        let m9 = self.8.seed_after(m8);
        let m10 = self.9.seed_after(m9);
        let m11 = self.10.seed_after(m10);
        let m12 = self.11.seed_after(m11);
        &&& self.0.seed_rel(s, out.0, m1)
        &&& self.1.seed_rel(m1, out.1, m2)
        &&& self.2.seed_rel(m2, out.2, m3)
        &&& self.3.seed_rel(m3, out.3, m4)
        &&& self.4.seed_rel(m4, out.4, m5)
        &&& self.5.seed_rel(m5, out.5, m6)
        &&& self.6.seed_rel(m6, out.6, m7)
        &&& self.7.seed_rel(m7, out.7, m8)
        &&& self.8.seed_rel(m8, out.8, m9)
        &&& self.9.seed_rel(m9, out.9, m10)
        &&& self.10.seed_rel(m10, out.10, m11)
        &&& self.11.seed_rel(m11, out.11, m12)
        &&& self.12.seed_rel(m12, out.12, s2)
    }

    proof fn seed_functional(self, s: u64, o1: (T0::Output, T1::Output, T2::Output, T3::Output, T4::Output, T5::Output, T6::Output, T7::Output, T8::Output, T9::Output, T10::Output, T11::Output, T12::Output), s1: u64, o2: (T0::Output, T1::Output, T2::Output, T3::Output, T4::Output, T5::Output, T6::Output, T7::Output, T8::Output, T9::Output, T10::Output, T11::Output, T12::Output), s2: u64) {
        let m1 = self.0.seed_after(s);
        let m2 = self.1.seed_after(m1);
        let m3 = self.2.seed_after(m2);
        let m4 = self.3.seed_after(m3);
        let m5 = self.4.seed_after(m4);
        let m6 = self.5.seed_after(m5);
        let m7 = self.6.seed_after(m6);
        let m8 = self.7.seed_after(m7);
        let m9 = self.8.seed_after(m8);
        let m10 = self.9.seed_after(m9);
        let m11 = self.10.seed_after(m10);
        let m12 = self.11.seed_after(m11);
        self.0.seed_functional(s, o1.0, m1, o2.0, m1);
        self.1.seed_functional(m1, o1.1, m2, o2.1, m2);
        self.2.seed_functional(m2, o1.2, m3, o2.2, m3);
        self.3.seed_functional(m3, o1.3, m4, o2.3, m4);
        self.4.seed_functional(m4, o1.4, m5, o2.4, m5);
        self.5.seed_functional(m5, o1.5, m6, o2.5, m6);
        self.6.seed_functional(m6, o1.6, m7, o2.6, m7);
        self.7.seed_functional(m7, o1.7, m8, o2.7, m8);
        self.8.seed_functional(m8, o1.8, m9, o2.8, m9);
        self.9.seed_functional(m9, o1.9, m10, o2.9, m10);
        self.10.seed_functional(m10, o1.10, m11, o2.10, m11);
        self.11.seed_functional(m11, o1.11, m12, o2.11, m12);
        self.12.seed_functional(m12, o1.12, s1, o2.12, s2);
    }

    open spec fn seed_after(self, s: u64) -> u64 {
        self.12.seed_after(self.11.seed_after(self.10.seed_after(self.9.seed_after(self.8.seed_after(self.7.seed_after(self.6.seed_after(self.5.seed_after(self.4.seed_after(self.3.seed_after(self.2.seed_after(self.1.seed_after(self.0.seed_after(s)))))))))))))
    }

    proof fn seed_after_ok(self, s: u64, out: (T0::Output, T1::Output, T2::Output, T3::Output, T4::Output, T5::Output, T6::Output, T7::Output, T8::Output, T9::Output, T10::Output, T11::Output, T12::Output), s2: u64) {
        self.12.seed_after_ok(self.11.seed_after(self.10.seed_after(self.9.seed_after(self.8.seed_after(self.7.seed_after(self.6.seed_after(self.5.seed_after(self.4.seed_after(self.3.seed_after(self.2.seed_after(self.1.seed_after(self.0.seed_after(s)))))))))))), out.12, s2);
    }

    fn garble<G: Garbler>(self, garbler: &mut G) -> (out: (T0::Output, T1::Output, T2::Output, T3::Output, T4::Output, T5::Output, T6::Output, T7::Output, T8::Output, T9::Output, T10::Output, T11::Output, T12::Output)) {
        let ghost s = self;
        let (v0, v1, v2, v3, v4, v5, v6, v7, v8, v9, v10, v11, v12) = self;
        let r0 = v0.garble(garbler);
        let ghost mid1 = *garbler;
        let r1 = v1.garble(garbler);
        let ghost mid2 = *garbler;
        let r2 = v2.garble(garbler);
        let ghost mid3 = *garbler;
        let r3 = v3.garble(garbler);
        let ghost mid4 = *garbler;
        let r4 = v4.garble(garbler);
        let ghost mid5 = *garbler;
        let r5 = v5.garble(garbler);
        let ghost mid6 = *garbler;
        let r6 = v6.garble(garbler);
        let ghost mid7 = *garbler;
        let r7 = v7.garble(garbler);
        let ghost mid8 = *garbler;
        let r8 = v8.garble(garbler);
        let ghost mid9 = *garbler;
        let r9 = v9.garble(garbler);
        let ghost mid10 = *garbler;
        let r10 = v10.garble(garbler);
        let ghost mid11 = *garbler;
        let r11 = v11.garble(garbler);
        let ghost mid12 = *garbler;
        let r12 = v12.garble(garbler);
        proof {
            if old(garbler).logs() {
                lemma_prefix_trans(old(garbler).log(), mid1.log(), mid2.log());
                lemma_prefix_trans(old(garbler).log(), mid2.log(), mid3.log());
                lemma_prefix_trans(old(garbler).log(), mid3.log(), mid4.log());
                lemma_prefix_trans(old(garbler).log(), mid4.log(), mid5.log());
                lemma_prefix_trans(old(garbler).log(), mid5.log(), mid6.log());
                lemma_prefix_trans(old(garbler).log(), mid6.log(), mid7.log());
                lemma_prefix_trans(old(garbler).log(), mid7.log(), mid8.log());
                lemma_prefix_trans(old(garbler).log(), mid8.log(), mid9.log());
                lemma_prefix_trans(old(garbler).log(), mid9.log(), mid10.log());
                lemma_prefix_trans(old(garbler).log(), mid10.log(), mid11.log());
                lemma_prefix_trans(old(garbler).log(), mid11.log(), mid12.log());
                lemma_prefix_trans(old(garbler).log(), mid12.log(), garbler.log());
                if s.trace_exact() {
                    lemma_concat_assoc(old(garbler).log(), s.0.trace(), s.1.trace());
                    lemma_concat_assoc(old(garbler).log(), s.0.trace() + s.1.trace(), s.2.trace());
                    lemma_concat_assoc(old(garbler).log(), s.0.trace() + s.1.trace() + s.2.trace(), s.3.trace());
                    lemma_concat_assoc(old(garbler).log(), s.0.trace() + s.1.trace() + s.2.trace() + s.3.trace(), s.4.trace());
                    lemma_concat_assoc(old(garbler).log(), s.0.trace() + s.1.trace() + s.2.trace() + s.3.trace() + s.4.trace(), s.5.trace());
                    lemma_concat_assoc(old(garbler).log(), s.0.trace() + s.1.trace() + s.2.trace() + s.3.trace() + s.4.trace() + s.5.trace(), s.6.trace());
                    lemma_concat_assoc(old(garbler).log(), s.0.trace() + s.1.trace() + s.2.trace() + s.3.trace() + s.4.trace() + s.5.trace() + s.6.trace(), s.7.trace());
                    lemma_concat_assoc(old(garbler).log(), s.0.trace() + s.1.trace() + s.2.trace() + s.3.trace() + s.4.trace() + s.5.trace() + s.6.trace() + s.7.trace(), s.8.trace());
                    lemma_concat_assoc(old(garbler).log(), s.0.trace() + s.1.trace() + s.2.trace() + s.3.trace() + s.4.trace() + s.5.trace() + s.6.trace() + s.7.trace() + s.8.trace(), s.9.trace());
                    lemma_concat_assoc(old(garbler).log(), s.0.trace() + s.1.trace() + s.2.trace() + s.3.trace() + s.4.trace() + s.5.trace() + s.6.trace() + s.7.trace() + s.8.trace() + s.9.trace(), s.10.trace());
                    lemma_concat_assoc(old(garbler).log(), s.0.trace() + s.1.trace() + s.2.trace() + s.3.trace() + s.4.trace() + s.5.trace() + s.6.trace() + s.7.trace() + s.8.trace() + s.9.trace() + s.10.trace(), s.11.trace());
                    lemma_concat_assoc(old(garbler).log(), s.0.trace() + s.1.trace() + s.2.trace() + s.3.trace() + s.4.trace() + s.5.trace() + s.6.trace() + s.7.trace() + s.8.trace() + s.9.trace() + s.10.trace() + s.11.trace(), s.12.trace());
                }
            }
            if old(garbler).follows_seed() && s.seed_known() {
                s.0.seed_after_ok(old(garbler).seed_state(), r0, mid1.seed_state());
                s.1.seed_after_ok(mid1.seed_state(), r1, mid2.seed_state());
                s.2.seed_after_ok(mid2.seed_state(), r2, mid3.seed_state());
                s.3.seed_after_ok(mid3.seed_state(), r3, mid4.seed_state());
                s.4.seed_after_ok(mid4.seed_state(), r4, mid5.seed_state());
                s.5.seed_after_ok(mid5.seed_state(), r5, mid6.seed_state());
                s.6.seed_after_ok(mid6.seed_state(), r6, mid7.seed_state());
                s.7.seed_after_ok(mid7.seed_state(), r7, mid8.seed_state());
                s.8.seed_after_ok(mid8.seed_state(), r8, mid9.seed_state());
                s.9.seed_after_ok(mid9.seed_state(), r9, mid10.seed_state());
                s.10.seed_after_ok(mid10.seed_state(), r10, mid11.seed_state());
                s.11.seed_after_ok(mid11.seed_state(), r11, mid12.seed_state());
            }
        }
        (r0, r1, r2, r3, r4, r5, r6, r7, r8, r9, r10, r11, r12)
    }
}

impl<T0: Garble, T1: Garble, T2: Garble, T3: Garble, T4: Garble, T5: Garble, T6: Garble, T7: Garble, T8: Garble, T9: Garble, T10: Garble, T11: Garble, T12: Garble, T13: Garble> Garble for (T0, T1, T2, T3, T4, T5, T6, T7, T8, T9, T10, T11, T12, T13) {
    type Output = (T0::Output, T1::Output, T2::Output, T3::Output, T4::Output, T5::Output, T6::Output, T7::Output, T8::Output, T9::Output, T10::Output, T11::Output, T12::Output, T13::Output);

    open spec fn garble_rel(self, out: (T0::Output, T1::Output, T2::Output, T3::Output, T4::Output, T5::Output, T6::Output, T7::Output, T8::Output, T9::Output, T10::Output, T11::Output, T12::Output, T13::Output)) -> bool {
        &&& self.0.garble_rel(out.0)
        &&& self.1.garble_rel(out.1)
        &&& self.2.garble_rel(out.2)
        &&& self.3.garble_rel(out.3)
        &&& self.4.garble_rel(out.4)
        &&& self.5.garble_rel(out.5)
        &&& self.6.garble_rel(out.6)
        &&& self.7.garble_rel(out.7)
        &&& self.8.garble_rel(out.8)
        &&& self.9.garble_rel(out.9)
        &&& self.10.garble_rel(out.10)
        &&& self.11.garble_rel(out.11)
        &&& self.12.garble_rel(out.12)
        &&& self.13.garble_rel(out.13)
    }

    open spec fn id_rel(self, out: (T0::Output, T1::Output, T2::Output, T3::Output, T4::Output, T5::Output, T6::Output, T7::Output, T8::Output, T9::Output, T10::Output, T11::Output, T12::Output, T13::Output)) -> bool {
        &&& self.0.id_rel(out.0)
        &&& self.1.id_rel(out.1)
        &&& self.2.id_rel(out.2)
        &&& self.3.id_rel(out.3)
        &&& self.4.id_rel(out.4)
        &&& self.5.id_rel(out.5)
        &&& self.6.id_rel(out.6)
        &&& self.7.id_rel(out.7)
        &&& self.8.id_rel(out.8)
        &&& self.9.id_rel(out.9)
        &&& self.10.id_rel(out.10)
        &&& self.11.id_rel(out.11)
        &&& self.12.id_rel(out.12)
        &&& self.13.id_rel(out.13)
    }

    open spec fn flat_rel(self, out: (T0::Output, T1::Output, T2::Output, T3::Output, T4::Output, T5::Output, T6::Output, T7::Output, T8::Output, T9::Output, T10::Output, T11::Output, T12::Output, T13::Output)) -> bool {
        &&& self.0.flat_rel(out.0)
        &&& self.1.flat_rel(out.1)
        &&& self.2.flat_rel(out.2)
        &&& self.3.flat_rel(out.3)
        &&& self.4.flat_rel(out.4)
        &&& self.5.flat_rel(out.5)
        &&& self.6.flat_rel(out.6)
        &&& self.7.flat_rel(out.7)
        &&& self.8.flat_rel(out.8)
        &&& self.9.flat_rel(out.9)
        &&& self.10.flat_rel(out.10)
        &&& self.11.flat_rel(out.11)
        &&& self.12.flat_rel(out.12)
        &&& self.13.flat_rel(out.13)
    }

    open spec fn trace(self) -> Seq<Leaf> {
        self.0.trace() + self.1.trace() + self.2.trace() + self.3.trace() + self.4.trace() + self.5.trace() + self.6.trace() + self.7.trace() + self.8.trace() + self.9.trace() + self.10.trace() + self.11.trace() + self.12.trace() + self.13.trace()
    }

    open spec fn trace_exact(self) -> bool {
        &&& self.0.trace_exact()
        &&& self.1.trace_exact()
        &&& self.2.trace_exact()
        &&& self.3.trace_exact()
        &&& self.4.trace_exact()
        &&& self.5.trace_exact()
        &&& self.6.trace_exact()
        &&& self.7.trace_exact()
        &&& self.8.trace_exact()
        &&& self.9.trace_exact()
        &&& self.10.trace_exact()
        &&& self.11.trace_exact()
        &&& self.12.trace_exact()
        &&& self.13.trace_exact()
    }

    open spec fn seed_known(self) -> bool {
        &&& self.0.seed_known()
        &&& self.1.seed_known()
        &&& self.2.seed_known()
        &&& self.3.seed_known()
        &&& self.4.seed_known()
        &&& self.5.seed_known()
        &&& self.6.seed_known()
        &&& self.7.seed_known()
        &&& self.8.seed_known()
        &&& self.9.seed_known()
        &&& self.10.seed_known()
        &&& self.11.seed_known()
        &&& self.12.seed_known()
        &&& self.13.seed_known()
    }

    open spec fn out_eq(a: (T0::Output, T1::Output, T2::Output, T3::Output, T4::Output, T5::Output, T6::Output, T7::Output, T8::Output, T9::Output, T10::Output, T11::Output, T12::Output, T13::Output), b: (T0::Output, T1::Output, T2::Output, T3::Output, T4::Output, T5::Output, T6::Output, T7::Output, T8::Output, T9::Output, T10::Output, T11::Output, T12::Output, T13::Output)) -> bool {
        &&& T0::out_eq(a.0, b.0)
        &&& T1::out_eq(a.1, b.1)
        &&& T2::out_eq(a.2, b.2)
        &&& T3::out_eq(a.3, b.3)
        &&& T4::out_eq(a.4, b.4)
        &&& T5::out_eq(a.5, b.5)
        &&& T6::out_eq(a.6, b.6)
        &&& T7::out_eq(a.7, b.7)
        &&& T8::out_eq(a.8, b.8)
        &&& T9::out_eq(a.9, b.9)
        &&& T10::out_eq(a.10, b.10)
        &&& T11::out_eq(a.11, b.11)
        &&& T12::out_eq(a.12, b.12)
        &&& T13::out_eq(a.13, b.13)
    }

    open spec fn seed_rel(self, s: u64, out: (T0::Output, T1::Output, T2::Output, T3::Output, T4::Output, T5::Output, T6::Output, T7::Output, T8::Output, T9::Output, T10::Output, T11::Output, T12::Output, T13::Output), s2: u64) -> bool {
        let m1 = self.0.seed_after(s);
        let m2 = self.1.seed_after(m1);
        let m3 = self.2.seed_after(m2);
        let m4 = self.3.seed_after(m3);
        let m5 = self.4.seed_after(m4);
        let m6 = self.5.seed_after(m5);
        let m7 = self.6.seed_after(m6);
        let m8 = self.7.seed_after(m7);
        let m9 = self.8.seed_after(m8);
        let m10 = self.9.seed_after(m9);
        let m11 = self.10.seed_after(m10);
        let m12 = self.11.seed_after(m11);
        let m13 = self.12.seed_after(m12);
        &&& self.0.seed_rel(s, out.0, m1)
        &&& self.1.seed_rel(m1, out.1, m2)
        &&& self.2.seed_rel(m2, out.2, m3)
        &&& self.3.seed_rel(m3, out.3, m4)
        &&& self.4.seed_rel(m4, out.4, m5)
        &&& self.5.seed_rel(m5, out.5, m6)
        &&& self.6.seed_rel(m6, out.6, m7)
        &&& self.7.seed_rel(m7, out.7, m8)
        &&& self.8.seed_rel(m8, out.8, m9)
        &&& self.9.seed_rel(m9, out.9, m10)
        &&& self.10.seed_rel(m10, out.10, m11)
        &&& self.11.seed_rel(m11, out.11, m12)
        &&& self.12.seed_rel(m12, out.12, m13)
        &&& self.13.seed_rel(m13, out.13, s2)
    }

    proof fn seed_functional(self, s: u64, o1: (T0::Output, T1::Output, T2::Output, T3::Output, T4::Output, T5::Output, T6::Output, T7::Output, T8::Output, T9::Output, T10::Output, T11::Output, T12::Output, T13::Output), s1: u64, o2: (T0::Output, T1::Output, T2::Output, T3::Output, T4::Output, T5::Output, T6::Output, T7::Output, T8::Output, T9::Output, T10::Output, T11::Output, T12::Output, T13::Output), s2: u64) {
        let m1 = self.0.seed_after(s);
        let m2 = self.1.seed_after(m1);
        let m3 = self.2.seed_after(m2);
        let m4 = self.3.seed_after(m3);
        let m5 = self.4.seed_after(m4);
        let m6 = self.5.seed_after(m5);
        let m7 = self.6.seed_after(m6);
        let m8 = self.7.seed_after(m7);
        let m9 = self.8.seed_after(m8);
        let m10 = self.9.seed_after(m9);
        let m11 = self.10.seed_after(m10);
        let m12 = self.11.seed_after(m11);
        let m13 = self.12.seed_after(m12);
        self.0.seed_functional(s, o1.0, m1, o2.0, m1);
        self.1.seed_functional(m1, o1.1, m2, o2.1, m2);
        self.2.seed_functional(m2, o1.2, m3, o2.2, m3);
        self.3.seed_functional(m3, o1.3, m4, o2.3, m4);
        self.4.seed_functional(m4, o1.4, m5, o2.4, m5);
        self.5.seed_functional(m5, o1.5, m6, o2.5, m6);
        self.6.seed_functional(m6, o1.6, m7, o2.6, m7);
        self.7.seed_functional(m7, o1.7, m8, o2.7, m8);
        self.8.seed_functional(m8, o1.8, m9, o2.8, m9);
        self.9.seed_functional(m9, o1.9, m10, o2.9, m10);
        self.10.seed_functional(m10, o1.10, m11, o2.10, m11);
        self.11.seed_functional(m11, o1.11, m12, o2.11, m12);
        self.12.seed_functional(m12, o1.12, m13, o2.12, m13);
        self.13.seed_functional(m13, o1.13, s1, o2.13, s2);
    }

    open spec fn seed_after(self, s: u64) -> u64 {
        self.13.seed_after(self.12.seed_after(self.11.seed_after(self.10.seed_after(self.9.seed_after(self.8.seed_after(self.7.seed_after(self.6.seed_after(self.5.seed_after(self.4.seed_after(self.3.seed_after(self.2.seed_after(self.1.seed_after(self.0.seed_after(s))))))))))))))
    }

    proof fn seed_after_ok(self, s: u64, out: (T0::Output, T1::Output, T2::Output, T3::Output, T4::Output, T5::Output, T6::Output, T7::Output, T8::Output, T9::Output, T10::Output, T11::Output, T12::Output, T13::Output), s2: u64) {
        self.13.seed_after_ok(self.12.seed_after(self.11.seed_after(self.10.seed_after(self.9.seed_after(self.8.seed_after(self.7.seed_after(self.6.seed_after(self.5.seed_after(self.4.seed_after(self.3.seed_after(self.2.seed_after(self.1.seed_after(self.0.seed_after(s))))))))))))), out.13, s2);
    }

    fn garble<G: Garbler>(self, garbler: &mut G) -> (out: (T0::Output, T1::Output, T2::Output, T3::Output, T4::Output, T5::Output, T6::Output, T7::Output, T8::Output, T9::Output, T10::Output, T11::Output, T12::Output, T13::Output)) {
        let ghost s = self;
        let (v0, v1, v2, v3, v4, v5, v6, v7, v8, v9, v10, v11, v12, v13) = self;
        let r0 = v0.garble(garbler);
        let ghost mid1 = *garbler;
        let r1 = v1.garble(garbler);
        let ghost mid2 = *garbler;
        let r2 = v2.garble(garbler);
        let ghost mid3 = *garbler;
        let r3 = v3.garble(garbler);
        let ghost mid4 = *garbler;
        let r4 = v4.garble(garbler);
        let ghost mid5 = *garbler;
        let r5 = v5.garble(garbler);
        let ghost mid6 = *garbler;
        let r6 = v6.garble(garbler);
        let ghost mid7 = *garbler;
        let r7 = v7.garble(garbler);
        let ghost mid8 = *garbler;
        let r8 = v8.garble(garbler);
        let ghost mid9 = *garbler;
        let r9 = v9.garble(garbler);
        let ghost mid10 = *garbler;
        let r10 = v10.garble(garbler);
        let ghost mid11 = *garbler;
        let r11 = v11.garble(garbler);
        let ghost mid12 = *garbler;
        let r12 = v12.garble(garbler);
        let ghost mid13 = *garbler;
        let r13 = v13.garble(garbler);
        proof {
            if old(garbler).logs() {
                lemma_prefix_trans(old(garbler).log(), mid1.log(), mid2.log());
                lemma_prefix_trans(old(garbler).log(), mid2.log(), mid3.log());
                lemma_prefix_trans(old(garbler).log(), mid3.log(), mid4.log());
                lemma_prefix_trans(old(garbler).log(), mid4.log(), mid5.log());
                lemma_prefix_trans(old(garbler).log(), mid5.log(), mid6.log());
                lemma_prefix_trans(old(garbler).log(), mid6.log(), mid7.log());
                lemma_prefix_trans(old(garbler).log(), mid7.log(), mid8.log());
                lemma_prefix_trans(old(garbler).log(), mid8.log(), mid9.log());
                lemma_prefix_trans(old(garbler).log(), mid9.log(), mid10.log());
                lemma_prefix_trans(old(garbler).log(), mid10.log(), mid11.log());
                lemma_prefix_trans(old(garbler).log(), mid11.log(), mid12.log());
                lemma_prefix_trans(old(garbler).log(), mid12.log(), mid13.log());
                lemma_prefix_trans(old(garbler).log(), mid13.log(), garbler.log());
                if s.trace_exact() {
                    lemma_concat_assoc(old(garbler).log(), s.0.trace(), s.1.trace());
                    lemma_concat_assoc(old(garbler).log(), s.0.trace() + s.1.trace(), s.2.trace());
                    lemma_concat_assoc(old(garbler).log(), s.0.trace() + s.1.trace() + s.2.trace(), s.3.trace());
                    lemma_concat_assoc(old(garbler).log(), s.0.trace() + s.1.trace() + s.2.trace() + s.3.trace(), s.4.trace());
                    lemma_concat_assoc(old(garbler).log(), s.0.trace() + s.1.trace() + s.2.trace() + s.3.trace() + s.4.trace(), s.5.trace());
                    lemma_concat_assoc(old(garbler).log(), s.0.trace() + s.1.trace() + s.2.trace() + s.3.trace() + s.4.trace() + s.5.trace(), s.6.trace());
                    lemma_concat_assoc(old(garbler).log(), s.0.trace() + s.1.trace() + s.2.trace() + s.3.trace() + s.4.trace() + s.5.trace() + s.6.trace(), s.7.trace());
                    lemma_concat_assoc(old(garbler).log(), s.0.trace() + s.1.trace() + s.2.trace() + s.3.trace() + s.4.trace() + s.5.trace() + s.6.trace() + s.7.trace(), s.8.trace());
                    lemma_concat_assoc(old(garbler).log(), s.0.trace() + s.1.trace() + s.2.trace() + s.3.trace() + s.4.trace() + s.5.trace() + s.6.trace() + s.7.trace() + s.8.trace(), s.9.trace());
                    lemma_concat_assoc(old(garbler).log(), s.0.trace() + s.1.trace() + s.2.trace() + s.3.trace() + s.4.trace() + s.5.trace() + s.6.trace() + s.7.trace() + s.8.trace() + s.9.trace(), s.10.trace());
                    lemma_concat_assoc(old(garbler).log(), s.0.trace() + s.1.trace() + s.2.trace() + s.3.trace() + s.4.trace() + s.5.trace() + s.6.trace() + s.7.trace() + s.8.trace() + s.9.trace() + s.10.trace(), s.11.trace());
                    lemma_concat_assoc(old(garbler).log(), s.0.trace() + s.1.trace() + s.2.trace() + s.3.trace() + s.4.trace() + s.5.trace() + s.6.trace() + s.7.trace() + s.8.trace() + s.9.trace() + s.10.trace() + s.11.trace(), s.12.trace());
                    lemma_concat_assoc(old(garbler).log(), s.0.trace() + s.1.trace() + s.2.trace() + s.3.trace() + s.4.trace() + s.5.trace() + s.6.trace() + s.7.trace() + s.8.trace() + s.9.trace() + s.10.trace() + s.11.trace() + s.12.trace(), s.13.trace());
                }
            }
            if old(garbler).follows_seed() && s.seed_known() {
                s.0.seed_after_ok(old(garbler).seed_state(), r0, mid1.seed_state());
                s.1.seed_after_ok(mid1.seed_state(), r1, mid2.seed_state());
                s.2.seed_after_ok(mid2.seed_state(), r2, mid3.seed_state());
                s.3.seed_after_ok(mid3.seed_state(), r3, mid4.seed_state());
                s.4.seed_after_ok(mid4.seed_state(), r4, mid5.seed_state());
                s.5.seed_after_ok(mid5.seed_state(), r5, mid6.seed_state());
                s.6.seed_after_ok(mid6.seed_state(), r6, mid7.seed_state());
                s.7.seed_after_ok(mid7.seed_state(), r7, mid8.seed_state());
                s.8.seed_after_ok(mid8.seed_state(), r8, mid9.seed_state());
                s.9.seed_after_ok(mid9.seed_state(), r9, mid10.seed_state());
                s.10.seed_after_ok(mid10.seed_state(), r10, mid11.seed_state());
                s.11.seed_after_ok(mid11.seed_state(), r11, mid12.seed_state());
                s.12.seed_after_ok(mid12.seed_state(), r12, mid13.seed_state());
            }
        }
        (r0, r1, r2, r3, r4, r5, r6, r7, r8, r9, r10, r11, r12, r13)
    }
}

impl<T0: Garble, T1: Garble, T2: Garble, T3: Garble, T4: Garble, T5: Garble, T6: Garble, T7: Garble, T8: Garble, T9: Garble, T10: Garble, T11: Garble, T12: Garble, T13: Garble, T14: Garble> Garble for (T0, T1, T2, T3, T4, T5, T6, T7, T8, T9, T10, T11, T12, T13, T14) {
    type Output = (T0::Output, T1::Output, T2::Output, T3::Output, T4::Output, T5::Output, T6::Output, T7::Output, T8::Output, T9::Output, T10::Output, T11::Output, T12::Output, T13::Output, T14::Output);

    open spec fn garble_rel(self, out: (T0::Output, T1::Output, T2::Output, T3::Output, T4::Output, T5::Output, T6::Output, T7::Output, T8::Output, T9::Output, T10::Output, T11::Output, T12::Output, T13::Output, T14::Output)) -> bool {
        &&& self.0.garble_rel(out.0)
        &&& self.1.garble_rel(out.1)
        &&& self.2.garble_rel(out.2)
        &&& self.3.garble_rel(out.3)
        &&& self.4.garble_rel(out.4)
        &&& self.5.garble_rel(out.5)
        &&& self.6.garble_rel(out.6)
        &&& self.7.garble_rel(out.7)
        &&& self.8.garble_rel(out.8)
        &&& self.9.garble_rel(out.9)
        &&& self.10.garble_rel(out.10)
        &&& self.11.garble_rel(out.11)
        &&& self.12.garble_rel(out.12)
        &&& self.13.garble_rel(out.13)
        &&& self.14.garble_rel(out.14)
    }

    open spec fn id_rel(self, out: (T0::Output, T1::Output, T2::Output, T3::Output, T4::Output, T5::Output, T6::Output, T7::Output, T8::Output, T9::Output, T10::Output, T11::Output, T12::Output, T13::Output, T14::Output)) -> bool {
        &&& self.0.id_rel(out.0)
        &&& self.1.id_rel(out.1)
        &&& self.2.id_rel(out.2)
        &&& self.3.id_rel(out.3)
        &&& self.4.id_rel(out.4)
        &&& self.5.id_rel(out.5)
        &&& self.6.id_rel(out.6)
        &&& self.7.id_rel(out.7)
        &&& self.8.id_rel(out.8)
        &&& self.9.id_rel(out.9)
        &&& self.10.id_rel(out.10)
        &&& self.11.id_rel(out.11)
        &&& self.12.id_rel(out.12)
        &&& self.13.id_rel(out.13)
        &&& self.14.id_rel(out.14)
    }

    open spec fn flat_rel(self, out: (T0::Output, T1::Output, T2::Output, T3::Output, T4::Output, T5::Output, T6::Output, T7::Output, T8::Output, T9::Output, T10::Output, T11::Output, T12::Output, T13::Output, T14::Output)) -> bool {
        &&& self.0.flat_rel(out.0)
        &&& self.1.flat_rel(out.1)
        &&& self.2.flat_rel(out.2)
        &&& self.3.flat_rel(out.3)
        &&& self.4.flat_rel(out.4)
        &&& self.5.flat_rel(out.5)
        &&& self.6.flat_rel(out.6)
        &&& self.7.flat_rel(out.7)
        &&& self.8.flat_rel(out.8)
        &&& self.9.flat_rel(out.9)
        &&& self.10.flat_rel(out.10)
        &&& self.11.flat_rel(out.11)
        &&& self.12.flat_rel(out.12)
        &&& self.13.flat_rel(out.13)
        &&& self.14.flat_rel(out.14)
    }

    open spec fn trace(self) -> Seq<Leaf> {
        self.0.trace() + self.1.trace() + self.2.trace() + self.3.trace() + self.4.trace() + self.5.trace() + self.6.trace() + self.7.trace() + self.8.trace() + self.9.trace() + self.10.trace() + self.11.trace() + self.12.trace() + self.13.trace() + self.14.trace()
    }

    open spec fn trace_exact(self) -> bool {
        &&& self.0.trace_exact()
        &&& self.1.trace_exact()
        &&& self.2.trace_exact()
        &&& self.3.trace_exact()
        &&& self.4.trace_exact()
        &&& self.5.trace_exact()
        &&& self.6.trace_exact()
        &&& self.7.trace_exact()
        &&& self.8.trace_exact()
        &&& self.9.trace_exact()
        &&& self.10.trace_exact()
        &&& self.11.trace_exact()
        &&& self.12.trace_exact()
        &&& self.13.trace_exact()
        &&& self.14.trace_exact()
    }

    open spec fn seed_known(self) -> bool {
        &&& self.0.seed_known()
        &&& self.1.seed_known()
        &&& self.2.seed_known()
        &&& self.3.seed_known()
        &&& self.4.seed_known()
        &&& self.5.seed_known()
        &&& self.6.seed_known()
        &&& self.7.seed_known()
        &&& self.8.seed_known()
        &&& self.9.seed_known()
        &&& self.10.seed_known()
        &&& self.11.seed_known()
        &&& self.12.seed_known()
        &&& self.13.seed_known()
        &&& self.14.seed_known()
    }

    open spec fn out_eq(a: (T0::Output, T1::Output, T2::Output, T3::Output, T4::Output, T5::Output, T6::Output, T7::Output, T8::Output, T9::Output, T10::Output, T11::Output, T12::Output, T13::Output, T14::Output), b: (T0::Output, T1::Output, T2::Output, T3::Output, T4::Output, T5::Output, T6::Output, T7::Output, T8::Output, T9::Output, T10::Output, T11::Output, T12::Output, T13::Output, T14::Output)) -> bool {
        &&& T0::out_eq(a.0, b.0)
        &&& T1::out_eq(a.1, b.1)
        &&& T2::out_eq(a.2, b.2)
        &&& T3::out_eq(a.3, b.3)
        &&& T4::out_eq(a.4, b.4)
        &&& T5::out_eq(a.5, b.5)
        &&& T6::out_eq(a.6, b.6)
        &&& T7::out_eq(a.7, b.7)
        &&& T8::out_eq(a.8, b.8)
        &&& T9::out_eq(a.9, b.9)
        &&& T10::out_eq(a.10, b.10)
        &&& T11::out_eq(a.11, b.11)
        &&& T12::out_eq(a.12, b.12)
        &&& T13::out_eq(a.13, b.13)
        &&& T14::out_eq(a.14, b.14)
    }

    open spec fn seed_rel(self, s: u64, out: (T0::Output, T1::Output, T2::Output, T3::Output, T4::Output, T5::Output, T6::Output, T7::Output, T8::Output, T9::Output, T10::Output, T11::Output, T12::Output, T13::Output, T14::Output), s2: u64) -> bool {
        let m1 = self.0.seed_after(s);
        let m2 = self.1.seed_after(m1);
        let m3 = self.2.seed_after(m2);
        let m4 = self.3.seed_after(m3);
        let m5 = self.4.seed_after(m4);
        let m6 = self.5.seed_after(m5);
        let m7 = self.6.seed_after(m6);
        let m8 = self.7.seed_after(m7);
        let m9 = self.8.seed_after(m8);
        let m10 = self.9.seed_after(m9);
        let m11 = self.10.seed_after(m10);
        let m12 = self.11.seed_after(m11);
        let m13 = self.12.seed_after(m12);
        let m14 = self.13.seed_after(m13);
        &&& self.0.seed_rel(s, out.0, m1)
        &&& self.1.seed_rel(m1, out.1, m2)
        &&& self.2.seed_rel(m2, out.2, m3)
        &&& self.3.seed_rel(m3, out.3, m4)
        &&& self.4.seed_rel(m4, out.4, m5)
        &&& self.5.seed_rel(m5, out.5, m6)
        &&& self.6.seed_rel(m6, out.6, m7)
        &&& self.7.seed_rel(m7, out.7, m8)
        &&& self.8.seed_rel(m8, out.8, m9)
        &&& self.9.seed_rel(m9, out.9, m10)
        &&& self.10.seed_rel(m10, out.10, m11)
        &&& self.11.seed_rel(m11, out.11, m12)
        &&& self.12.seed_rel(m12, out.12, m13)
        &&& self.13.seed_rel(m13, out.13, m14)
        &&& self.14.seed_rel(m14, out.14, s2)
    }

    proof fn seed_functional(self, s: u64, o1: (T0::Output, T1::Output, T2::Output, T3::Output, T4::Output, T5::Output, T6::Output, T7::Output, T8::Output, T9::Output, T10::Output, T11::Output, T12::Output, T13::Output, T14::Output), s1: u64, o2: (T0::Output, T1::Output, T2::Output, T3::Output, T4::Output, T5::Output, T6::Output, T7::Output, T8::Output, T9::Output, T10::Output, T11::Output, T12::Output, T13::Output, T14::Output), s2: u64) {
        let m1 = self.0.seed_after(s);
        let m2 = self.1.seed_after(m1);
        let m3 = self.2.seed_after(m2);
        let m4 = self.3.seed_after(m3);
        let m5 = self.4.seed_after(m4);
        let m6 = self.5.seed_after(m5);
        let m7 = self.6.seed_after(m6);
        let m8 = self.7.seed_after(m7);
        let m9 = self.8.seed_after(m8);
        let m10 = self.9.seed_after(m9);
        let m11 = self.10.seed_after(m10);
        let m12 = self.11.seed_after(m11);
        let m13 = self.12.seed_after(m12);
        let m14 = self.13.seed_after(m13);
        self.0.seed_functional(s, o1.0, m1, o2.0, m1);
        self.1.seed_functional(m1, o1.1, m2, o2.1, m2);
        self.2.seed_functional(m2, o1.2, m3, o2.2, m3);
        self.3.seed_functional(m3, o1.3, m4, o2.3, m4);
        self.4.seed_functional(m4, o1.4, m5, o2.4, m5);
        self.5.seed_functional(m5, o1.5, m6, o2.5, m6);
        self.6.seed_functional(m6, o1.6, m7, o2.6, m7);
        self.7.seed_functional(m7, o1.7, m8, o2.7, m8);
        self.8.seed_functional(m8, o1.8, m9, o2.8, m9);
        self.9.seed_functional(m9, o1.9, m10, o2.9, m10);
        self.10.seed_functional(m10, o1.10, m11, o2.10, m11);
        self.11.seed_functional(m11, o1.11, m12, o2.11, m12);
        self.12.seed_functional(m12, o1.12, m13, o2.12, m13);
        self.13.seed_functional(m13, o1.13, m14, o2.13, m14);
        self.14.seed_functional(m14, o1.14, s1, o2.14, s2);
    }

    open spec fn seed_after(self, s: u64) -> u64 {
        self.14.seed_after(self.13.seed_after(self.12.seed_after(self.11.seed_after(self.10.seed_after(self.9.seed_after(self.8.seed_after(self.7.seed_after(self.6.seed_after(self.5.seed_after(self.4.seed_after(self.3.seed_after(self.2.seed_after(self.1.seed_after(self.0.seed_after(s)))))))))))))))
    }

    proof fn seed_after_ok(self, s: u64, out: (T0::Output, T1::Output, T2::Output, T3::Output, T4::Output, T5::Output, T6::Output, T7::Output, T8::Output, T9::Output, T10::Output, T11::Output, T12::Output, T13::Output, T14::Output), s2: u64) {
        self.14.seed_after_ok(self.13.seed_after(self.12.seed_after(self.11.seed_after(self.10.seed_after(self.9.seed_after(self.8.seed_after(self.7.seed_after(self.6.seed_after(self.5.seed_after(self.4.seed_after(self.3.seed_after(self.2.seed_after(self.1.seed_after(self.0.seed_after(s)))))))))))))), out.14, s2);
    }

    fn garble<G: Garbler>(self, garbler: &mut G) -> (out: (T0::Output, T1::Output, T2::Output, T3::Output, T4::Output, T5::Output, T6::Output, T7::Output, T8::Output, T9::Output, T10::Output, T11::Output, T12::Output, T13::Output, T14::Output)) {
        let ghost s = self;
        let (v0, v1, v2, v3, v4, v5, v6, v7, v8, v9, v10, v11, v12, v13, v14) = self;
        let r0 = v0.garble(garbler);
        let ghost mid1 = *garbler;
        let r1 = v1.garble(garbler);
        let ghost mid2 = *garbler;
        let r2 = v2.garble(garbler);
        let ghost mid3 = *garbler;
        let r3 = v3.garble(garbler);
        let ghost mid4 = *garbler;
        let r4 = v4.garble(garbler);
        let ghost mid5 = *garbler;
        let r5 = v5.garble(garbler);
        let ghost mid6 = *garbler;
        let r6 = v6.garble(garbler);
        let ghost mid7 = *garbler;
        let r7 = v7.garble(garbler);
        let ghost mid8 = *garbler;
        let r8 = v8.garble(garbler);
        let ghost mid9 = *garbler;
        let r9 = v9.garble(garbler);
        let ghost mid10 = *garbler;
        let r10 = v10.garble(garbler);
        let ghost mid11 = *garbler;
        let r11 = v11.garble(garbler);
        let ghost mid12 = *garbler;
        let r12 = v12.garble(garbler);
        let ghost mid13 = *garbler;
        let r13 = v13.garble(garbler);
        let ghost mid14 = *garbler;
        let r14 = v14.garble(garbler);
        proof {
            if old(garbler).logs() {
                lemma_prefix_trans(old(garbler).log(), mid1.log(), mid2.log());
                lemma_prefix_trans(old(garbler).log(), mid2.log(), mid3.log());
                lemma_prefix_trans(old(garbler).log(), mid3.log(), mid4.log());
                lemma_prefix_trans(old(garbler).log(), mid4.log(), mid5.log());
                lemma_prefix_trans(old(garbler).log(), mid5.log(), mid6.log());
                lemma_prefix_trans(old(garbler).log(), mid6.log(), mid7.log());
                lemma_prefix_trans(old(garbler).log(), mid7.log(), mid8.log());
                lemma_prefix_trans(old(garbler).log(), mid8.log(), mid9.log());
                lemma_prefix_trans(old(garbler).log(), mid9.log(), mid10.log());
                lemma_prefix_trans(old(garbler).log(), mid10.log(), mid11.log());
                lemma_prefix_trans(old(garbler).log(), mid11.log(), mid12.log());
                lemma_prefix_trans(old(garbler).log(), mid12.log(), mid13.log());
                lemma_prefix_trans(old(garbler).log(), mid13.log(), mid14.log());
                lemma_prefix_trans(old(garbler).log(), mid14.log(), garbler.log());
                if s.trace_exact() {
                    lemma_concat_assoc(old(garbler).log(), s.0.trace(), s.1.trace());
                    lemma_concat_assoc(old(garbler).log(), s.0.trace() + s.1.trace(), s.2.trace());
                    lemma_concat_assoc(old(garbler).log(), s.0.trace() + s.1.trace() + s.2.trace(), s.3.trace());
                    lemma_concat_assoc(old(garbler).log(), s.0.trace() + s.1.trace() + s.2.trace() + s.3.trace(), s.4.trace());
                    lemma_concat_assoc(old(garbler).log(), s.0.trace() + s.1.trace() + s.2.trace() + s.3.trace() + s.4.trace(), s.5.trace());
                    lemma_concat_assoc(old(garbler).log(), s.0.trace() + s.1.trace() + s.2.trace() + s.3.trace() + s.4.trace() + s.5.trace(), s.6.trace());
                    lemma_concat_assoc(old(garbler).log(), s.0.trace() + s.1.trace() + s.2.trace() + s.3.trace() + s.4.trace() + s.5.trace() + s.6.trace(), s.7.trace());
                    lemma_concat_assoc(old(garbler).log(), s.0.trace() + s.1.trace() + s.2.trace() + s.3.trace() + s.4.trace() + s.5.trace() + s.6.trace() + s.7.trace(), s.8.trace());
                    lemma_concat_assoc(old(garbler).log(), s.0.trace() + s.1.trace() + s.2.trace() + s.3.trace() + s.4.trace() + s.5.trace() + s.6.trace() + s.7.trace() + s.8.trace(), s.9.trace());
                    lemma_concat_assoc(old(garbler).log(), s.0.trace() + s.1.trace() + s.2.trace() + s.3.trace() + s.4.trace() + s.5.trace() + s.6.trace() + s.7.trace() + s.8.trace() + s.9.trace(), s.10.trace());
                    lemma_concat_assoc(old(garbler).log(), s.0.trace() + s.1.trace() + s.2.trace() + s.3.trace() + s.4.trace() + s.5.trace() + s.6.trace() + s.7.trace() + s.8.trace() + s.9.trace() + s.10.trace(), s.11.trace());
                    lemma_concat_assoc(old(garbler).log(), s.0.trace() + s.1.trace() + s.2.trace() + s.3.trace() + s.4.trace() + s.5.trace() + s.6.trace() + s.7.trace() + s.8.trace() + s.9.trace() + s.10.trace() + s.11.trace(), s.12.trace());
                    lemma_concat_assoc(old(garbler).log(), s.0.trace() + s.1.trace() + s.2.trace() + s.3.trace() + s.4.trace() + s.5.trace() + s.6.trace() + s.7.trace() + s.8.trace() + s.9.trace() + s.10.trace() + s.11.trace() + s.12.trace(), s.13.trace());
                    lemma_concat_assoc(old(garbler).log(), s.0.trace() + s.1.trace() + s.2.trace() + s.3.trace() + s.4.trace() + s.5.trace() + s.6.trace() + s.7.trace() + s.8.trace() + s.9.trace() + s.10.trace() + s.11.trace() + s.12.trace() + s.13.trace(), s.14.trace());
                }
            }
            if old(garbler).follows_seed() && s.seed_known() {
                s.0.seed_after_ok(old(garbler).seed_state(), r0, mid1.seed_state());
                s.1.seed_after_ok(mid1.seed_state(), r1, mid2.seed_state());
                s.2.seed_after_ok(mid2.seed_state(), r2, mid3.seed_state());
                s.3.seed_after_ok(mid3.seed_state(), r3, mid4.seed_state());
                s.4.seed_after_ok(mid4.seed_state(), r4, mid5.seed_state());
                s.5.seed_after_ok(mid5.seed_state(), r5, mid6.seed_state());
                s.6.seed_after_ok(mid6.seed_state(), r6, mid7.seed_state());
                s.7.seed_after_ok(mid7.seed_state(), r7, mid8.seed_state());
                s.8.seed_after_ok(mid8.seed_state(), r8, mid9.seed_state());
                s.9.seed_after_ok(mid9.seed_state(), r9, mid10.seed_state());
                s.10.seed_after_ok(mid10.seed_state(), r10, mid11.seed_state());
                s.11.seed_after_ok(mid11.seed_state(), r11, mid12.seed_state());
                s.12.seed_after_ok(mid12.seed_state(), r12, mid13.seed_state());
                s.13.seed_after_ok(mid13.seed_state(), r13, mid14.seed_state());
            }
        }
        (r0, r1, r2, r3, r4, r5, r6, r7, r8, r9, r10, r11, r12, r13, r14)
    }
}

impl<T0: Garble, T1: Garble, T2: Garble, T3: Garble, T4: Garble, T5: Garble, T6: Garble, T7: Garble, T8: Garble, T9: Garble, T10: Garble, T11: Garble, T12: Garble, T13: Garble, T14: Garble, T15: Garble> Garble for (T0, T1, T2, T3, T4, T5, T6, T7, T8, T9, T10, T11, T12, T13, T14, T15) {
    type Output = (T0::Output, T1::Output, T2::Output, T3::Output, T4::Output, T5::Output, T6::Output, T7::Output, T8::Output, T9::Output, T10::Output, T11::Output, T12::Output, T13::Output, T14::Output, T15::Output);

    open spec fn garble_rel(self, out: (T0::Output, T1::Output, T2::Output, T3::Output, T4::Output, T5::Output, T6::Output, T7::Output, T8::Output, T9::Output, T10::Output, T11::Output, T12::Output, T13::Output, T14::Output, T15::Output)) -> bool {
        &&& self.0.garble_rel(out.0)
        &&& self.1.garble_rel(out.1)
        &&& self.2.garble_rel(out.2)
        &&& self.3.garble_rel(out.3)
        &&& self.4.garble_rel(out.4)
        &&& self.5.garble_rel(out.5)
        &&& self.6.garble_rel(out.6)
        &&& self.7.garble_rel(out.7)
        &&& self.8.garble_rel(out.8)
        &&& self.9.garble_rel(out.9)
        &&& self.10.garble_rel(out.10)
        &&& self.11.garble_rel(out.11)
        &&& self.12.garble_rel(out.12)
        &&& self.13.garble_rel(out.13)
        &&& self.14.garble_rel(out.14)
        &&& self.15.garble_rel(out.15)
    }

    open spec fn id_rel(self, out: (T0::Output, T1::Output, T2::Output, T3::Output, T4::Output, T5::Output, T6::Output, T7::Output, T8::Output, T9::Output, T10::Output, T11::Output, T12::Output, T13::Output, T14::Output, T15::Output)) -> bool {
        &&& self.0.id_rel(out.0)
        &&& self.1.id_rel(out.1)
        &&& self.2.id_rel(out.2)
        &&& self.3.id_rel(out.3)
        &&& self.4.id_rel(out.4)
        &&& self.5.id_rel(out.5)
        &&& self.6.id_rel(out.6)
        &&& self.7.id_rel(out.7)
        &&& self.8.id_rel(out.8)
        &&& self.9.id_rel(out.9)
        &&& self.10.id_rel(out.10)
        &&& self.11.id_rel(out.11)
        &&& self.12.id_rel(out.12)
        &&& self.13.id_rel(out.13)
        &&& self.14.id_rel(out.14)
        &&& self.15.id_rel(out.15)
    }

    open spec fn flat_rel(self, out: (T0::Output, T1::Output, T2::Output, T3::Output, T4::Output, T5::Output, T6::Output, T7::Output, T8::Output, T9::Output, T10::Output, T11::Output, T12::Output, T13::Output, T14::Output, T15::Output)) -> bool {
        &&& self.0.flat_rel(out.0)
        &&& self.1.flat_rel(out.1)
        &&& self.2.flat_rel(out.2)
        &&& self.3.flat_rel(out.3)
        &&& self.4.flat_rel(out.4)
        &&& self.5.flat_rel(out.5)
        &&& self.6.flat_rel(out.6)
        &&& self.7.flat_rel(out.7)
        &&& self.8.flat_rel(out.8)
        &&& self.9.flat_rel(out.9)
        &&& self.10.flat_rel(out.10)
        &&& self.11.flat_rel(out.11)
        &&& self.12.flat_rel(out.12)
        &&& self.13.flat_rel(out.13)
        &&& self.14.flat_rel(out.14)
        &&& self.15.flat_rel(out.15)
    }

    open spec fn trace(self) -> Seq<Leaf> {
        self.0.trace() + self.1.trace() + self.2.trace() + self.3.trace() + self.4.trace() + self.5.trace() + self.6.trace() + self.7.trace() + self.8.trace() + self.9.trace() + self.10.trace() + self.11.trace() + self.12.trace() + self.13.trace() + self.14.trace() + self.15.trace()
    }

    open spec fn trace_exact(self) -> bool {
        &&& self.0.trace_exact()
        &&& self.1.trace_exact()
        &&& self.2.trace_exact()
        &&& self.3.trace_exact()
        &&& self.4.trace_exact()
        &&& self.5.trace_exact()
        &&& self.6.trace_exact()
        &&& self.7.trace_exact()
        &&& self.8.trace_exact()
        &&& self.9.trace_exact()
        &&& self.10.trace_exact()
        &&& self.11.trace_exact()
        &&& self.12.trace_exact()
        &&& self.13.trace_exact()
        &&& self.14.trace_exact()
        &&& self.15.trace_exact()
    }

    open spec fn seed_known(self) -> bool {
        &&& self.0.seed_known()
        &&& self.1.seed_known()
        &&& self.2.seed_known()
        &&& self.3.seed_known()
        &&& self.4.seed_known()
        &&& self.5.seed_known()
        &&& self.6.seed_known()
        &&& self.7.seed_known()
        &&& self.8.seed_known()
        &&& self.9.seed_known()
        &&& self.10.seed_known()
        &&& self.11.seed_known()
        &&& self.12.seed_known()
        &&& self.13.seed_known()
        &&& self.14.seed_known()
        &&& self.15.seed_known()
    }

    open spec fn out_eq(a: (T0::Output, T1::Output, T2::Output, T3::Output, T4::Output, T5::Output, T6::Output, T7::Output, T8::Output, T9::Output, T10::Output, T11::Output, T12::Output, T13::Output, T14::Output, T15::Output), b: (T0::Output, T1::Output, T2::Output, T3::Output, T4::Output, T5::Output, T6::Output, T7::Output, T8::Output, T9::Output, T10::Output, T11::Output, T12::Output, T13::Output, T14::Output, T15::Output)) -> bool {
        &&& T0::out_eq(a.0, b.0)
        &&& T1::out_eq(a.1, b.1)
        &&& T2::out_eq(a.2, b.2)
        &&& T3::out_eq(a.3, b.3)
        &&& T4::out_eq(a.4, b.4)
        &&& T5::out_eq(a.5, b.5)
        &&& T6::out_eq(a.6, b.6)
        &&& T7::out_eq(a.7, b.7)
        &&& T8::out_eq(a.8, b.8)
        &&& T9::out_eq(a.9, b.9)
        &&& T10::out_eq(a.10, b.10)
        &&& T11::out_eq(a.11, b.11)
        &&& T12::out_eq(a.12, b.12)
        &&& T13::out_eq(a.13, b.13)
        &&& T14::out_eq(a.14, b.14)
        &&& T15::out_eq(a.15, b.15)
    }

    open spec fn seed_rel(self, s: u64, out: (T0::Output, T1::Output, T2::Output, T3::Output, T4::Output, T5::Output, T6::Output, T7::Output, T8::Output, T9::Output, T10::Output, T11::Output, T12::Output, T13::Output, T14::Output, T15::Output), s2: u64) -> bool {
        let m1 = self.0.seed_after(s);
        let m2 = self.1.seed_after(m1);
        let m3 = self.2.seed_after(m2);
        let m4 = self.3.seed_after(m3);
        let m5 = self.4.seed_after(m4);
        let m6 = self.5.seed_after(m5);
        let m7 = self.6.seed_after(m6);
        let m8 = self.7.seed_after(m7);
        let m9 = self.8.seed_after(m8);
        let m10 = self.9.seed_after(m9);
        let m11 = self.10.seed_after(m10);
        let m12 = self.11.seed_after(m11);
        let m13 = self.12.seed_after(m12);
        let m14 = self.13.seed_after(m13);
        let m15 = self.14.seed_after(m14);
        &&& self.0.seed_rel(s, out.0, m1)
        &&& self.1.seed_rel(m1, out.1, m2)
        &&& self.2.seed_rel(m2, out.2, m3)
        &&& self.3.seed_rel(m3, out.3, m4)
        &&& self.4.seed_rel(m4, out.4, m5)
        &&& self.5.seed_rel(m5, out.5, m6)
        &&& self.6.seed_rel(m6, out.6, m7)
        &&& self.7.seed_rel(m7, out.7, m8)
        &&& self.8.seed_rel(m8, out.8, m9)
        &&& self.9.seed_rel(m9, out.9, m10)
        &&& self.10.seed_rel(m10, out.10, m11)
        &&& self.11.seed_rel(m11, out.11, m12)
        &&& self.12.seed_rel(m12, out.12, m13)
        &&& self.13.seed_rel(m13, out.13, m14)
        &&& self.14.seed_rel(m14, out.14, m15)
        &&& self.15.seed_rel(m15, out.15, s2)
    }

    proof fn seed_functional(self, s: u64, o1: (T0::Output, T1::Output, T2::Output, T3::Output, T4::Output, T5::Output, T6::Output, T7::Output, T8::Output, T9::Output, T10::Output, T11::Output, T12::Output, T13::Output, T14::Output, T15::Output), s1: u64, o2: (T0::Output, T1::Output, T2::Output, T3::Output, T4::Output, T5::Output, T6::Output, T7::Output, T8::Output, T9::Output, T10::Output, T11::Output, T12::Output, T13::Output, T14::Output, T15::Output), s2: u64) {
        let m1 = self.0.seed_after(s);
        let m2 = self.1.seed_after(m1);
        let m3 = self.2.seed_after(m2);
        let m4 = self.3.seed_after(m3);
        let m5 = self.4.seed_after(m4);
        let m6 = self.5.seed_after(m5);
        let m7 = self.6.seed_after(m6);
        let m8 = self.7.seed_after(m7);
        let m9 = self.8.seed_after(m8);
        let m10 = self.9.seed_after(m9);
        let m11 = self.10.seed_after(m10);
        let m12 = self.11.seed_after(m11);
        let m13 = self.12.seed_after(m12);
        let m14 = self.13.seed_after(m13);
        let m15 = self.14.seed_after(m14);
        self.0.seed_functional(s, o1.0, m1, o2.0, m1);
        self.1.seed_functional(m1, o1.1, m2, o2.1, m2);
        self.2.seed_functional(m2, o1.2, m3, o2.2, m3);
        self.3.seed_functional(m3, o1.3, m4, o2.3, m4);
        self.4.seed_functional(m4, o1.4, m5, o2.4, m5);
        self.5.seed_functional(m5, o1.5, m6, o2.5, m6);
        self.6.seed_functional(m6, o1.6, m7, o2.6, m7);
        self.7.seed_functional(m7, o1.7, m8, o2.7, m8);
        self.8.seed_functional(m8, o1.8, m9, o2.8, m9);
        self.9.seed_functional(m9, o1.9, m10, o2.9, m10);
        self.10.seed_functional(m10, o1.10, m11, o2.10, m11);
        self.11.seed_functional(m11, o1.11, m12, o2.11, m12);
        self.12.seed_functional(m12, o1.12, m13, o2.12, m13);
        self.13.seed_functional(m13, o1.13, m14, o2.13, m14);
        self.14.seed_functional(m14, o1.14, m15, o2.14, m15);
        self.15.seed_functional(m15, o1.15, s1, o2.15, s2);
    }

    open spec fn seed_after(self, s: u64) -> u64 {
        self.15.seed_after(self.14.seed_after(self.13.seed_after(self.12.seed_after(self.11.seed_after(self.10.seed_after(self.9.seed_after(self.8.seed_after(self.7.seed_after(self.6.seed_after(self.5.seed_after(self.4.seed_after(self.3.seed_after(self.2.seed_after(self.1.seed_after(self.0.seed_after(s))))))))))))))))
    }

    proof fn seed_after_ok(self, s: u64, out: (T0::Output, T1::Output, T2::Output, T3::Output, T4::Output, T5::Output, T6::Output, T7::Output, T8::Output, T9::Output, T10::Output, T11::Output, T12::Output, T13::Output, T14::Output, T15::Output), s2: u64) {
        self.15.seed_after_ok(self.14.seed_after(self.13.seed_after(self.12.seed_after(self.11.seed_after(self.10.seed_after(self.9.seed_after(self.8.seed_after(self.7.seed_after(self.6.seed_after(self.5.seed_after(self.4.seed_after(self.3.seed_after(self.2.seed_after(self.1.seed_after(self.0.seed_after(s))))))))))))))), out.15, s2);
    }

    fn garble<G: Garbler>(self, garbler: &mut G) -> (out: (T0::Output, T1::Output, T2::Output, T3::Output, T4::Output, T5::Output, T6::Output, T7::Output, T8::Output, T9::Output, T10::Output, T11::Output, T12::Output, T13::Output, T14::Output, T15::Output)) {
        let ghost s = self;
        let (v0, v1, v2, v3, v4, v5, v6, v7, v8, v9, v10, v11, v12, v13, v14, v15) = self;
        let r0 = v0.garble(garbler);
        let ghost mid1 = *garbler;
        let r1 = v1.garble(garbler);
        let ghost mid2 = *garbler;
        let r2 = v2.garble(garbler);
        let ghost mid3 = *garbler;
        let r3 = v3.garble(garbler);
        let ghost mid4 = *garbler;
        let r4 = v4.garble(garbler);
        let ghost mid5 = *garbler;
        let r5 = v5.garble(garbler);
        let ghost mid6 = *garbler;
        let r6 = v6.garble(garbler);
        let ghost mid7 = *garbler;
        let r7 = v7.garble(garbler);
        let ghost mid8 = *garbler;
        let r8 = v8.garble(garbler);
        let ghost mid9 = *garbler;
        let r9 = v9.garble(garbler);
        let ghost mid10 = *garbler;
        let r10 = v10.garble(garbler);
        let ghost mid11 = *garbler;
        let r11 = v11.garble(garbler);
        let ghost mid12 = *garbler;
        let r12 = v12.garble(garbler);
        let ghost mid13 = *garbler;
        let r13 = v13.garble(garbler);
        let ghost mid14 = *garbler;
        let r14 = v14.garble(garbler);
        let ghost mid15 = *garbler;
        let r15 = v15.garble(garbler);
        proof {
            if old(garbler).logs() {
                lemma_prefix_trans(old(garbler).log(), mid1.log(), mid2.log());
                lemma_prefix_trans(old(garbler).log(), mid2.log(), mid3.log());
                lemma_prefix_trans(old(garbler).log(), mid3.log(), mid4.log());
                lemma_prefix_trans(old(garbler).log(), mid4.log(), mid5.log());
                lemma_prefix_trans(old(garbler).log(), mid5.log(), mid6.log());
                lemma_prefix_trans(old(garbler).log(), mid6.log(), mid7.log());
                lemma_prefix_trans(old(garbler).log(), mid7.log(), mid8.log());
                lemma_prefix_trans(old(garbler).log(), mid8.log(), mid9.log());
                lemma_prefix_trans(old(garbler).log(), mid9.log(), mid10.log());
                lemma_prefix_trans(old(garbler).log(), mid10.log(), mid11.log());
                lemma_prefix_trans(old(garbler).log(), mid11.log(), mid12.log());
                lemma_prefix_trans(old(garbler).log(), mid12.log(), mid13.log());
                lemma_prefix_trans(old(garbler).log(), mid13.log(), mid14.log());
                lemma_prefix_trans(old(garbler).log(), mid14.log(), mid15.log());
                lemma_prefix_trans(old(garbler).log(), mid15.log(), garbler.log());
                if s.trace_exact() {
                    lemma_concat_assoc(old(garbler).log(), s.0.trace(), s.1.trace());
                    lemma_concat_assoc(old(garbler).log(), s.0.trace() + s.1.trace(), s.2.trace());
                    lemma_concat_assoc(old(garbler).log(), s.0.trace() + s.1.trace() + s.2.trace(), s.3.trace());
                    lemma_concat_assoc(old(garbler).log(), s.0.trace() + s.1.trace() + s.2.trace() + s.3.trace(), s.4.trace());
                    lemma_concat_assoc(old(garbler).log(), s.0.trace() + s.1.trace() + s.2.trace() + s.3.trace() + s.4.trace(), s.5.trace());
                    lemma_concat_assoc(old(garbler).log(), s.0.trace() + s.1.trace() + s.2.trace() + s.3.trace() + s.4.trace() + s.5.trace(), s.6.trace());
                    lemma_concat_assoc(old(garbler).log(), s.0.trace() + s.1.trace() + s.2.trace() + s.3.trace() + s.4.trace() + s.5.trace() + s.6.trace(), s.7.trace());
                    lemma_concat_assoc(old(garbler).log(), s.0.trace() + s.1.trace() + s.2.trace() + s.3.trace() + s.4.trace() + s.5.trace() + s.6.trace() + s.7.trace(), s.8.trace());
                    lemma_concat_assoc(old(garbler).log(), s.0.trace() + s.1.trace() + s.2.trace() + s.3.trace() + s.4.trace() + s.5.trace() + s.6.trace() + s.7.trace() + s.8.trace(), s.9.trace());
                    lemma_concat_assoc(old(garbler).log(), s.0.trace() + s.1.trace() + s.2.trace() + s.3.trace() + s.4.trace() + s.5.trace() + s.6.trace() + s.7.trace() + s.8.trace() + s.9.trace(), s.10.trace());
                    lemma_concat_assoc(old(garbler).log(), s.0.trace() + s.1.trace() + s.2.trace() + s.3.trace() + s.4.trace() + s.5.trace() + s.6.trace() + s.7.trace() + s.8.trace() + s.9.trace() + s.10.trace(), s.11.trace());
                    lemma_concat_assoc(old(garbler).log(), s.0.trace() + s.1.trace() + s.2.trace() + s.3.trace() + s.4.trace() + s.5.trace() + s.6.trace() + s.7.trace() + s.8.trace() + s.9.trace() + s.10.trace() + s.11.trace(), s.12.trace());
                    lemma_concat_assoc(old(garbler).log(), s.0.trace() + s.1.trace() + s.2.trace() + s.3.trace() + s.4.trace() + s.5.trace() + s.6.trace() + s.7.trace() + s.8.trace() + s.9.trace() + s.10.trace() + s.11.trace() + s.12.trace(), s.13.trace());
                    lemma_concat_assoc(old(garbler).log(), s.0.trace() + s.1.trace() + s.2.trace() + s.3.trace() + s.4.trace() + s.5.trace() + s.6.trace() + s.7.trace() + s.8.trace() + s.9.trace() + s.10.trace() + s.11.trace() + s.12.trace() + s.13.trace(), s.14.trace());
                    lemma_concat_assoc(old(garbler).log(), s.0.trace() + s.1.trace() + s.2.trace() + s.3.trace() + s.4.trace() + s.5.trace() + s.6.trace() + s.7.trace() + s.8.trace() + s.9.trace() + s.10.trace() + s.11.trace() + s.12.trace() + s.13.trace() + s.14.trace(), s.15.trace());
                }
            }
            if old(garbler).follows_seed() && s.seed_known() {
                s.0.seed_after_ok(old(garbler).seed_state(), r0, mid1.seed_state());
                s.1.seed_after_ok(mid1.seed_state(), r1, mid2.seed_state());
                s.2.seed_after_ok(mid2.seed_state(), r2, mid3.seed_state());
                s.3.seed_after_ok(mid3.seed_state(), r3, mid4.seed_state());
                s.4.seed_after_ok(mid4.seed_state(), r4, mid5.seed_state());
                s.5.seed_after_ok(mid5.seed_state(), r5, mid6.seed_state());
                s.6.seed_after_ok(mid6.seed_state(), r6, mid7.seed_state());
                s.7.seed_after_ok(mid7.seed_state(), r7, mid8.seed_state());
                s.8.seed_after_ok(mid8.seed_state(), r8, mid9.seed_state());
                s.9.seed_after_ok(mid9.seed_state(), r9, mid10.seed_state());
                s.10.seed_after_ok(mid10.seed_state(), r10, mid11.seed_state());
                s.11.seed_after_ok(mid11.seed_state(), r11, mid12.seed_state());
                s.12.seed_after_ok(mid12.seed_state(), r12, mid13.seed_state());
                s.13.seed_after_ok(mid13.seed_state(), r13, mid14.seed_state());
                s.14.seed_after_ok(mid14.seed_state(), r14, mid15.seed_state());
            }
        }
        (r0, r1, r2, r3, r4, r5, r6, r7, r8, r9, r10, r11, r12, r13, r14, r15)
    }
}

} // verus!
