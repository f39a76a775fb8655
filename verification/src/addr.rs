use crate::garble::{seq_seed_after, seq_seed_after_ok, seq_seed_functional, seq_seed_known, seq_seed_rel, trace_of_seq, Garble};
use crate::garbler::{churn, seed_out, Garbler};
use crate::leaf::{
    lemma_concat_assoc, lemma_concat_empty, lemma_prefix_refl, lemma_prefix_trans,
    lemma_prefix_push, lemma_push_is_concat, Leaf,
};
use vstd::prelude::*;

verus! {

/// A four-byte IP address, held as its octets. Garbling perturbs each octet
/// in order.
#[derive(Debug, Clone, Copy, PartialEq, Eq, Structural)]
pub struct Ip4Addr {
    pub a: u8,
    pub b: u8,
    pub c: u8,
    pub d: u8,
}

impl Garble for Ip4Addr {
    type Output = Ip4Addr;

    open spec fn garble_rel(self, out: Ip4Addr) -> bool {
        true
    }

    open spec fn id_rel(self, out: Ip4Addr) -> bool {
        out == self
    }

    open spec fn flat_rel(self, out: Ip4Addr) -> bool {
        out == (Ip4Addr { a: 0, b: 0, c: 0, d: 0 })
    }

    open spec fn trace(self) -> Seq<Leaf> {
        seq![Leaf::U8(self.a)] + seq![Leaf::U8(self.b)] + seq![Leaf::U8(self.c)] + seq![
            Leaf::U8(self.d),
        ]
    }

    open spec fn trace_exact(self) -> bool {
        true
    }

    open spec fn seed_known(self) -> bool {
        true
    }

    open spec fn out_eq(a: Ip4Addr, b: Ip4Addr) -> bool {
        a == b
    }

    open spec fn seed_rel(self, s: u64, out: Ip4Addr, s2: u64) -> bool {
        &&& s2 == churn(churn(churn(churn(s))))
        &&& Leaf::U8(out.a) == seed_out(s, Leaf::U8(self.a))
        &&& Leaf::U8(out.b) == seed_out(churn(s), Leaf::U8(self.b))
        &&& Leaf::U8(out.c) == seed_out(churn(churn(s)), Leaf::U8(self.c))
        &&& Leaf::U8(out.d) == seed_out(churn(churn(churn(s))), Leaf::U8(self.d))
    }

    proof fn seed_functional(self, s: u64, o1: Ip4Addr, s1: u64, o2: Ip4Addr, s2: u64) {
        assert(o1 == (Ip4Addr { a: o1.a, b: o1.b, c: o1.c, d: o1.d }));
        assert(o2 == (Ip4Addr { a: o2.a, b: o2.b, c: o2.c, d: o2.d }));
    }

    open spec fn seed_after(self, s: u64) -> u64 {
        churn(churn(churn(churn(s))))
    }

    proof fn seed_after_ok(self, s: u64, out: Ip4Addr, s2: u64) {
    }

    fn garble<G: Garbler>(self, garbler: &mut G) -> (out: Ip4Addr) {
        let ghost s = self;
        let Ip4Addr { a, b, c, d } = self;
        let a2 = a.garble(garbler);
        let ghost mid1 = *garbler;
        let b2 = b.garble(garbler);
        let ghost mid2 = *garbler;
        let c2 = c.garble(garbler);
        let ghost mid3 = *garbler;
        let d2 = d.garble(garbler);
        proof {
            if old(garbler).logs() {
                lemma_prefix_trans(old(garbler).log(), mid1.log(), mid2.log());
                lemma_prefix_trans(old(garbler).log(), mid2.log(), mid3.log());
                lemma_prefix_trans(old(garbler).log(), mid3.log(), garbler.log());
                lemma_concat_assoc(old(garbler).log(), s.a.trace(), s.b.trace());
                lemma_concat_assoc(old(garbler).log(), s.a.trace() + s.b.trace(), s.c.trace());
                lemma_concat_assoc(
                    old(garbler).log(),
                    s.a.trace() + s.b.trace() + s.c.trace(),
                    s.d.trace(),
                );
            }
        }
        Ip4Addr { a: a2, b: b2, c: c2, d: d2 }
    }
}

/// A sixteen-byte IP address, held as its octets. Garbling perturbs each
/// octet in order.
#[derive(Debug, PartialEq, Eq)]
pub struct Ip6Addr {
    octets: Vec<u8>,
}

impl Ip6Addr {
    #[verifier::type_invariant]
    spec fn wf(self) -> bool {
        self.octets@.len() == 16
    }

    /// The sixteen octets of the address.
    pub closed spec fn octets(self) -> Seq<u8> {
        self.octets@
    }

    /// Wrap sixteen octets; `None` for any other count.
    pub fn new(octets: Vec<u8>) -> (r: Option<Ip6Addr>)
        ensures
            r is Some <==> octets@.len() == 16,
            r is Some ==> r->0.octets() == octets@,
    {
        if octets.len() == 16 {
            Some(Ip6Addr { octets })
        } else {
            None
        }
    }

    /// Read access to the octets.
    pub fn as_octets(&self) -> (r: &Vec<u8>)
        ensures
            r@ == self.octets(),
    {
        &self.octets
    }
}

impl Garble for Ip6Addr {
    type Output = Ip6Addr;

    open spec fn garble_rel(self, out: Ip6Addr) -> bool {
        out.octets().len() == 16
    }

    open spec fn id_rel(self, out: Ip6Addr) -> bool {
        out.octets() == self.octets()
    }

    open spec fn flat_rel(self, out: Ip6Addr) -> bool {
        &&& out.octets().len() == 16
        &&& forall|i: int| 0 <= i < out.octets().len() ==> out.octets()[i] == 0
    }

    open spec fn trace(self) -> Seq<Leaf> {
        trace_of_seq(self.octets())
    }

    open spec fn trace_exact(self) -> bool {
        true
    }

    open spec fn seed_known(self) -> bool {
        true
    }

    open spec fn out_eq(a: Ip6Addr, b: Ip6Addr) -> bool {
        a.octets() == b.octets()
    }

    open spec fn seed_rel(self, s: u64, out: Ip6Addr, s2: u64) -> bool {
        seq_seed_rel(self.octets(), s, out.octets(), s2)
    }

    proof fn seed_functional(self, s: u64, o1: Ip6Addr, s1: u64, o2: Ip6Addr, s2: u64) {
        assert(seq_seed_known(self.octets()));
        seq_seed_functional(self.octets(), s, o1.octets(), s1, o2.octets(), s2);
        assert(o1.octets() =~= o2.octets());
    }

    open spec fn seed_after(self, s: u64) -> u64 {
        seq_seed_after(self.octets(), s)
    }

    proof fn seed_after_ok(self, s: u64, out: Ip6Addr, s2: u64) {
        assert(seq_seed_known(self.octets()));
        seq_seed_after_ok(self.octets(), s, out.octets(), s2);
    }

    fn garble<G: Garbler>(self, garbler: &mut G) -> (out: Ip6Addr) {
        proof {
            use_type_invariant(&self);
        }
        let ghost g0 = *garbler;
        let Ip6Addr { octets } = self;
        let mut out: Vec<u8> = Vec::new();
        let mut i: usize = 0;
        proof {
            assert(octets@.take(0) =~= Seq::<u8>::empty());
            assert(out@ =~= octets@.take(0));
            lemma_prefix_refl(g0.log());
            lemma_concat_empty(g0.log());
            assert(seq_seed_rel(
                octets@.take(0),
                g0.seed_state(),
                out@,
                g0.seed_state(),
            ));
        }
        while i < octets.len()
            invariant
                g0 == *old(garbler),
                octets@.len() == 16,
                i <= octets@.len(),
                out@.len() == i,
                g0.keeps() ==> garbler.keeps() && out@ == octets@.take(i as int),
                g0.flattens() ==> garbler.flattens() && (forall|j: int|
                    0 <= j < i ==> out@[j] == 0),
                g0.logs() ==> garbler.logs() && g0.log().is_prefix_of(garbler.log())
                    && garbler.log() == g0.log() + trace_of_seq(octets@.take(i as int)),
                g0.follows_seed() ==> garbler.follows_seed() && seq_seed_rel(
                    octets@.take(i as int),
                    g0.seed_state(),
                    out@,
                    garbler.seed_state(),
                ),
            decreases octets@.len() - i,
        {
            let ghost k = i as int;
            let ghost pre = *garbler;
            let ghost out_pre = out@;
            let b = octets[i];
            let gb = garbler.garble_u8(b);
            out.push(gb);
            i = i + 1;
            proof {
                if g0.follows_seed() {
                    assert(octets@.take(k + 1).drop_last() =~= octets@.take(k));
                    assert(out@.drop_last() =~= out_pre);
                    assert(octets@.take(k + 1).last() == octets@[k]);
                    assert(out@.last() == gb);
                    assert(seq_seed_known(octets@.take(k)));
                    seq_seed_after_ok(octets@.take(k), g0.seed_state(), out_pre, pre.seed_state());
                    assert(seq_seed_rel(
                        octets@.take(k + 1),
                        g0.seed_state(),
                        out@,
                        garbler.seed_state(),
                    ));
                }
                if g0.keeps() {
                    assert(out@ =~= octets@.take(k + 1));
                }
                if g0.logs() {
                    lemma_prefix_trans(g0.log(), pre.log(), garbler.log());
                    assert(octets@.take(k + 1).drop_last() =~= octets@.take(k));
                    assert(octets@.take(k + 1).last() == octets@[k]);
                    assert(trace_of_seq(octets@.take(k + 1)) == trace_of_seq(octets@.take(k))
                        + octets@[k].trace());
                    assert(pre.log().push(Leaf::U8(b)) =~= pre.log() + octets@[k].trace());
                    lemma_concat_assoc(g0.log(), trace_of_seq(octets@.take(k)), octets@[k].trace());
                }
            }
        }
        proof {
            assert(octets@.take(octets@.len() as int) =~= octets@);
        }
        Ip6Addr { octets: out }
    }
}

/// A socket address over a four-byte IP address: the address and the port
/// garble, both componentwise.
#[derive(Debug, Clone, Copy, PartialEq, Eq, Structural)]
pub struct SockAddr4 {
    pub ip: Ip4Addr,
    pub port: u16,
}

impl Garble for SockAddr4 {
    type Output = SockAddr4;

    open spec fn garble_rel(self, out: SockAddr4) -> bool {
        true
    }

    open spec fn id_rel(self, out: SockAddr4) -> bool {
        out == self
    }

    open spec fn flat_rel(self, out: SockAddr4) -> bool {
        self.ip.flat_rel(out.ip) && out.port == 0
    }

    open spec fn trace(self) -> Seq<Leaf> {
        self.ip.trace() + seq![Leaf::U16(self.port)]
    }

    open spec fn trace_exact(self) -> bool {
        true
    }

    open spec fn seed_known(self) -> bool {
        true
    }

    open spec fn out_eq(a: SockAddr4, b: SockAddr4) -> bool {
        a == b
    }

    open spec fn seed_rel(self, s: u64, out: SockAddr4, s2: u64) -> bool {
        let s4 = churn(churn(churn(churn(s))));
        &&& s2 == churn(s4)
        &&& self.ip.seed_rel(s, out.ip, s4)
        &&& Leaf::U16(out.port) == seed_out(s4, Leaf::U16(self.port))
    }

    proof fn seed_functional(self, s: u64, o1: SockAddr4, s1: u64, o2: SockAddr4, s2: u64) {
        let s4 = churn(churn(churn(churn(s))));
        self.ip.seed_functional(s, o1.ip, s4, o2.ip, s4);
        assert(o1 == (SockAddr4 { ip: o1.ip, port: o1.port }));
        assert(o2 == (SockAddr4 { ip: o2.ip, port: o2.port }));
    }

    open spec fn seed_after(self, s: u64) -> u64 {
        churn(churn(churn(churn(churn(s)))))
    }

    proof fn seed_after_ok(self, s: u64, out: SockAddr4, s2: u64) {
    }

    fn garble<G: Garbler>(self, garbler: &mut G) -> (out: SockAddr4) {
        let ghost s = self;
        let SockAddr4 { ip, port } = self;
        let ip2 = ip.garble(garbler);
        let ghost mid = *garbler;
        let port2 = port.garble(garbler);
        proof {
            if old(garbler).logs() {
                lemma_prefix_trans(old(garbler).log(), mid.log(), garbler.log());
                lemma_concat_assoc(old(garbler).log(), s.ip.trace(), s.port.trace());
            }
        }
        SockAddr4 { ip: ip2, port: port2 }
    }
}

/// A socket address over a sixteen-byte IP address. The address and the port
/// garble; the flow label and the scope identifier are metadata and pass
/// through unchanged, whatever the strategy.
#[derive(Debug, PartialEq, Eq)]
pub struct SockAddr6 {
    pub ip: Ip6Addr,
    pub port: u16,
    pub flowinfo: u32,
    pub scope_id: u32,
}

impl Garble for SockAddr6 {
    type Output = SockAddr6;

    open spec fn garble_rel(self, out: SockAddr6) -> bool {
        &&& out.ip.octets().len() == 16
        &&& out.flowinfo == self.flowinfo
        &&& out.scope_id == self.scope_id
    }

    open spec fn id_rel(self, out: SockAddr6) -> bool {
        &&& out.ip.octets() == self.ip.octets()
        &&& out.port == self.port
        &&& out.flowinfo == self.flowinfo
        &&& out.scope_id == self.scope_id
    }

    open spec fn flat_rel(self, out: SockAddr6) -> bool {
        &&& self.ip.flat_rel(out.ip)
        &&& out.port == 0
        &&& out.flowinfo == self.flowinfo
        &&& out.scope_id == self.scope_id
    }

    open spec fn trace(self) -> Seq<Leaf> {
        self.ip.trace() + seq![Leaf::U16(self.port)]
    }

    open spec fn trace_exact(self) -> bool {
        true
    }

    open spec fn seed_known(self) -> bool {
        true
    }

    open spec fn out_eq(a: SockAddr6, b: SockAddr6) -> bool {
        a.ip.octets() == b.ip.octets() && a.port == b.port && a.flowinfo == b.flowinfo
            && a.scope_id == b.scope_id
    }

    open spec fn seed_rel(self, s: u64, out: SockAddr6, s2: u64) -> bool {
        let m = self.ip.seed_after(s);
        &&& self.ip.seed_rel(s, out.ip, m)
        &&& Leaf::U16(out.port) == seed_out(m, Leaf::U16(self.port))
        &&& s2 == churn(m)
        &&& out.flowinfo == self.flowinfo
        &&& out.scope_id == self.scope_id
    }

    proof fn seed_functional(self, s: u64, o1: SockAddr6, s1: u64, o2: SockAddr6, s2: u64) {
        let m = self.ip.seed_after(s);
        self.ip.seed_functional(s, o1.ip, m, o2.ip, m);
    }

    open spec fn seed_after(self, s: u64) -> u64 {
        churn(self.ip.seed_after(s))
    }

    proof fn seed_after_ok(self, s: u64, out: SockAddr6, s2: u64) {
    }

    fn garble<G: Garbler>(self, garbler: &mut G) -> (out: SockAddr6) {
        let ghost s = self;
        let SockAddr6 { ip, port, flowinfo, scope_id } = self;
        let ip2 = ip.garble(garbler);
        let ghost mid = *garbler;
        let port2 = port.garble(garbler);
        proof {
            if old(garbler).logs() {
                lemma_prefix_trans(old(garbler).log(), mid.log(), garbler.log());
                lemma_concat_assoc(old(garbler).log(), s.ip.trace(), s.port.trace());
            }
            if old(garbler).follows_seed() {
                s.ip.seed_after_ok(old(garbler).seed_state(), ip2, mid.seed_state());
            }
        }
        SockAddr6 { ip: ip2, port: port2, flowinfo, scope_id }
    }
}

} // verus!
