use garble::{
    garble_any, CStrBytes, GHeap, GMap, GSet, Garble, Holder, Ip4Addr, Ip6Addr, LeafRec,
    LogGarbler, NoGarble, NonZeroU64, NonZeroU8, PassGarbler, SeedGarbler, SimpleGarbler,
    SockAddr4, SockAddr6, ZeroGarbler,
};
use std::collections::VecDeque;
use std::marker::PhantomData;
use std::sync::atomic::{AtomicBool, AtomicI64, AtomicU32};

#[test]
fn identity_at_rate_zero() {
    let mut garbler = SimpleGarbler::new(0);
    let out = 128u64.garble(&mut garbler);
    assert_eq!(out, 128u64);
}

#[test]
fn full_perturbation_bool() {
    let mut garbler = SimpleGarbler::new(1000);
    let out = true.garble(&mut garbler);
    assert_eq!(out, false);
}

#[test]
fn sequence_length_preserved() {
    let mut garbler = SeedGarbler::new(9);
    let out = vec![10u32, 20, 30].garble(&mut garbler);
    assert_eq!(out.len(), 3);
}

#[test]
fn opt_out_is_transparent() {
    let mut garbler = SimpleGarbler::new(1000);
    let out = NoGarble(5u32).garble(&mut garbler);
    assert_eq!(out, 5u32);
}

#[test]
fn no_garble_accessors() {
    let wrapped = NoGarble::from(3u8);
    assert_eq!(*wrapped.inner(), 3u8);
    assert_eq!(wrapped.into_inner(), 3u8);
}

#[test]
fn option_preserves_presence() {
    let some = Some(3u8).garble(&mut ZeroGarbler);
    assert_eq!(some, Some(0u8));
    let none = None::<u8>.garble(&mut ZeroGarbler);
    assert_eq!(none, None);
}

#[test]
fn result_preserves_side() {
    let ok = Ok::<u8, bool>(3).garble(&mut ZeroGarbler);
    assert_eq!(ok, Ok(0u8));
    let err = Err::<u8, bool>(true).garble(&mut ZeroGarbler);
    assert_eq!(err, Err(false));
}

#[test]
fn tuples_garble_positionally() {
    let out = (1u8, true, 'x').garble(&mut ZeroGarbler);
    assert_eq!(out, (0u8, false, ' '));
}

#[test]
fn unit_and_phantom_are_fixed() {
    assert_eq!(().garble(&mut ZeroGarbler), ());
    assert_eq!(PhantomData::<u8>.garble(&mut ZeroGarbler), PhantomData::<u8>);
}

#[test]
fn borrowed_values_garble_to_owned() {
    let out = (&5u32).garble(&mut ZeroGarbler);
    assert_eq!(out, 0u32);
    let text = "hi".garble(&mut ZeroGarbler);
    assert_eq!(text, String::new());
}

#[test]
fn pass_garbler_returns_everything_unchanged() {
    let mut garbler = PassGarbler::new();
    assert_eq!(vec![1u32, 2].garble(&mut garbler), vec![1u32, 2]);
    assert_eq!("hey".garble(&mut garbler), "hey".to_string());
    assert_eq!('q'.garble(&mut garbler), 'q');
}

#[test]
fn non_zero_rebinds_zero_to_one() {
    let wrapped = NonZeroU8::new(200).unwrap();
    let out = wrapped.garble(&mut ZeroGarbler);
    assert_eq!(out.get(), 1u8);
}

#[test]
fn non_zero_rejects_zero() {
    assert!(NonZeroU8::new(0).is_none());
    let kept = NonZeroU64::new(7).unwrap().garble(&mut PassGarbler);
    assert_eq!(kept.get(), 7u64);
}

#[test]
fn c_str_repairs_null_bytes() {
    let input = CStrBytes::new(vec![104u8, 105u8]).unwrap();
    let out = input.garble(&mut ZeroGarbler);
    assert_eq!(out.as_bytes().as_slice(), &[0x3Fu8, 0x3Fu8]);
}

#[test]
fn c_str_rejects_interior_null() {
    assert!(CStrBytes::new(vec![1u8, 0u8, 2u8]).is_none());
}

#[test]
fn set_cardinality_can_shrink() {
    let set = GSet::<u32>::new().insert(1).insert(2).insert(3);
    assert_eq!(set.len(), 3);
    let out = set.garble(&mut ZeroGarbler);
    assert_eq!(out.len(), 1);
}

#[test]
fn set_deduplicates_on_insert() {
    let set = GSet::<String>::new().insert("a".to_string()).insert("a".to_string());
    assert_eq!(set.len(), 1);
    assert!(set.contains(&"a".to_string()));
    assert!(!set.contains(&"b".to_string()));
}

#[test]
fn map_cardinality_can_shrink() {
    let map = GMap::<u32, u32>::new().insert(1, 10).insert(2, 20);
    assert_eq!(map.len(), 2);
    let out = map.garble(&mut ZeroGarbler);
    assert_eq!(out.len(), 1);
}

#[test]
fn map_keeps_distinct_garbled_keys() {
    let map = GMap::<u32, u32>::new().insert(1, 10).insert(2, 20);
    let mut garbler = PassGarbler::new();
    let out = map.garble(&mut garbler);
    assert_eq!(out.len(), 2);
    assert!(out.contains_key(&1));
    assert!(out.contains_key(&2));
}

#[test]
fn traversal_order_tuple() {
    let mut garbler = LogGarbler::new();
    let _ = (1u8, (2u16, 3u32)).garble(&mut garbler);
    let expected = vec![LeafRec::U8(1), LeafRec::U16(2), LeafRec::U32(3)];
    assert_eq!(garbler.calls(), &expected);
}

#[test]
fn traversal_order_key_before_value() {
    let map = GMap::<u32, String>::new().insert(1, "x".to_string());
    let mut garbler = LogGarbler::new();
    let _ = map.garble(&mut garbler);
    let expected = vec![LeafRec::U32(1), LeafRec::Str("x".to_string())];
    assert_eq!(garbler.calls(), &expected);
}

#[test]
fn traversal_order_sequence_ascending() {
    let mut garbler = LogGarbler::new();
    let _ = vec![7u8, 8u8, 9u8].garble(&mut garbler);
    let expected = vec![LeafRec::U8(7), LeafRec::U8(8), LeafRec::U8(9)];
    assert_eq!(garbler.calls(), &expected);
}

#[test]
fn seeded_garbling_is_deterministic() {
    let input = vec![5u32, 6, 7];
    let first = input.clone().garble(&mut SeedGarbler::new(7));
    let second = input.garble(&mut SeedGarbler::new(7));
    assert_eq!(first, second);
}

#[test]
fn seeded_integer_answer_is_exact() {
    let mut garbler = SeedGarbler::new(42);
    let out = 5u8.garble(&mut garbler);
    assert_eq!(out, 5u8 ^ 42u8);
}

#[test]
fn seeded_string_maps_to_next_scalars() {
    let mut garbler = SeedGarbler::new(1);
    let out = "ab".garble(&mut garbler);
    assert_eq!(out, "bc".to_string());
}

#[test]
fn full_rate_changes_integers() {
    let mut garbler = SimpleGarbler::new(1000);
    assert_ne!(128u8.garble(&mut garbler), 128u8);
    assert_ne!(128u128.garble(&mut garbler), 128u128);
    assert_ne!((-7i64).garble(&mut garbler), -7i64);
}

#[test]
fn full_rate_changes_chars() {
    let mut garbler = SimpleGarbler::new(1000);
    assert_ne!('a'.garble(&mut garbler), 'a');
}

#[test]
fn rates_above_full_are_clamped() {
    let mut garbler = SimpleGarbler::new(5000);
    assert_eq!(true.garble(&mut garbler), false);
}

#[test]
fn rate_zero_keeps_strings() {
    let mut garbler = SimpleGarbler::new(0);
    let out = "hello".to_string().garble(&mut garbler);
    assert_eq!(out, "hello".to_string());
}

#[test]
fn vec_deque_preserves_length_and_order() {
    let input: VecDeque<u8> = VecDeque::from(vec![1u8, 2, 3]);
    let out = input.garble(&mut ZeroGarbler);
    assert_eq!(out, VecDeque::from(vec![0u8, 0, 0]));
}

#[test]
fn ip4_garbles_componentwise() {
    let input = Ip4Addr { a: 1, b: 2, c: 3, d: 4 };
    let out = input.garble(&mut ZeroGarbler);
    assert_eq!(out, Ip4Addr { a: 0, b: 0, c: 0, d: 0 });
}

#[test]
fn ip6_garbles_componentwise() {
    let input = Ip6Addr::new(vec![1u8; 16]).unwrap();
    let out = input.garble(&mut ZeroGarbler);
    assert_eq!(out.as_octets().as_slice(), &[0u8; 16]);
}

#[test]
fn ip6_rejects_wrong_length() {
    assert!(Ip6Addr::new(vec![0u8; 4]).is_none());
}

#[test]
fn sock_addr4_garbles_address_and_port() {
    let input = SockAddr4 { ip: Ip4Addr { a: 1, b: 2, c: 3, d: 4 }, port: 80 };
    let out = input.garble(&mut ZeroGarbler);
    assert_eq!(out, SockAddr4 { ip: Ip4Addr { a: 0, b: 0, c: 0, d: 0 }, port: 0 });
}

#[test]
fn sock_addr6_preserves_flow_and_scope() {
    let input = SockAddr6 {
        ip: Ip6Addr::new(vec![1u8; 16]).unwrap(),
        port: 80,
        flowinfo: 7,
        scope_id: 9,
    };
    let out = input.garble(&mut ZeroGarbler);
    assert_eq!(out.port, 0);
    assert_eq!(out.flowinfo, 7);
    assert_eq!(out.scope_id, 9);
}

#[test]
fn generic_holder_garbles_its_field() {
    let out = Holder { value: 7u32 }.garble(&mut ZeroGarbler);
    assert_eq!(out, Holder { value: 0u32 });
}

#[test]
fn atomics_garble_by_reduction() {
    let out = AtomicU32::new(7).garble(&mut ZeroGarbler);
    assert_eq!(out.into_inner(), 0u32);
    let kept = AtomicBool::new(true).garble(&mut PassGarbler);
    assert_eq!(kept.into_inner(), true);
    let signed = AtomicI64::new(-9).garble(&mut PassGarbler);
    assert_eq!(signed.into_inner(), -9i64);
}

#[test]
fn arrays_garble_componentwise() {
    let out = [1u8, 2, 3].garble(&mut ZeroGarbler);
    assert_eq!(out, [0u8, 0, 0]);
    let kept = [7u32, 8].garble(&mut PassGarbler);
    assert_eq!(kept, [7u32, 8]);
}

#[test]
fn wide_tuples_garble_positionally() {
    let input = (1u8, 2u16, 3u32, 4u64, true, 'x', 7i8, 8i16);
    let out = input.garble(&mut ZeroGarbler);
    assert_eq!(out, (0u8, 0u16, 0u32, 0u64, false, ' ', 0i8, 0i16));
}

#[test]
fn heap_preserves_entry_count() {
    let heap = GHeap::<u32>::new().push(5, 50).push(9, 90).push(9, 91);
    assert_eq!(heap.len(), 3);
    let out = heap.garble(&mut ZeroGarbler);
    assert_eq!(out.len(), 3);
    for entry in out.as_entries() {
        assert_eq!(entry.0, 0u64);
        assert_eq!(entry.1, 0u32);
    }
}

#[test]
fn heap_pops_highest_priority_first() {
    let heap = GHeap::<u32>::new().push(5, 50).push(9, 90).push(7, 70);
    let (rest, popped) = heap.pop_max();
    assert_eq!(popped, Some((9u64, 90u32)));
    let (rest, popped) = rest.pop_max();
    assert_eq!(popped, Some((7u64, 70u32)));
    let (rest, popped) = rest.pop_max();
    assert_eq!(popped, Some((5u64, 50u32)));
    let (_, popped) = rest.pop_max();
    assert_eq!(popped, None);
}

#[test]
fn seeded_set_garbling_is_deterministic() {
    let make = || GSet::<u32>::new().insert(1).insert(2).insert(3);
    let first = make().garble(&mut SeedGarbler::new(11));
    let second = make().garble(&mut SeedGarbler::new(11));
    assert_eq!(first.as_items(), second.as_items());
}

#[test]
fn seeded_heap_garbling_is_deterministic() {
    let make = || GHeap::<u32>::new().push(5, 50).push(9, 90);
    let first = make().garble(&mut SeedGarbler::new(3));
    let second = make().garble(&mut SeedGarbler::new(3));
    assert_eq!(first.as_entries(), second.as_entries());
}

#[test]
fn garble_any_matches_direct_garbling() {
    assert_eq!(garble_any(&mut ZeroGarbler, 5u8), 0u8);
    assert_eq!(garble_any(&mut ZeroGarbler, "abc"), String::new());
}
