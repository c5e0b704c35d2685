//! The size oracle must report exactly the canonical encoding's length, and
//! follow the structural size rules of each shape.

use fastborsh::BorshSize;
use fastborsh::FastBorshSerialize;

#[test]
fn scalar_sizes_are_byte_widths() {
    assert_eq!(1u8.borsh_size(), 1);
    assert_eq!(2u16.borsh_size(), 2);
    assert_eq!(3u32.borsh_size(), 4);
    assert_eq!(4u64.borsh_size(), 8);
    assert_eq!(5u128.borsh_size(), 16);
    assert_eq!(6usize.borsh_size(), 8);
    assert_eq!((-1i8).borsh_size(), 1);
    assert_eq!((-2i16).borsh_size(), 2);
    assert_eq!((-3i32).borsh_size(), 4);
    assert_eq!((-4i64).borsh_size(), 8);
    assert_eq!((-5i128).borsh_size(), 16);
    assert_eq!((-6isize).borsh_size(), 8);
    assert_eq!(true.borsh_size(), 1);
}

#[test]
fn size_matches_encoded_length() {
    let samples: Vec<Vec<Option<u16>>> =
        vec![vec![], vec![Some(1), None, Some(3)], vec![None; 17]];
    for s in samples {
        assert_eq!(s.borsh_size(), borsh::to_vec(&s).unwrap().len());
        assert_eq!(s.borsh_size(), s.fast_serialize().len());
    }
}

#[test]
fn zero_length_array_costs_nothing_empty_list_costs_prefix() {
    let fixed: [u64; 0] = [];
    assert_eq!(fixed.borsh_size(), 0);
    let list: Vec<u64> = Vec::new();
    assert_eq!(list.borsh_size(), 4);
    assert_eq!(borsh::to_vec(&fixed).unwrap().len(), 0);
    assert_eq!(borsh::to_vec(&list).unwrap().len(), 4);
}

#[test]
fn scalar_record_is_44_bytes() {
    let records = [
        (0u32, 0u64, [0u8; 32]),
        (u32::MAX, u64::MAX, [0xFFu8; 32]),
        (17u32, 3u64, [5u8; 32]),
    ];
    for r in records {
        assert_eq!(r.borsh_size(), 44);
        let fast = r.fast_serialize();
        assert_eq!(fast.len(), 44);
        assert_eq!(fast, borsh::to_vec(&r).unwrap());
    }
}

#[test]
fn record_with_list_is_48_plus_len() {
    let mut r = (1u32, 2u64, [3u8; 32], vec![5u8; 900]);
    assert_eq!(r.borsh_size(), 948);
    assert_eq!(r.fast_serialize(), borsh::to_vec(&r).unwrap());
    assert_eq!(r.fast_serialize().len(), 948);

    r.3 = Vec::new();
    assert_eq!(r.borsh_size(), 48);
    assert_eq!(r.fast_serialize(), borsh::to_vec(&r).unwrap());
    assert_eq!(r.fast_serialize().len(), 48);
}

#[test]
fn absent_options_cost_one_byte_each() {
    let e: Vec<Option<[u8; 32]>> = vec![None; 2000];
    assert_eq!(e.borsh_size(), 2004);
    assert_eq!(borsh::to_vec(&e).unwrap().len(), 2004);
    assert_eq!(e.fast_serialize().len(), 2004);
}

#[test]
fn product_size_is_sum_of_field_sizes() {
    let a = 9u32;
    let b = vec![1u8, 2, 3];
    let c = String::from("xyz");
    let t = (a, b.clone(), c.clone());
    assert_eq!(t.borsh_size(), a.borsh_size() + b.borsh_size() + c.borsh_size());
}

#[test]
fn indirection_is_transparent_to_size() {
    let v = vec![1u16, 2, 3];
    assert_eq!(Box::new(v.clone()).borsh_size(), v.borsh_size());
    assert_eq!(std::rc::Rc::new(v.clone()).borsh_size(), v.borsh_size());
    assert_eq!(std::sync::Arc::new(v.clone()).borsh_size(), v.borsh_size());
    assert_eq!((&v).borsh_size(), v.borsh_size());
}

#[test]
fn text_sizes_count_utf8_bytes() {
    assert_eq!(String::from("hello").borsh_size(), 9);
    assert_eq!(String::from("h\u{e9}llo").borsh_size(), 10);
    assert_eq!(String::new().borsh_size(), 4);
}

#[test]
fn ordered_map_size_sums_entries() {
    let mut m: std::collections::BTreeMap<u64, Vec<u8>> = std::collections::BTreeMap::new();
    m.insert(3, vec![1, 2, 3]);
    m.insert(7, Vec::new());
    assert_eq!(m.borsh_size(), 4 + (8 + 4 + 3) + (8 + 4));
    assert_eq!(m.borsh_size(), borsh::to_vec(&m).unwrap().len());
}
