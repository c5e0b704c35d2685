//! The fast path must agree byte-for-byte with the external canonical
//! encoder, for every supported shape.

use fastborsh::FastBorshSerialize;

#[test]
fn t() {
    let mut s: (u32, u64, [u8; 32], Vec<u8>, Vec<Option<[u8; 32]>>) =
        (0, 0, [0u8; 32], Vec::new(), Vec::new());
    s.3 = vec![5; 900];
    s.4 = vec![None; 2000];
    let r1 = borsh::to_vec(&s).unwrap();
    let r2 = s.fast_serialize();
    assert_eq!(r1, r2);
    println!("{}", r1.len());
    println!("{}", r1.capacity());
    println!("{}", r2.len());
    println!("{}", r2.capacity());

    let n = 100000;

    let start = std::time::Instant::now();
    for _ in 0..n {
        s.fast_serialize();
    }
    println!("elapsed fast: {}", start.elapsed().as_micros());

    let start = std::time::Instant::now();
    for _ in 0..n {
        borsh::to_vec(&s).unwrap();
    }
    println!("elapsed borsh: {}", start.elapsed().as_micros());
}

#[test]
fn unsigned_scalars_round_trip() {
    assert_eq!(borsh::to_vec(&0x01u8).unwrap(), 0x01u8.fast_serialize());
    assert_eq!(borsh::to_vec(&0x0203u16).unwrap(), 0x0203u16.fast_serialize());
    assert_eq!(borsh::to_vec(&0xDEADBEEFu32).unwrap(), 0xDEADBEEFu32.fast_serialize());
    assert_eq!(
        borsh::to_vec(&0x0102030405060708u64).unwrap(),
        0x0102030405060708u64.fast_serialize()
    );
    assert_eq!(borsh::to_vec(&u128::MAX).unwrap(), u128::MAX.fast_serialize());
    assert_eq!(borsh::to_vec(&7usize).unwrap(), 7usize.fast_serialize());
}

#[test]
fn signed_scalars_round_trip() {
    assert_eq!(borsh::to_vec(&-1i8).unwrap(), (-1i8).fast_serialize());
    assert_eq!(borsh::to_vec(&-2i16).unwrap(), (-2i16).fast_serialize());
    assert_eq!(borsh::to_vec(&-3i32).unwrap(), (-3i32).fast_serialize());
    assert_eq!(borsh::to_vec(&-4i64).unwrap(), (-4i64).fast_serialize());
    assert_eq!(borsh::to_vec(&i128::MIN).unwrap(), i128::MIN.fast_serialize());
    assert_eq!(borsh::to_vec(&-5isize).unwrap(), (-5isize).fast_serialize());
}

#[test]
fn scalar_exact_bytes() {
    assert_eq!(1u32.fast_serialize(), vec![1, 0, 0, 0]);
    assert_eq!(0x0203u16.fast_serialize(), vec![3, 2]);
    assert_eq!((-1i8).fast_serialize(), vec![0xFF]);
    assert_eq!((-2i64).fast_serialize(), vec![0xFE, 0xFF, 0xFF, 0xFF, 0xFF, 0xFF, 0xFF, 0xFF]);
    assert_eq!(5usize.fast_serialize(), vec![5, 0, 0, 0, 0, 0, 0, 0]);
    assert_eq!(true.fast_serialize(), vec![1]);
    assert_eq!(false.fast_serialize(), vec![0]);
    assert_eq!(borsh::to_vec(&true).unwrap(), vec![1]);
}

#[test]
fn text_round_trip() {
    let plain = String::from("hello");
    assert_eq!(borsh::to_vec(&plain).unwrap(), plain.fast_serialize());
    assert_eq!(plain.fast_serialize(), vec![5, 0, 0, 0, b'h', b'e', b'l', b'l', b'o']);

    let accented = String::from("h\u{e9}llo");
    assert_eq!(borsh::to_vec(&accented).unwrap(), accented.fast_serialize());
    assert_eq!(accented.fast_serialize().len(), 4 + 6);

    let empty = String::new();
    assert_eq!(borsh::to_vec(&empty).unwrap(), empty.fast_serialize());
    assert_eq!(empty.fast_serialize(), vec![0, 0, 0, 0]);
}

#[test]
fn options_round_trip() {
    let none: Option<u8> = None;
    let some: Option<u8> = Some(7);
    assert_eq!(borsh::to_vec(&none).unwrap(), none.fast_serialize());
    assert_eq!(borsh::to_vec(&some).unwrap(), some.fast_serialize());
    assert_eq!(none.fast_serialize(), vec![0]);
    assert_eq!(some.fast_serialize(), vec![1, 7]);
}

#[test]
fn results_round_trip() {
    let ok: Result<u8, u32> = Ok(7);
    let err: Result<u8, u32> = Err(9);
    assert_eq!(borsh::to_vec(&ok).unwrap(), ok.fast_serialize());
    assert_eq!(borsh::to_vec(&err).unwrap(), err.fast_serialize());
    assert_eq!(ok.fast_serialize(), vec![1, 7]);
    assert_eq!(err.fast_serialize(), vec![0, 9, 0, 0, 0]);
}

#[test]
fn sequences_round_trip() {
    let v: Vec<u8> = vec![1, 2, 3];
    assert_eq!(borsh::to_vec(&v).unwrap(), v.fast_serialize());
    assert_eq!(v.fast_serialize(), vec![3, 0, 0, 0, 1, 2, 3]);

    let empty: Vec<u8> = Vec::new();
    assert_eq!(borsh::to_vec(&empty).unwrap(), empty.fast_serialize());
    assert_eq!(empty.fast_serialize(), vec![0, 0, 0, 0]);

    let nested: Vec<Vec<u16>> = vec![vec![1, 2], vec![], vec![3]];
    assert_eq!(borsh::to_vec(&nested).unwrap(), nested.fast_serialize());

    let sl: &[u16] = &[1, 2, 3];
    assert_eq!(borsh::to_vec(&sl).unwrap(), sl.fast_serialize());
    assert_eq!(sl.fast_serialize(), vec![3, 0, 0, 0, 1, 0, 2, 0, 3, 0]);

    let mut dq: std::collections::VecDeque<u16> = std::collections::VecDeque::new();
    dq.push_back(2);
    dq.push_back(3);
    dq.push_front(1);
    assert_eq!(borsh::to_vec(&dq).unwrap(), dq.fast_serialize());
}

#[test]
fn fixed_arrays_round_trip() {
    let a: [u8; 4] = [9, 8, 7, 6];
    assert_eq!(borsh::to_vec(&a).unwrap(), a.fast_serialize());
    assert_eq!(a.fast_serialize(), vec![9, 8, 7, 6]);

    let zero: [u8; 0] = [];
    assert_eq!(borsh::to_vec(&zero).unwrap(), zero.fast_serialize());
    assert_eq!(zero.fast_serialize(), Vec::<u8>::new());

    let wide: [u32; 2] = [1, 2];
    assert_eq!(borsh::to_vec(&wide).unwrap(), wide.fast_serialize());
    assert_eq!(wide.fast_serialize(), vec![1, 0, 0, 0, 2, 0, 0, 0]);
}

#[test]
fn indirection_round_trip() {
    let b = Box::new(0xABCDu16);
    assert_eq!(borsh::to_vec(&b).unwrap(), b.fast_serialize());
    assert_eq!(b.fast_serialize(), 0xABCDu16.fast_serialize());

    let r = std::rc::Rc::new(vec![1u8, 2]);
    assert_eq!(borsh::to_vec(&r).unwrap(), r.fast_serialize());
    assert_eq!(r.fast_serialize(), vec![1u8, 2].fast_serialize());

    let a = std::sync::Arc::new(String::from("hi"));
    assert_eq!(borsh::to_vec(&a).unwrap(), a.fast_serialize());
    assert_eq!(a.fast_serialize(), String::from("hi").fast_serialize());

    let v = 42u64;
    let by_ref: &u64 = &v;
    assert_eq!(borsh::to_vec(&by_ref).unwrap(), by_ref.fast_serialize());
    assert_eq!(by_ref.fast_serialize(), v.fast_serialize());
}

#[test]
fn markers_round_trip() {
    assert_eq!(borsh::to_vec(&()).unwrap(), ().fast_serialize());
    assert_eq!(().fast_serialize(), Vec::<u8>::new());

    let marker: core::marker::PhantomData<u32> = core::marker::PhantomData;
    assert_eq!(borsh::to_vec(&marker).unwrap(), marker.fast_serialize());
    assert_eq!(marker.fast_serialize(), Vec::<u8>::new());

    assert_eq!(borsh::to_vec(&(..)).unwrap(), (..).fast_serialize());
    assert_eq!((..).fast_serialize(), Vec::<u8>::new());
}

#[test]
fn tuples_round_trip() {
    let one = (1u8,);
    assert_eq!(borsh::to_vec(&one).unwrap(), one.fast_serialize());

    let pair = (1u8, String::from("ab"));
    assert_eq!(borsh::to_vec(&pair).unwrap(), pair.fast_serialize());

    let triple = (true, Some(2u16), vec![3u8]);
    assert_eq!(borsh::to_vec(&triple).unwrap(), triple.fast_serialize());

    let four = (1u8, 2u16, 3u32, 4u64);
    assert_eq!(borsh::to_vec(&four).unwrap(), four.fast_serialize());
}

#[test]
fn ordered_maps_round_trip() {
    let mut m: std::collections::BTreeMap<u64, String> = std::collections::BTreeMap::new();
    m.insert(9, String::from("nine"));
    m.insert(1, String::from("one"));
    m.insert(4, String::from("four"));
    assert_eq!(borsh::to_vec(&m).unwrap(), m.fast_serialize());

    let empty: std::collections::BTreeMap<u64, u8> = std::collections::BTreeMap::new();
    assert_eq!(borsh::to_vec(&empty).unwrap(), empty.fast_serialize());
    assert_eq!(empty.fast_serialize(), vec![0, 0, 0, 0]);

    let mut single: std::collections::BTreeMap<u64, u16> = std::collections::BTreeMap::new();
    single.insert(1, 2);
    assert_eq!(
        single.fast_serialize(),
        vec![1, 0, 0, 0, 1, 0, 0, 0, 0, 0, 0, 0, 2, 0]
    );
}

#[test]
fn borrowed_text_round_trip() {
    let s: &str = "borrowed";
    assert_eq!(borsh::to_vec(&s).unwrap(), s.fast_serialize());
    assert_eq!(s.fast_serialize().len(), 4 + 8);
}

#[test]
fn copy_on_write_round_trip() {
    let value = 0x0605u16;
    let borrowed: std::borrow::Cow<u16> = std::borrow::Cow::Borrowed(&value);
    let owned: std::borrow::Cow<u16> = std::borrow::Cow::Owned(value);
    assert_eq!(borsh::to_vec(&borrowed).unwrap(), borrowed.fast_serialize());
    assert_eq!(borsh::to_vec(&owned).unwrap(), owned.fast_serialize());
    assert_eq!(borrowed.fast_serialize(), value.fast_serialize());
    assert_eq!(owned.fast_serialize(), value.fast_serialize());
}
