use vox_verified::fuzz::{plan_fuzz_case, process_message_reply_ok, Cursor, FuzzOp};

#[test]
fn empty_input_reads_zeros() {
    let data: [u8; 0] = [];
    let mut c = Cursor::new(&data);
    assert_eq!(c.next_u8(), 0);
    assert_eq!(c.next_u32(), 0);
    assert_eq!(c.next_i64(), 0);
    assert_eq!(c.bytes(8), Vec::<u8>::new());
    assert_eq!(c.string(8), "");
}

#[test]
fn input_is_read_cyclically() {
    let data = [1u8, 2, 3];
    let mut c = Cursor::new(&data);
    let got: Vec<u8> = (0..7).map(|_| c.next_u8()).collect();
    assert_eq!(got, vec![1, 2, 3, 1, 2, 3, 1]);
}

#[test]
fn integers_are_little_endian() {
    let data = [0x01u8, 0x02, 0x03, 0x04, 0xff, 0xff, 0xff, 0xff];
    let mut c = Cursor::new(&data);
    assert_eq!(c.next_u32(), 0x0403_0201);
    let mut c = Cursor::new(&data);
    assert_eq!(c.next_i64(), i64::from_le_bytes(data));
    let neg = [0xffu8; 8];
    let mut c = Cursor::new(&neg);
    assert_eq!(c.next_i64(), -1);
}

#[test]
fn bytes_take_a_length_modulo_the_bound() {
    // Length byte 10, bound 3: 10 % 4 == 2 bytes follow.
    let data = [10u8, b'a', b'b', b'c'];
    let mut c = Cursor::new(&data);
    assert_eq!(c.bytes(3), vec![b'a', b'b']);
    let mut c = Cursor::new(&data);
    assert_eq!(c.string(3), "ab");
    let bad = [2u8, 0xff, 0xfe];
    let mut c = Cursor::new(&bad);
    assert_eq!(c.string(8), "\u{fffd}\u{fffd}");
}

#[test]
fn plan_decodes_each_selector() {
    // One op (0 % 24 + 1), selector 3: lookup of the next u32.
    let data = [0u8, 3, 0x10, 0, 0, 0];
    let ops = plan_fuzz_case(&data);
    assert_eq!(ops.len(), 1);
    assert!(matches!(ops[0], FuzzOp::Lookup(0x10)));

    // Two ops: echo of a two-byte string, then a divide.
    let mut data = vec![1u8, 0, 2, b'h', b'i', 2];
    data.extend_from_slice(&5i64.to_le_bytes());
    data.extend_from_slice(&(-3i64).to_le_bytes());
    let ops = plan_fuzz_case(&data);
    assert_eq!(ops.len(), 2);
    assert!(matches!(&ops[0], FuzzOp::Echo(s) if s == "hi"));
    assert!(matches!(ops[1], FuzzOp::Divide(5, -3)));
}

#[test]
fn plan_collection_selectors() {
    // Sum of two numbers; generate with a count modulo 16; point; swap pair.
    let mut data = vec![3u8, 5, 2];
    data.extend_from_slice(&7u32.to_le_bytes());
    data.extend_from_slice(&u32::MAX.to_le_bytes());
    data.push(6);
    data.extend_from_slice(&35u32.to_le_bytes());
    data.push(8);
    data.extend_from_slice(&1u32.to_le_bytes());
    data.extend_from_slice(&2u32.to_le_bytes());
    data.push(9);
    data.extend_from_slice(&3u32.to_le_bytes());
    data.extend_from_slice(&[1, b'z']);
    let ops = plan_fuzz_case(&data[..]);
    assert_eq!(ops.len(), 4);
    assert!(matches!(&ops[0], FuzzOp::Sum(v) if v == &vec![7, -1]));
    assert!(matches!(ops[1], FuzzOp::Generate(3)));
    assert!(matches!(ops[2], FuzzOp::EchoPoint(1, 2)));
    assert!(matches!(&ops[3], FuzzOp::SwapPair(3, s) if s == "z"));
}

#[test]
fn plan_transform_and_message() {
    let data = vec![1u8, 7, 2, 1, b'a', 1, b'b'];
    let ops = plan_fuzz_case(&data);
    assert_eq!(ops.len(), 2);
    match &ops[0] {
        FuzzOp::Transform(v) => assert_eq!(v, &vec!["a".to_string(), "b".to_string()]),
        _ => panic!("expected transform"),
    }
    // The data wraps: the second op reads from the start again.
    assert!(matches!(&ops[1], FuzzOp::Reverse(s) if s == "\u{2}\u{1}a\u{1}b\u{1}\u{7}"));
    let data = vec![0u8, 4, 3, 9, 8, 7];
    let ops = plan_fuzz_case(&data);
    assert!(matches!(&ops[0], FuzzOp::ProcessMessage(p) if p == &vec![9, 8, 7]));
}

#[test]
fn reversed_echo_check() {
    assert!(process_message_reply_ok(&[1, 2, 3], &[3, 2, 1]));
    assert!(!process_message_reply_ok(&[1, 2, 3], &[1, 2, 3]));
    assert!(!process_message_reply_ok(&[1, 2], &[2]));
    assert!(process_message_reply_ok(&[], &[]));
}
