use marshal_stubs::wire::{DecodeFailure, Wire};

#[test]
fn i32_is_four_bytes_least_significant_first() {
    assert_eq!(5i32.encode(), Ok(vec![5, 0, 0, 0]));
    assert_eq!(0x0102_0304i32.encode(), Ok(vec![4, 3, 2, 1]));
    assert_eq!(i32::decode(&[4, 3, 2, 1]), Ok(0x0102_0304));
}

#[test]
fn i32_is_in_twos_complement() {
    assert_eq!((-1i32).encode(), Ok(vec![255, 255, 255, 255]));
    assert_eq!((-2i32).encode(), Ok(vec![254, 255, 255, 255]));
    assert_eq!(i32::MIN.encode(), Ok(vec![0, 0, 0, 128]));
    assert_eq!(i32::MAX.encode(), Ok(vec![255, 255, 255, 127]));
    assert_eq!(i32::decode(&[255, 255, 255, 255]), Ok(-1));
    assert_eq!(i32::decode(&[0, 0, 0, 128]), Ok(i32::MIN));
}

#[test]
fn i32_of_another_length_does_not_decode() {
    assert_eq!(i32::decode(&[]), Err(DecodeFailure));
    assert_eq!(i32::decode(&[1, 2, 3]), Err(DecodeFailure));
    assert_eq!(i32::decode(&[1, 2, 3, 4, 5]), Err(DecodeFailure));
}

#[test]
fn i64_is_eight_bytes_least_significant_first() {
    assert_eq!(
        0x0102_0304_0506_0708i64.encode(),
        Ok(vec![8, 7, 6, 5, 4, 3, 2, 1])
    );
    assert_eq!((-1i64).encode(), Ok(vec![255; 8]));
    assert_eq!(i64::MIN.encode(), Ok(vec![0, 0, 0, 0, 0, 0, 0, 128]));
    assert_eq!(i64::decode(&[8, 7, 6, 5, 4, 3, 2, 1]), Ok(0x0102_0304_0506_0708));
    assert_eq!(i64::decode(&[255; 8]), Ok(-1));
}

#[test]
fn i64_of_another_length_does_not_decode() {
    assert_eq!(i64::decode(&[1, 2, 3, 4]), Err(DecodeFailure));
    assert_eq!(i64::decode(&[0; 9]), Err(DecodeFailure));
}

#[test]
fn u32_is_four_bytes_least_significant_first() {
    assert_eq!(1u32.encode(), Ok(vec![1, 0, 0, 0]));
    assert_eq!(0xdead_beefu32.encode(), Ok(vec![0xef, 0xbe, 0xad, 0xde]));
    assert_eq!(u32::MAX.encode(), Ok(vec![255; 4]));
    assert_eq!(u32::decode(&[0xef, 0xbe, 0xad, 0xde]), Ok(0xdead_beef));
    assert_eq!(u32::decode(&[255; 4]), Ok(u32::MAX));
}

#[test]
fn u32_of_another_length_does_not_decode() {
    assert_eq!(u32::decode(&[1]), Err(DecodeFailure));
    assert_eq!(u32::decode(&[0; 8]), Err(DecodeFailure));
}

#[test]
fn u64_is_eight_bytes_least_significant_first() {
    assert_eq!(258u64.encode(), Ok(vec![2, 1, 0, 0, 0, 0, 0, 0]));
    assert_eq!(u64::MAX.encode(), Ok(vec![255; 8]));
    assert_eq!(u64::decode(&[2, 1, 0, 0, 0, 0, 0, 0]), Ok(258));
    assert_eq!(u64::decode(&[255; 8]), Ok(u64::MAX));
}

#[test]
fn u64_of_another_length_does_not_decode() {
    assert_eq!(u64::decode(&[0; 4]), Err(DecodeFailure));
    assert_eq!(u64::decode(&[]), Err(DecodeFailure));
}

#[test]
fn string_is_its_utf8_bytes() {
    assert_eq!("hi".to_string().encode(), Ok(vec![b'h', b'i']));
    assert_eq!("h\u{e9}".to_string().encode(), Ok(vec![b'h', 0xc3, 0xa9]));
    assert_eq!(String::new().encode(), Ok(vec![]));
    assert_eq!(String::decode(&[b'h', 0xc3, 0xa9]), Ok("h\u{e9}".to_string()));
    assert_eq!(String::decode(&[]), Ok(String::new()));
}

#[test]
fn string_of_invalid_utf8_does_not_decode() {
    assert_eq!(String::decode(&[0xff]), Err(DecodeFailure));
    assert_eq!(String::decode(&[0xc3]), Err(DecodeFailure));
    assert_eq!(String::decode(&[0xc0, 0x80]), Err(DecodeFailure));
    assert_eq!(String::decode(&[0xed, 0xa0, 0x80]), Err(DecodeFailure));
}

#[test]
fn decoding_undoes_encoding() {
    for v in [0i32, 1, -1, 5, 255, 256, -256, 65_536, i32::MIN, i32::MAX] {
        assert_eq!(i32::decode(&v.encode().unwrap()), Ok(v));
    }
    for v in [0i64, 1, -1, 1 << 40, -(1 << 40), i64::MIN, i64::MAX] {
        assert_eq!(i64::decode(&v.encode().unwrap()), Ok(v));
    }
    for v in [0u32, 1, 255, 256, 0x8000_0000, u32::MAX] {
        assert_eq!(u32::decode(&v.encode().unwrap()), Ok(v));
    }
    for v in [0u64, 1, 1 << 32, 1 << 63, u64::MAX] {
        assert_eq!(u64::decode(&v.encode().unwrap()), Ok(v));
    }
    for v in ["", "add", "h\u{e9}llo", "\u{10ffff}\u{0}x"] {
        assert_eq!(String::decode(&v.to_string().encode().unwrap()), Ok(v.to_string()));
    }
}
