use palmtop_preimage::hash::sha3_256;
use palmtop_preimage::stream::{ByteSink, ByteSource, Cursor};
use palmtop_preimage::wire::{decode_u32_be, decode_u64_be, encode_u32_be, encode_u64_be};

#[test]
fn length_123_encodes_in_both_widths() {
    assert_eq!(encode_u64_be(123), [0, 0, 0, 0, 0, 0, 0, 123]);
    assert_eq!(encode_u32_be(123), [0, 0, 0, 123]);
}

#[test]
fn encodings_are_big_endian() {
    assert_eq!(encode_u64_be(0x0102_0304_0506_0708), [1, 2, 3, 4, 5, 6, 7, 8]);
    assert_eq!(encode_u32_be(0x0a0b_0c0d), [10, 11, 12, 13]);
    assert_eq!(encode_u64_be(u64::MAX), [255; 8]);
    assert_eq!(encode_u32_be(256), [0, 0, 1, 0]);
}

#[test]
fn decodings_invert_encodings() {
    for n in [0u64, 1, 123, 256, 0xdead_beef, u64::MAX] {
        assert_eq!(decode_u64_be(&encode_u64_be(n)), n);
        assert_eq!(n.to_be_bytes(), encode_u64_be(n));
    }
    for n in [0u32, 1, 123, 65_536, u32::MAX] {
        assert_eq!(decode_u32_be(&encode_u32_be(n)), n);
    }
    assert_eq!(decode_u64_be(&[0, 0, 0, 0, 0, 0, 1, 0, 99]), 256);
}

#[test]
fn sha3_256_of_known_inputs() {
    let empty = sha3_256(b"");
    assert_eq!(empty[..4], [0xa7, 0xff, 0xc6, 0xf8]);
    assert_eq!(empty[28..], [0x80, 0xf8, 0x43, 0x4a]);
    let abc = sha3_256(b"abc");
    assert_eq!(abc[..4], [0x3a, 0x98, 0x5d, 0xa7]);
    assert_eq!(abc[28..], [0x11, 0x43, 0x15, 0x32]);
}

#[test]
fn cursor_reads_in_order_and_stops_at_the_end() {
    let mut c = Cursor::new(vec![1, 2, 3]);
    assert_eq!(c.read_exact(2), Ok(vec![1, 2]));
    assert_eq!(c.position(), 2);
    assert!(c.read_exact(2).is_err());
    assert_eq!(c.read_exact(1), Ok(vec![3]));
    assert_eq!(c.read_exact(0), Ok(vec![]));
}

#[test]
fn cursor_writes_over_and_past_its_contents() {
    let mut c = Cursor::new(vec![9, 9, 9]);
    c.write_all(&[1, 2]).unwrap();
    assert_eq!(c.position(), 2);
    c.write_all(&[3, 4]).unwrap();
    c.flush().unwrap();
    assert_eq!(c.position(), 4);
    assert_eq!(c.into_inner(), vec![1, 2, 3, 4]);
}
