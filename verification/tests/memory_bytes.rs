use wasix_core::bytes::{bytes_eq, clone_bytes, read_le, write_le};
use wasix_core::memory::{read_bytes, write_u32, write_u64};
use wasix_core::utf8::check_utf8;

#[test]
fn little_endian_read_matches_known_value() {
    let mem: Vec<u8> = vec![0x78, 0x56, 0x34, 0x12, 0xFF];
    assert_eq!(read_le(&mem, 0, 4), 0x12345678);
    assert_eq!(read_le(&mem, 1, 2), 0x3456);
    assert_eq!(read_le(&mem, 4, 1), 0xFF);
    assert_eq!(read_le(&mem, 2, 0), 0);
}

#[test]
fn little_endian_write_then_read_round_trips() {
    let mut mem = vec![0u8; 16];
    write_le(&mut mem, 3, 8, 0x1122334455667788);
    assert_eq!(read_le(&mem, 3, 8), 0x1122334455667788);
    assert_eq!(mem[0], 0);
    assert_eq!(mem[1], 0);
    assert_eq!(mem[2], 0);
    assert_eq!(mem[11], 0);
    assert_eq!(mem[3], 0x88);
    assert_eq!(mem[10], 0x11);
}

#[test]
fn guest_writes_are_bounds_checked() {
    let mut mem = vec![7u8; 8];
    let before = mem.clone();
    assert!(!write_u32(&mut mem, 5, 1));
    assert!(!write_u64(&mut mem, 1, 1));
    assert_eq!(mem, before);
    assert!(write_u32(&mut mem, 4, 0xAABBCCDD));
    assert_eq!(&mem[4..8], &[0xDD, 0xCC, 0xBB, 0xAA]);
    assert_eq!(&mem[0..4], &[7, 7, 7, 7]);
    assert!(write_u64(&mut mem, 0, 0x0102030405060708));
    assert_eq!(mem, vec![8, 7, 6, 5, 4, 3, 2, 1]);
}

#[test]
fn guest_reads_are_bounds_checked() {
    let mem: Vec<u8> = vec![1, 2, 3, 4];
    assert_eq!(read_bytes(&mem, 1, 2), Some(vec![2, 3]));
    assert_eq!(read_bytes(&mem, 0, 4), Some(vec![1, 2, 3, 4]));
    assert_eq!(read_bytes(&mem, 4, 0), Some(Vec::new()));
    assert_eq!(read_bytes(&mem, 3, 2), None);
    assert_eq!(read_bytes(&mem, 5, 0), None);
    assert_eq!(read_bytes(&mem, u64::MAX, 1), None);
}

#[test]
fn byte_equality_and_cloning() {
    assert!(bytes_eq(b"abc", b"abc"));
    assert!(!bytes_eq(b"abc", b"abd"));
    assert!(!bytes_eq(b"abc", b"ab"));
    assert!(bytes_eq(b"", b""));
    let v = vec![1u8, 2, 3];
    assert_eq!(clone_bytes(&v), v);
}

#[test]
fn utf8_accepts_well_formed_sequences() {
    assert!(check_utf8(&b"".to_vec()));
    assert!(check_utf8(&b"/lib/side.wasm".to_vec()));
    // two-, three- and four-byte scalars
    assert!(check_utf8(&vec![0xC3, 0xA9]));
    assert!(check_utf8(&vec![0xE2, 0x82, 0xAC]));
    assert!(check_utf8(&vec![0xF0, 0x9F, 0x98, 0x80]));
    assert!(check_utf8(&vec![0xEF, 0xBF, 0xBD]));
    assert!(check_utf8(&vec![0xF4, 0x8F, 0xBF, 0xBF]));
}

#[test]
fn utf8_rejects_malformed_sequences() {
    // lone continuation, truncation, overlong, surrogate, above U+10FFFF
    assert!(!check_utf8(&vec![0x80]));
    assert!(!check_utf8(&vec![0xC3]));
    assert!(!check_utf8(&vec![0xC0, 0x80]));
    assert!(!check_utf8(&vec![0xC1, 0xBF]));
    assert!(!check_utf8(&vec![0xE0, 0x80, 0x80]));
    assert!(!check_utf8(&vec![0xED, 0xA0, 0x80]));
    assert!(!check_utf8(&vec![0xF4, 0x90, 0x80, 0x80]));
    assert!(!check_utf8(&vec![0xF5, 0x80, 0x80, 0x80]));
    assert!(!check_utf8(&vec![0xFF]));
    assert!(!check_utf8(&vec![0x61, 0xE2, 0x82]));
}
