use wasix_core::dl::DlState;
use wasix_core::module::{GlobalValue, InstanceInfo};

fn registry_with(globals: Vec<(Vec<u8>, GlobalValue)>) -> (DlState, u32) {
    let mut dl = DlState::new();
    let info = InstanceInfo {
        globals,
        has_start: false,
        has_initialize: false,
        has_ctors: false,
        has_dtors: false,
    };
    let h = dl.add_module(info, 0).unwrap();
    (dl, h)
}

#[test]
fn eight_byte_read_at_aligned_offset() {
    // g = 64; memory[64..72] holds 0x0011223344556677 little-endian
    let mut mem = vec![0u8; 128];
    mem[64..72].copy_from_slice(&[0x77, 0x66, 0x55, 0x44, 0x33, 0x22, 0x11, 0x00]);
    let (dl, h) = registry_with(vec![(b"g".to_vec(), GlobalValue::I32 { bits: 64 })]);
    assert_eq!(dl.get_symbol(h, b"g", &mem), Some(0x0011223344556677));
}

#[test]
fn four_byte_read_when_not_eight_aligned() {
    // offset 4 is 4-aligned but not 8-aligned: a 4-byte read
    let mem: Vec<u8> = vec![0, 0, 0, 0, 0xDD, 0xCC, 0xBB, 0xAA, 0xFF];
    let (dl, h) = registry_with(vec![(b"g".to_vec(), GlobalValue::I32 { bits: 4 })]);
    assert_eq!(dl.get_symbol(h, b"g", &mem), Some(0xAABBCCDD));
}

#[test]
fn four_byte_read_when_eight_runs_out_of_bounds() {
    // offset 16 is 8-aligned but only 4 bytes remain: a 4-byte read
    let mut mem = vec![0u8; 20];
    mem[16..20].copy_from_slice(&[0x01, 0x02, 0x03, 0x04]);
    let (dl, h) = registry_with(vec![(b"g".to_vec(), GlobalValue::I32 { bits: 16 })]);
    assert_eq!(dl.get_symbol(h, b"g", &mem), Some(0x04030201));
}

#[test]
fn single_byte_read_when_unaligned() {
    let mem: Vec<u8> = vec![9, 8, 7, 0x5A, 6, 5, 4, 3];
    let (dl, h) = registry_with(vec![(b"g".to_vec(), GlobalValue::I32 { bits: 3 })]);
    assert_eq!(dl.get_symbol(h, b"g", &mem), Some(0x5A));
}

#[test]
fn single_byte_read_at_last_unaligned_byte() {
    // offset 6: not 8- or 4-aligned in bounds (6 % 4 == 2), one byte left
    let mem: Vec<u8> = vec![0, 1, 2, 3, 4, 5, 0xEE];
    let (dl, h) = registry_with(vec![(b"g".to_vec(), GlobalValue::I64 { bits: 6 })]);
    assert_eq!(dl.get_symbol(h, b"g", &mem), Some(0xEE));
}

#[test]
fn offset_out_of_bounds_resolves_nothing() {
    let mem: Vec<u8> = vec![1, 2, 3, 4];
    let (dl, h) = registry_with(vec![(b"g".to_vec(), GlobalValue::I32 { bits: 100 })]);
    assert_eq!(dl.get_symbol(h, b"g", &mem), None);
}

#[test]
fn non_integer_global_resolves_nothing() {
    let mem: Vec<u8> = vec![0u8; 16];
    let (dl, h) = registry_with(vec![(b"g".to_vec(), GlobalValue::Other)]);
    assert_eq!(dl.get_symbol(h, b"g", &mem), None);
}

#[test]
fn unknown_symbol_and_unknown_handle_resolve_nothing() {
    let mem: Vec<u8> = vec![0u8; 16];
    let (dl, h) = registry_with(vec![(b"g".to_vec(), GlobalValue::I32 { bits: 0 })]);
    assert_eq!(dl.get_symbol(h, b"other", &mem), None);
    assert_eq!(dl.get_symbol(h + 1, b"g", &mem), None);
    assert_eq!(dl.get_symbol(0, b"g", &mem), None);
}

#[test]
fn first_of_two_same_named_globals_wins() {
    let mem: Vec<u8> = vec![0x21, 0x42, 0, 0, 0, 0, 0, 0, 0];
    let (dl, h) = registry_with(vec![
        (b"g".to_vec(), GlobalValue::I32 { bits: 1 }),
        (b"g".to_vec(), GlobalValue::I32 { bits: 0 }),
    ]);
    // offset 1 is unaligned: single byte at index 1
    assert_eq!(dl.get_symbol(h, b"g", &mem), Some(0x42));
}

#[test]
fn i64_global_offset_is_used() {
    let mut mem = vec![0u8; 24];
    mem[8..16].copy_from_slice(&[1, 0, 0, 0, 0, 0, 0, 0x80]);
    let (dl, h) = registry_with(vec![(b"big".to_vec(), GlobalValue::I64 { bits: 8 })]);
    assert_eq!(dl.get_symbol(h, b"big", &mem), Some(0x8000000000000001));
}
