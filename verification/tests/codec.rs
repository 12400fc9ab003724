use sdsmart::errors::ScsiError;
use sdsmart::read10::{parse_read10, Read10Cdb};

#[test]
fn new_block_has_opcode_and_zeroes() {
    let c = Read10Cdb::new();
    let b = c.as_bytes();
    assert_eq!(b[0], 0x28);
    for i in 1..10 {
        assert_eq!(b[i], 0x00);
    }
}

#[test]
fn round_trip_lba_and_transfer_length() {
    let mut c = Read10Cdb::new();
    c.set_lba(123456);
    c.set_transfer_length(7);
    let parsed = parse_read10(c.as_bytes(), 512, 7 * 512).unwrap();
    assert_eq!(parsed.lba, 123456);
    assert_eq!(parsed.transfer_blocks, 7);
    assert_eq!(parsed.expected_bytes, 7 * 512);
}

#[test]
fn round_trip_extreme_values() {
    let mut c = Read10Cdb::new();
    c.set_lba(u32::MAX);
    c.set_transfer_length(1);
    let parsed = parse_read10(c.as_bytes(), 512, 512).unwrap();
    assert_eq!(parsed.lba, u32::MAX as u64);
    assert_eq!(parsed.transfer_blocks, 1);
}

#[test]
fn lba_is_big_endian() {
    let mut c = Read10Cdb::new();
    c.set_lba(0x01020304);
    let b = c.as_bytes();
    assert_eq!(b[2], 0x01);
    assert_eq!(b[3], 0x02);
    assert_eq!(b[4], 0x03);
    assert_eq!(b[5], 0x04);
}

#[test]
fn transfer_length_is_big_endian() {
    let mut c = Read10Cdb::new();
    c.set_transfer_length(0x0102);
    let b = c.as_bytes();
    assert_eq!(b[7], 0x01);
    assert_eq!(b[8], 0x02);
    assert_eq!(b[6], 0x00);
    assert_eq!(b[9], 0x00);
}

#[test]
fn wrong_opcode_is_rejected() {
    let buf = [0x29u8, 0, 0, 0, 0, 0, 0, 0, 1, 0];
    assert_eq!(
        parse_read10(&buf, 512, 4096).unwrap_err(),
        ScsiError::UnsupportedCommand
    );
}

#[test]
fn short_buffer_is_rejected() {
    let buf = [0x28u8, 0, 0, 0, 0, 0, 0, 0, 0];
    assert_eq!(
        parse_read10(&buf, 512, 4096).unwrap_err(),
        ScsiError::UnsupportedCommand
    );
}

#[test]
fn expected_bytes_is_blocks_times_block_size() {
    let mut c = Read10Cdb::new();
    c.set_transfer_length(1);
    let parsed = parse_read10(c.as_bytes(), 512, 512).unwrap();
    assert_eq!(parsed.expected_bytes, 512);

    c.set_transfer_length(3);
    let parsed = parse_read10(c.as_bytes(), 4096, 3 * 4096).unwrap();
    assert_eq!(parsed.expected_bytes, 3 * 4096);
}

#[test]
fn undersized_data_buffer_is_rejected() {
    let mut c = Read10Cdb::new();
    c.set_transfer_length(1);
    assert_eq!(
        parse_read10(c.as_bytes(), 512, 256).unwrap_err(),
        ScsiError::BufferTooSmall
    );
}

#[test]
fn flag_setters_are_independent() {
    let mut c = Read10Cdb::new();
    c.set_rdprotect(5);
    c.set_dpo(true);
    c.set_fua(true);
    let b = c.as_bytes();
    assert_eq!(b[1], 0x05 | 0x10 | 0x08);
    assert_eq!(b[1], 0x1d);
    assert_eq!(b[0], 0x28);
    for i in 2..10 {
        assert_eq!(b[i], 0x00);
    }
}

#[test]
fn flags_can_be_cleared_again() {
    let mut c = Read10Cdb::new();
    c.set_dpo(true);
    c.set_fua(true);
    c.set_fua_nv(true);
    assert_eq!(c.as_bytes()[1], 0x10 | 0x08 | 0x02);
    c.set_dpo(false);
    assert_eq!(c.as_bytes()[1], 0x08 | 0x02);
    c.set_fua(false);
    c.set_fua_nv(false);
    assert_eq!(c.as_bytes()[1], 0x00);
}

#[test]
fn lun_legacy_sits_in_high_bits() {
    let mut c = Read10Cdb::new();
    c.set_rdprotect(7);
    c.set_lun_legacy(1);
    assert_eq!(c.as_bytes()[1], 0x20 | 0x07);
    c.set_lun_legacy(0);
    assert_eq!(c.as_bytes()[1], 0x07);
}

#[test]
fn setters_mask_to_field_width() {
    let mut c = Read10Cdb::new();
    c.set_group_number(0xff);
    assert_eq!(c.as_bytes()[6], 0x3f);
    c.set_lun_legacy(0xff);
    assert_eq!(c.as_bytes()[1] >> 5, 0x07);
    c.set_rdprotect(0xff);
    assert_eq!(c.as_bytes()[1] & 0x07, 0x07);
}

#[test]
fn control_byte_is_stored_verbatim() {
    let mut c = Read10Cdb::new();
    c.set_control(0xa5);
    assert_eq!(c.as_bytes()[9], 0xa5);
}

#[test]
fn parse_reads_fields_from_raw_buffer() {
    let buf = [0x28u8, 0x20, 0x00, 0x00, 0x73, 0x74, 0x00, 0x00, 0x01, 0x00];
    let parsed = parse_read10(&buf, 512, 512).unwrap();
    assert_eq!(parsed.lba, 0x7374);
    assert_eq!(parsed.transfer_blocks, 1);
    assert_eq!(parsed.expected_bytes, 512);
}

#[test]
fn saturated_transfer_size_fails_buffer_check() {
    let mut c = Read10Cdb::new();
    c.set_transfer_length(0xffff);
    let err = parse_read10(c.as_bytes(), u64::MAX, 4096).unwrap_err();
    assert!(err == ScsiError::BufferTooSmall || err == ScsiError::SizeOverflow);
}
