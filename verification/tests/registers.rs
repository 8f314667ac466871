use solix_monitor::registers::{int32, register, uint32};

#[test]
fn decodes_big_endian_signed_values() {
    assert_eq!(int32(&[0x0000, 0x012C], 100, 100), Some(300));
    assert_eq!(int32(&[0xFFFF, 0xFED4], 100, 100), Some(-300));
}

#[test]
fn register_inside_block() {
    assert_eq!(register(&[7, 8, 9], 100, 100), Some(7));
    assert_eq!(register(&[7, 8, 9], 100, 102), Some(9));
}

#[test]
fn register_outside_block() {
    assert_eq!(register(&[7, 8, 9], 100, 99), None);
    assert_eq!(register(&[7, 8, 9], 100, 103), None);
    assert_eq!(register(&[], 0, 0), None);
}

#[test]
fn uint32_combines_high_and_low() {
    assert_eq!(uint32(&[0x0001, 0x0002], 10, 10), Some(0x0001_0002));
    assert_eq!(uint32(&[0xFFFF, 0xFED4], 100, 100), Some(0xFFFF_FED4));
    assert_eq!(uint32(&[0, 0x1234, 0xABCD], 5, 6), Some(0x1234_ABCD));
}

#[test]
fn thirty_two_bit_values_need_both_registers() {
    assert_eq!(int32(&[0x0000, 0x012C], 100, 101), None);
    assert_eq!(uint32(&[0x0000, 0x012C], 100, 101), None);
    assert_eq!(int32(&[0x0000, 0x012C], 101, 100), None);
}

#[test]
fn signed_and_unsigned_readings_agree() {
    let block = [0x8000, 0x0000, 0x7FFF, 0xFFFF];
    assert_eq!(uint32(&block, 0, 0), Some(0x8000_0000));
    assert_eq!(int32(&block, 0, 0), Some(i32::MIN));
    assert_eq!(uint32(&block, 0, 2), Some(0x7FFF_FFFF));
    assert_eq!(int32(&block, 0, 2), Some(i32::MAX));
}

#[test]
fn last_address_without_register_reads_nothing() {
    assert_eq!(int32(&[1, 2], 0, 0xFFFF), None);
}
