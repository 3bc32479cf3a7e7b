use trigger_vm::memory::{Memory, VmError};

#[test]
fn new_memory_is_zero() {
    let m = Memory::new(8);
    assert_eq!(m.capacity(), 8);
    for a in 0..8u64 {
        assert_eq!(m.load_word(a), Ok(0));
    }
}

#[test]
fn load_word_out_of_range() {
    let m = Memory::new(8);
    assert_eq!(m.load_word(8), Err(VmError::AddressOutOfRange));
    assert_eq!(m.load_word(u64::MAX), Err(VmError::AddressOutOfRange));
}

#[test]
fn double_round_trip() {
    let mut m = Memory::new(8);
    let v: u64 = 0x0123_4567_89AB_CDEF;
    assert_eq!(m.store_double(2, v), Ok(()));
    assert_eq!(m.load_double(2), Ok(v));
    assert_eq!(m.store_double(3, u64::MAX), Ok(()));
    assert_eq!(m.load_double(3), Ok(u64::MAX));
    assert_eq!(m.load_double(2), Ok(v));
}

#[test]
fn double_word_layout_is_high_then_low() {
    let mut m = Memory::new(4);
    assert_eq!(m.store_double(1, 0x1111_2222_3333_4444), Ok(()));
    assert_eq!(m.load_word(2), Ok(0x1111_2222));
    assert_eq!(m.load_word(3), Ok(0x3333_4444));
    assert_eq!(m.load_word(0), Ok(0));
}

#[test]
fn double_out_of_range() {
    let mut m = Memory::new(5);
    assert_eq!(m.load_double(2), Err(VmError::AddressOutOfRange));
    assert_eq!(m.store_double(2, 7), Err(VmError::AddressOutOfRange));
    assert_eq!(m.load_word(4), Ok(0));
    assert_eq!(m.store_double(u64::MAX, 7), Err(VmError::AddressOutOfRange));
}

#[test]
fn opcode_halves() {
    let mut m = Memory::new(4);
    m.bulk_load(&[0x80, 0x05, 0x00, 0x1B], 1);
    assert_eq!(m.load_opcode(1), Ok((0x8005, 0x001B)));
    assert_eq!(m.load_opcode(0), Ok((0, 0)));
    assert_eq!(m.load_opcode(4), Err(VmError::AddressOutOfRange));
}

#[test]
fn bulk_load_is_big_endian() {
    let mut m = Memory::new(4);
    m.bulk_load(&[0x12, 0x34, 0x56, 0x78, 0xFF, 0x00, 0x00, 0x01], 0);
    assert_eq!(m.load_word(0), Ok(0x1234_5678));
    assert_eq!(m.load_word(1), Ok(0xFF00_0001));
    assert_eq!(m.load_word(2), Ok(0));
}

#[test]
fn bulk_load_drops_partial_quartet() {
    let mut m = Memory::new(4);
    m.bulk_load(&[0, 0, 0, 9, 1, 2, 3], 1);
    assert_eq!(m.load_word(1), Ok(9));
    assert_eq!(m.load_word(2), Ok(0));
}

#[test]
fn bulk_load_stops_at_capacity() {
    let mut m = Memory::new(3);
    m.bulk_load(&[0, 0, 0, 1, 0, 0, 0, 2, 0, 0, 0, 3], 1);
    assert_eq!(m.load_word(0), Ok(0));
    assert_eq!(m.load_word(1), Ok(1));
    assert_eq!(m.load_word(2), Ok(2));
    let mut n = Memory::new(2);
    n.bulk_load(&[0, 0, 0, 1], 5);
    assert_eq!(n.load_word(0), Ok(0));
    assert_eq!(n.load_word(1), Ok(0));
}

#[test]
fn bulk_load_keeps_other_words() {
    let mut m = Memory::new(4);
    m.bulk_load(&[0, 0, 0, 7, 0, 0, 0, 7, 0, 0, 0, 7, 0, 0, 0, 7], 0);
    m.bulk_load(&[0, 0, 0, 1], 2);
    assert_eq!(m.load_word(1), Ok(7));
    assert_eq!(m.load_word(2), Ok(1));
    assert_eq!(m.load_word(3), Ok(7));
}
