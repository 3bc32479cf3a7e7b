use trigger_vm::memory::{Memory, VmError};
use trigger_vm::registers::{divide, modulo, on_read, on_write, Key, Output, ReadTrigger, Registers, WriteTrigger};

fn fresh() -> (Registers, Memory) {
    (Registers::new(), Memory::new(16))
}

#[test]
fn sum_after_writes_in_either_order() {
    let (mut r, mut m) = fresh();
    assert_eq!(r.write(0, 40, &mut m), Ok(Output::Silent));
    assert_eq!(r.write(1, 2, &mut m), Ok(Output::Silent));
    assert_eq!(r.get(2), 42);
    let (mut s, mut n) = fresh();
    s.write(1, 2, &mut n).unwrap();
    s.write(0, 40, &mut n).unwrap();
    assert_eq!(s.get(2), 42);
}

#[test]
fn sum_negative_and_wrapping() {
    let (mut r, mut m) = fresh();
    r.write(0, -7, &mut m).unwrap();
    r.write(1, 3, &mut m).unwrap();
    assert_eq!(r.get(2), -4);
    r.write(0, i64::MAX, &mut m).unwrap();
    r.write(1, 1, &mut m).unwrap();
    assert_eq!(r.get(2), i64::MIN);
}

#[test]
fn difference_and_product() {
    let (mut r, mut m) = fresh();
    r.write(3, 10, &mut m).unwrap();
    r.write(4, 25, &mut m).unwrap();
    assert_eq!(r.get(5), -15);
    r.write(6, -6, &mut m).unwrap();
    r.write(7, 7, &mut m).unwrap();
    assert_eq!(r.get(8), -42);
    r.write(6, i64::MIN, &mut m).unwrap();
    r.write(7, -1, &mut m).unwrap();
    assert_eq!(r.get(8), i64::MIN);
}

#[test]
fn division_truncates_toward_zero() {
    let (mut r, mut m) = fresh();
    r.write(9, -7, &mut m).unwrap();
    r.write(10, 2, &mut m).unwrap();
    assert_eq!(r.get(11), -3);
    assert_eq!(r.get(12), -1);
    r.write(9, 7, &mut m).unwrap();
    r.write(10, -2, &mut m).unwrap();
    assert_eq!(r.get(11), -3);
    assert_eq!(r.get(12), 1);
    r.write(9, 17, &mut m).unwrap();
    r.write(10, 5, &mut m).unwrap();
    assert_eq!(r.get(11), 3);
    assert_eq!(r.get(12), 2);
}

#[test]
fn division_by_zero_gives_zeros() {
    for a in [0i64, 1, -1, 12345, i64::MAX, i64::MIN] {
        let (mut r, mut m) = fresh();
        r.write(9, 100, &mut m).unwrap();
        r.write(10, 3, &mut m).unwrap();
        assert_eq!(r.write(9, a, &mut m), Ok(Output::Silent));
        assert_eq!(r.write(10, 0, &mut m), Ok(Output::Silent));
        assert_eq!(r.get(11), 0);
        assert_eq!(r.get(12), 0);
    }
}

#[test]
fn division_of_minimum_by_minus_one_wraps() {
    assert_eq!(divide(i64::MIN, -1), i64::MIN);
    assert_eq!(modulo(i64::MIN, -1), 0);
    assert_eq!(divide(i64::MIN, 1), i64::MIN);
    assert_eq!(divide(5, 0), 0);
    assert_eq!(modulo(5, 0), 0);
}

#[test]
fn less_than() {
    let (mut r, mut m) = fresh();
    r.write(13, -5, &mut m).unwrap();
    r.write(14, 3, &mut m).unwrap();
    assert_eq!(r.get(15), 1);
    r.write(13, 3, &mut m).unwrap();
    assert_eq!(r.get(15), 0);
    r.write(13, 4, &mut m).unwrap();
    assert_eq!(r.get(15), 0);
}

#[test]
fn select_by_condition() {
    let (mut r, mut m) = fresh();
    r.write(21, 111, &mut m).unwrap();
    r.write(22, 222, &mut m).unwrap();
    r.write(20, 0, &mut m).unwrap();
    assert_eq!(r.get(23), 111);
    r.write(20, 5, &mut m).unwrap();
    assert_eq!(r.get(23), 222);
    r.write(20, -1, &mut m).unwrap();
    assert_eq!(r.get(23), 222);
    r.write(20, 0, &mut m).unwrap();
    r.write(21, 7, &mut m).unwrap();
    assert_eq!(r.get(23), 7);
}

#[test]
fn console_output() {
    let (mut r, mut m) = fresh();
    assert_eq!(r.write(16, 65, &mut m), Ok(Output::Emit { code: 65, carriage_return: false }));
    assert_eq!(r.write(16, 10, &mut m), Ok(Output::Emit { code: 10, carriage_return: true }));
    assert_eq!(r.write(16, 256, &mut m), Ok(Output::ClearScreen));
    assert_eq!(r.get(16), 256);
}

#[test]
fn console_input() {
    let (mut r, m) = fresh();
    assert_eq!(r.read(16, &m, Some(Key::Printable('A'))), Ok(65));
    assert_eq!(r.get(16), 65);
    assert_eq!(r.read(16, &m, Some(Key::Printable('é'))), Ok(0xE9));
    assert_eq!(r.read(16, &m, Some(Key::Special)), Ok(-1));
    assert_eq!(r.read(16, &m, None), Ok(-1));
}

#[test]
fn newline_constant_and_scratch() {
    let (mut r, mut m) = fresh();
    assert_eq!(r.read(19, &m, None), Ok(10));
    assert_eq!(r.write(18, 99, &mut m), Ok(Output::Silent));
    assert_eq!(r.get(18), 99);
    assert_eq!(r.read(18, &m, None), Ok(99));
    assert_eq!(r.get(19), 10);
}

#[test]
fn memory_port_store_and_load() {
    let (mut r, mut m) = fresh();
    r.write(26, 3, &mut m).unwrap();
    assert_eq!(r.write(24, -2, &mut m), Ok(Output::Silent));
    assert_eq!(m.load_double(3), Ok(u64::MAX - 1));
    assert_eq!(m.load_word(6), Ok(0xFFFF_FFFF));
    assert_eq!(m.load_word(7), Ok(0xFFFF_FFFE));
    // Writing the address register stores the value register there too.
    m.store_double(5, 0x0000_0001_0000_0002).unwrap();
    r.write(26, 5, &mut m).unwrap();
    assert_eq!(m.load_double(3), Ok(u64::MAX - 1));
    assert_eq!(m.load_double(5), Ok(u64::MAX - 1));
}

#[test]
fn memory_port_load_reads_address_register() {
    let (mut r, mut m) = fresh();
    r.write(26, 2, &mut m).unwrap();
    m.store_double(2, 0x0000_0001_0000_0002).unwrap();
    assert_eq!(r.read(24, &m, None), Ok(0x0000_0001_0000_0002));
    assert_eq!(r.get(24), 0x0000_0001_0000_0002);
}

#[test]
fn memory_port_out_of_range() {
    let (mut r, mut m) = fresh();
    assert_eq!(r.write(26, 8, &mut m), Err(VmError::AddressOutOfRange));
    assert_eq!(r.read(24, &m, None), Err(VmError::AddressOutOfRange));
    assert_eq!(r.write(26, -1, &mut m), Err(VmError::AddressOutOfRange));
    assert_eq!(r.read(24, &m, None), Err(VmError::AddressOutOfRange));
}

#[test]
fn register_out_of_range() {
    let (mut r, mut m) = fresh();
    assert_eq!(r.write(36, 1, &mut m), Err(VmError::RegisterOutOfRange));
    assert_eq!(r.read(36, &m, None), Err(VmError::RegisterOutOfRange));
    assert_eq!(r.read(35, &m, None), Ok(0));
}

#[test]
fn trigger_table() {
    assert_eq!(on_write(0), Some(WriteTrigger::Sum));
    assert_eq!(on_write(4), Some(WriteTrigger::Difference));
    assert_eq!(on_write(7), Some(WriteTrigger::Product));
    assert_eq!(on_write(9), Some(WriteTrigger::Division));
    assert_eq!(on_write(14), Some(WriteTrigger::LessThan));
    assert_eq!(on_write(16), Some(WriteTrigger::ConsoleOut));
    assert_eq!(on_write(22), Some(WriteTrigger::Select));
    assert_eq!(on_write(26), Some(WriteTrigger::MemoryStore));
    assert_eq!(on_write(2), None);
    assert_eq!(on_write(27), None);
    assert_eq!(on_read(16), Some(ReadTrigger::ConsoleIn));
    assert_eq!(on_read(19), Some(ReadTrigger::NewlineConstant));
    assert_eq!(on_read(24), Some(ReadTrigger::MemoryLoad));
    assert_eq!(on_read(27), None);
}
