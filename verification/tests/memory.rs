use ckb_vm::error::OutOfBoundKind;
use ckb_vm::memory::{round_page_down, round_page_up};
use ckb_vm::{Error, FlatMemory, Memory};

#[test]
fn test_store_then_load_each_width() {
    let mut m = FlatMemory::<u64, 32>::new();
    m.store64(&0, &0x1122_3344_5566_7788).unwrap();
    assert_eq!(m.load64(&0), Ok(0x1122_3344_5566_7788));
    assert_eq!(m.load32(&0), Ok(0x5566_7788));
    assert_eq!(m.load16(&2), Ok(0x5566));
    assert_eq!(m.load8(&7), Ok(0x11));
    m.store8(&8, &0x1ff).unwrap();
    assert_eq!(m.load8(&8), Ok(0xff));
    assert_eq!(m.load8(&9), Ok(0));
    m.store16(&10, &0xabcd).unwrap();
    m.store32(&12, &0xdead_beef).unwrap();
    assert_eq!(m.load64(&8), Ok(0xdead_beef_abcd_00ff));
    assert_eq!(m.execute_load16(10), Ok(0xabcd));
    assert_eq!(m.execute_load32(12), Ok(0xdead_beef));
}

#[test]
fn test_out_of_bound_access_fails() {
    let mut m = FlatMemory::<u64, 16>::new();
    assert_eq!(m.load64(&9), Err(Error::MemOutOfBound(9, OutOfBoundKind::Memory)));
    assert_eq!(m.load8(&16), Err(Error::MemOutOfBound(16, OutOfBoundKind::Memory)));
    assert_eq!(m.store32(&13, &1), Err(Error::MemOutOfBound(13, OutOfBoundKind::Memory)));
    assert_eq!(m.load64(&u64::MAX), Err(Error::MemOutOfBound(u64::MAX, OutOfBoundKind::Memory)));
    assert_eq!(m.load64(&8), Ok(0));
}

#[test]
fn test_thirty_two_bit_registers() {
    let mut m = FlatMemory::<u32, 16>::new();
    m.store32(&4, &0x8000_0001).unwrap();
    assert_eq!(m.load32(&4), Ok(0x8000_0001));
    assert_eq!(m.load16(&6), Ok(0x8000));
}

#[test]
fn test_load_reservation() {
    let mut m = FlatMemory::<u64, 16>::new();
    assert_eq!(*m.lr(), u64::MAX);
    m.set_lr(&8);
    assert_eq!(*m.lr(), 8);
}

#[test]
fn test_page_rounding() {
    assert_eq!(round_page_down(0x1fff), 0x1000);
    assert_eq!(round_page_down(0x2000), 0x2000);
    assert_eq!(round_page_up(0x1001), 0x2000);
    assert_eq!(round_page_up(0x1000), 0x1000);
    assert_eq!(round_page_up(u64::MAX), 0);
}
