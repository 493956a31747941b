use ckb_vm::instructions::v_execute_macros::{is_aligned, is_overlapped, is_overlapped_widen};

#[test]
fn test_is_aligned() {
    assert!(is_aligned(8, 4));
    assert!(!is_aligned(6, 4));
    assert!(is_aligned(7, 0));
    assert!(is_aligned(7, 1));
}

#[test]
fn test_is_overlapped() {
    assert!(is_overlapped(0, 4, 2, 4));
    assert!(!is_overlapped(0, 4, 4, 4));
    assert!(is_overlapped(4, 4, 0, 5));
    // Sizes of zero count as one.
    assert!(is_overlapped(3, 0, 3, 0));
    assert!(!is_overlapped(3, 0, 4, 0));
}

#[test]
fn test_is_overlapped_widen() {
    // The source in the upper half of the destination is allowed.
    assert!(!is_overlapped_widen(0, 4, 2, 2));
    // Overlap of the lower half is not.
    assert!(is_overlapped_widen(0, 4, 0, 2));
    assert!(is_overlapped_widen(2, 4, 0, 4));
    assert!(!is_overlapped_widen(0, 2, 4, 2));
}
