use core::cmp::Ordering;
use ckb_std::since::{
    EpochNumberWithFraction, LockValue, Since, FLAGS_MASK, LOCK_BY_EPOCH_MASK,
    LOCK_BY_TIMESTAMP_MASK, LOCK_TYPE_FLAG,
};

#[test]
fn epoch_create_checks_fields() {
    assert!(EpochNumberWithFraction::create(1000, 1, 7).is_some());
    // the numerator must lie under the denominator
    assert!(EpochNumberWithFraction::create(1000, 7, 7).is_none());
    // a zero denominator is refused
    assert!(EpochNumberWithFraction::create(1000, 0, 0).is_none());
    // the epoch number must fit 24 bits
    assert!(EpochNumberWithFraction::create(1 << 24, 0, 1).is_none());
    let e = EpochNumberWithFraction::create(1000, 1, 7).unwrap();
    assert_eq!(e.number(), 1000);
    assert_eq!(e.index(), 1);
    assert_eq!(e.length(), 7);
}

#[test]
fn epoch_pack_round_trip() {
    let e = EpochNumberWithFraction::new(0x123456, 0x1122, 0x3344);
    assert_eq!(e.number(), 0x123456);
    assert_eq!(e.index(), 0x1122);
    assert_eq!(e.length(), 0x3344);
    let f = EpochNumberWithFraction::from_full_value(e.full_value());
    assert_eq!(e, f);
}

#[test]
fn epoch_zero_length_payload_is_rewritten() {
    // a packed value with length zero reads back as the fraction 0/1
    let e = EpochNumberWithFraction::from_full_value(77);
    assert_eq!(e.number(), 77);
    assert_eq!(e.index(), 0);
    assert_eq!(e.length(), 1);
}

#[test]
fn epoch_addition_example() {
    let a = EpochNumberWithFraction::create(1000, 1, 7).unwrap();
    let b = EpochNumberWithFraction::create(2000, 1, 5).unwrap();
    assert_eq!(a.checked_add(b), EpochNumberWithFraction::create(3000, 12, 35));
}

#[test]
fn epoch_addition_reduces_by_gcd() {
    // 1/2 + 1/2 carries a whole epoch and reduces to 0/1
    let h = EpochNumberWithFraction::create(0, 1, 2).unwrap();
    assert_eq!(h.checked_add(h), EpochNumberWithFraction::create(1, 0, 1));
    // 2/4 + 1/4 reduces 12/16 to 3/4
    let a = EpochNumberWithFraction::create(10, 2, 4).unwrap();
    let b = EpochNumberWithFraction::create(0, 1, 4).unwrap();
    assert_eq!(a.checked_add(b), EpochNumberWithFraction::create(10, 3, 4));
}

#[test]
fn epoch_addition_overflow_is_none() {
    // the whole-epoch field overflows: a hard failure, not a wraparound
    let a = EpochNumberWithFraction::create(0xff_ffff, 0, 1).unwrap();
    let b = EpochNumberWithFraction::create(1, 0, 1).unwrap();
    assert_eq!(a.checked_add(b), None);
    // the reduced denominator is too wide for the length field
    let c = EpochNumberWithFraction::create(0, 1, 65521).unwrap();
    let d = EpochNumberWithFraction::create(0, 1, 65519).unwrap();
    assert_eq!(c.checked_add(d), None);
}

#[test]
fn since_from_block_number_example() {
    assert_eq!(
        Since::from_block_number(0x12300, true),
        Some(Since::new(0x12300))
    );
    assert_eq!(
        Since::from_block_number(0x12300, false),
        Some(Since::new(0x8000_0000_0001_2300))
    );
    // a number that touches the flags byte is refused
    assert_eq!(Since::from_block_number(0x0100_0000_0000_0000, true), None);
}

#[test]
fn since_flags_and_metric() {
    let s = Since::from_timestamp(5000, false).unwrap();
    assert!(s.is_relative());
    assert!(!s.is_absolute());
    assert!(s.flags_is_valid());
    assert_eq!(s.flags(), LOCK_BY_TIMESTAMP_MASK | LOCK_TYPE_FLAG);
    // the reserved metric is invalid
    let bad = Since::new(0x6000_0000_0000_0001);
    assert!(!bad.flags_is_valid());
}

#[test]
fn since_extract_lock_value() {
    let b = Since::from_block_number(0x12300, true).unwrap();
    assert_eq!(
        b.extract_lock_value().unwrap().block_number(),
        Some(0x12300)
    );
    // a timestamp payload is scaled to milliseconds
    let t = Since::from_timestamp(5, true).unwrap();
    assert_eq!(t.extract_lock_value().unwrap().timestamp(), Some(5000));
    let e = EpochNumberWithFraction::create(12, 3, 9).unwrap();
    assert!(e.full_value() & FLAGS_MASK == 0);
    let s = Since::from_epoch(e, true);
    assert_eq!(s.as_u64() & LOCK_BY_EPOCH_MASK, LOCK_BY_EPOCH_MASK);
    let lv = s.extract_lock_value().unwrap();
    assert_eq!(lv.epoch(), Some(e));
    assert_eq!(lv.block_number(), None);
    // the reserved metric decodes to nothing
    assert_eq!(Since::new(0x6000_0000_0000_0001).extract_lock_value(), None);
    assert!(matches!(
        Since::from_block_number(7, true)
            .unwrap()
            .extract_lock_value(),
        Some(LockValue::BlockNumber(7))
    ));
}

#[test]
fn since_cross_metric_is_incomparable() {
    let block = Since::from_block_number(0x12300, true).unwrap();
    let stamp = Since::from_timestamp(0x12300, true).unwrap();
    assert_eq!(block.partial_cmp(&stamp), None);
    // mixed relative and absolute values are incomparable too
    let rel = Since::from_block_number(0x12300, false).unwrap();
    assert_eq!(block.partial_cmp(&rel), None);
}

#[test]
fn since_same_metric_orders_by_value() {
    let a = Since::from_block_number(100, true).unwrap();
    let b = Since::from_block_number(200, true).unwrap();
    assert_eq!(a.partial_cmp(&b), Some(Ordering::Less));
    assert_eq!(b.partial_cmp(&a), Some(Ordering::Greater));
    assert_eq!(a.partial_cmp(&a), Some(Ordering::Equal));
    let ea = Since::from_epoch(EpochNumberWithFraction::create(5, 1, 2).unwrap(), true);
    let eb = Since::from_epoch(EpochNumberWithFraction::create(5, 2, 3).unwrap(), true);
    assert_eq!(ea.partial_cmp(&eb), Some(Ordering::Less));
}

#[test]
fn epoch_equal_fractions_compare_equal() {
    // distinct representations of one rational position compare as equal
    let a = EpochNumberWithFraction::create(5, 1, 2).unwrap();
    let b = EpochNumberWithFraction::create(5, 2, 4).unwrap();
    assert_eq!(a.partial_cmp(&b), Some(Ordering::Equal));
    assert_ne!(a, b);
    let c = EpochNumberWithFraction::create(6, 0, 1).unwrap();
    assert_eq!(a.partial_cmp(&c), Some(Ordering::Less));
}

#[test]
fn relative_locks_convert_to_absolute() {
    // a relative block-number lock plus the base block number
    let rel = Since::from_block_number(100, false).unwrap();
    let abs = rel.to_absolute_value(1000, 0, 0).unwrap();
    assert_eq!(abs, Since::from_block_number(1100, true).unwrap());
    // overflow of the base is a failure
    let big = Since::from_block_number(u64::MAX & !FLAGS_MASK, false).unwrap();
    assert_eq!(big.to_absolute_value(u64::MAX, 0, 0), None);
    // a relative epoch lock adds the base epoch fraction
    let e = EpochNumberWithFraction::create(10, 1, 3).unwrap();
    let rel_epoch = Since::from_epoch(e, false);
    let base_epoch = EpochNumberWithFraction::create(100, 1, 3).unwrap();
    let abs_epoch = rel_epoch.to_absolute_value(0, 0, base_epoch.full_value()).unwrap();
    let expected = EpochNumberWithFraction::create(110, 2, 3).unwrap();
    assert_eq!(abs_epoch, Since::from_epoch(expected, true));
}
