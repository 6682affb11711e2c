use telegram_bot::duration::Duration;

#[test]
fn from_secs_has_no_nanos() {
    let d = Duration::from_secs(5);
    assert_eq!(d.as_secs(), 5);
    assert_eq!(d.subsec_nanos(), 0);
}

#[test]
fn from_millis_splits_seconds() {
    let d = Duration::from_millis(500);
    assert_eq!(d.as_secs(), 0);
    assert_eq!(d.subsec_nanos(), 500_000_000);
    let d = Duration::from_millis(1_500);
    assert_eq!(d.as_secs(), 1);
    assert_eq!(d.subsec_nanos(), 500_000_000);
}

#[test]
fn new_carries_whole_seconds() {
    let d = Duration::new(1, 2_500_000_000);
    assert_eq!(d.as_secs(), 3);
    assert_eq!(d.subsec_nanos(), 500_000_000);
}

#[test]
fn checked_add_carries_and_overflows() {
    let a = Duration::new(1, 700_000_000);
    let b = Duration::new(2, 600_000_000);
    let c = a.checked_add(&b).unwrap();
    assert_eq!(c.as_secs(), 4);
    assert_eq!(c.subsec_nanos(), 300_000_000);
    let top = Duration::from_secs(u64::MAX);
    assert!(top.checked_add(&Duration::from_secs(1)).is_none());
    let near = Duration::new(u64::MAX, 999_999_999);
    assert!(near.checked_add(&Duration::new(0, 1)).is_none());
    assert_eq!(Duration::from_secs(u64::MAX).checked_add(&Duration::new(0, 5)).unwrap().as_secs(), u64::MAX);
}
