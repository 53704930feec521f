use std::time::{Duration, UNIX_EPOCH};
use vaults_bridge::clock::{millis_at, now_ms};

#[test]
fn whole_milliseconds_since_the_epoch() {
    assert_eq!(millis_at(UNIX_EPOCH), 0);
    assert_eq!(millis_at(UNIX_EPOCH + Duration::from_nanos(999_999)), 0);
    assert_eq!(millis_at(UNIX_EPOCH + Duration::from_nanos(1_000_000)), 1);
    assert_eq!(millis_at(UNIX_EPOCH + Duration::from_millis(1_700_000_000_123)), 1_700_000_000_123);
}

#[test]
fn before_the_epoch_there_is_nothing() {
    assert_eq!(millis_at(UNIX_EPOCH - Duration::from_millis(5)), 0);
}

#[test]
fn the_clock_is_read() {
    let before = UNIX_EPOCH.elapsed().unwrap().as_millis() as u64;
    let now = now_ms();
    let after = UNIX_EPOCH.elapsed().unwrap().as_millis() as u64;
    assert!(before <= now && now <= after);
}
