use cnix::clock::{format_timestamp, get_now_with_nanoseconds, name_moment};
use cnix::error::NixError;

#[test]
fn moments_are_written_with_a_dot() {
    assert_eq!(format_timestamp(1700000000, 42), "1700000000.42");
    assert_eq!(format_timestamp(0, 0), "0.0");
}

#[test]
fn different_moments_have_different_names() {
    assert_ne!(format_timestamp(1, 23), format_timestamp(12, 3));
    assert_ne!(format_timestamp(1, 0), format_timestamp(1, 1));
}

#[test]
fn moments_before_the_epoch_have_no_name() {
    assert_eq!(name_moment(Some((3, 4))), Ok("3.4".to_string()));
    assert_eq!(name_moment(None), Err(NixError::ClockBeforeEpoch));
    assert_eq!(NixError::ClockBeforeEpoch.message(), "Time went backwards");
}

#[test]
fn the_present_moment_lies_after_the_epoch() {
    let before = std::time::UNIX_EPOCH.elapsed().unwrap().as_secs();
    let now = get_now_with_nanoseconds().unwrap();
    let after = std::time::UNIX_EPOCH.elapsed().unwrap().as_secs();
    let (secs, nanos) = now.split_once('.').unwrap();
    let secs: u64 = secs.parse().unwrap();
    let nanos: u32 = nanos.parse().unwrap();
    assert!(before <= secs && secs <= after);
    assert!(nanos < 1_000_000_000);
}
