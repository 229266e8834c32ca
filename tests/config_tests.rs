use ytcapture::config::{buffer_capacity, target_seconds, ConfigError};

#[test]
fn milliseconds_truncate_to_whole_seconds() {
    assert_eq!(target_seconds(None, Some(1500)), Ok(1));
}

#[test]
fn milliseconds_below_a_second_give_zero() {
    assert_eq!(target_seconds(None, Some(999)), Ok(0));
}

#[test]
fn seconds_take_precedence() {
    assert_eq!(target_seconds(Some(3), Some(1500)), Ok(3));
    assert_eq!(target_seconds(Some(2), None), Ok(2));
}

#[test]
fn missing_duration_is_an_error() {
    assert_eq!(target_seconds(None, None), Err(ConfigError::MissingDuration));
}

#[test]
fn capacity_for_two_seconds() {
    assert_eq!(buffer_capacity(22050, 2), Ok(44100));
    assert_eq!(buffer_capacity(44100, 1), Ok(44100));
}

#[test]
fn capacity_overflow_is_an_error() {
    assert_eq!(buffer_capacity(usize::MAX, 2), Err(ConfigError::CapacityOverflow));
    assert_eq!(buffer_capacity(usize::MAX, 1), Ok(usize::MAX));
}
