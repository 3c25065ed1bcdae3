use mockstream::pattern::find_subsequence;
use mockstream::wait::WaitState;
use mockstream::wait::POLL_INTERVAL_MILLIS;

#[test]
fn finds_needle_at_the_start() {
    assert_eq!(find_subsequence(&[1, 2, 3, 4], &[1, 2]), Some(0));
}

#[test]
fn finds_needle_in_the_middle() {
    assert_eq!(find_subsequence(&[1, 9, 9, 2], &[9, 9]), Some(1));
}

#[test]
fn finds_needle_at_the_end() {
    assert_eq!(find_subsequence(&[1, 2, 3, 4], &[3, 4]), Some(2));
    assert_eq!(find_subsequence(&[1, 2, 3, 4], &[4]), Some(3));
}

#[test]
fn finds_the_first_of_several() {
    assert_eq!(find_subsequence(&[5, 1, 2, 1, 2, 1, 2], &[1, 2]), Some(1));
    assert_eq!(find_subsequence(&[7, 7, 7, 7], &[7, 7]), Some(0));
}

#[test]
fn finds_needle_after_a_false_start() {
    assert_eq!(find_subsequence(&[9, 9, 1, 9, 9, 9, 2], &[9, 9, 2]), Some(4));
    assert_eq!(find_subsequence(&[1, 1, 1, 2], &[1, 1, 2]), Some(1));
}

#[test]
fn whole_haystack_is_found_at_zero() {
    assert_eq!(find_subsequence(&[1, 2, 3], &[1, 2, 3]), Some(0));
}

#[test]
fn absent_needle_is_not_found() {
    assert_eq!(find_subsequence(&[1, 2, 3, 4], &[2, 4]), None);
    assert_eq!(find_subsequence(&[1, 2, 3, 4], &[5]), None);
    assert_eq!(find_subsequence(&[9, 1, 9], &[9, 9]), None);
}

#[test]
fn needle_longer_than_haystack_is_not_found() {
    assert_eq!(find_subsequence(&[1, 2], &[1, 2, 3]), None);
    assert_eq!(find_subsequence(&[], &[1]), None);
}

#[test]
fn empty_needle_is_found_at_zero() {
    assert_eq!(find_subsequence(&[1, 2, 3], &[]), Some(0));
    assert_eq!(find_subsequence(&[], &[]), Some(0));
}

#[test]
fn wait_state_follows_the_flag() {
    assert_eq!(WaitState::from_flag(true), WaitState::Waiting);
    assert_eq!(WaitState::from_flag(false), WaitState::Idle);
    assert!(WaitState::Waiting.is_waiting());
    assert!(!WaitState::Idle.is_waiting());
}

#[test]
fn write_ends_wait_when_expected_bytes_are_there() {
    assert_eq!(WaitState::Waiting.on_write(&[1, 9, 9, 2], &[9, 9]), WaitState::Idle);
    assert_eq!(WaitState::Waiting.on_write(&[9, 9], &[9, 9]), WaitState::Idle);
    assert_eq!(WaitState::Waiting.on_write(&[1, 2], &[]), WaitState::Idle);
}

#[test]
fn write_keeps_wait_when_expected_bytes_are_missing() {
    assert_eq!(WaitState::Waiting.on_write(&[1, 9, 2, 9], &[9, 9]), WaitState::Waiting);
    assert_eq!(WaitState::Waiting.on_write(&[], &[9, 9]), WaitState::Waiting);
    assert_eq!(WaitState::Waiting.on_write(&[9], &[9, 9]), WaitState::Waiting);
}

#[test]
fn write_never_starts_a_wait() {
    assert_eq!(WaitState::Idle.on_write(&[1, 2], &[9, 9]), WaitState::Idle);
    assert_eq!(WaitState::Idle.on_write(&[9, 9], &[9, 9]), WaitState::Idle);
}

#[test]
fn poll_interval_is_ten_milliseconds() {
    assert_eq!(POLL_INTERVAL_MILLIS, 10);
}
