use mockstream::FailingMockStream;
use std::io::Cursor;
use std::io::ErrorKind;
use std::io::Read;
use std::io::Write;

#[test]
fn fails_three_times_then_reports_the_end() {
    let mut s = FailingMockStream::new(ErrorKind::TimedOut, "late", 3);
    let mut buf = [1u8; 4];
    for _ in 0..3 {
        let error = s.read(&mut buf).unwrap_err();
        assert_eq!(error.kind(), ErrorKind::TimedOut);
        assert_eq!(error.to_string(), "late");
    }
    for _ in 0..10 {
        assert_eq!(s.read(&mut buf).unwrap(), 0);
    }
    assert_eq!(buf, [1, 1, 1, 1]);
}

#[test]
fn reads_and_writes_count_off_the_same_failures() {
    let mut s = FailingMockStream::new(ErrorKind::Other, "no", 3);
    let mut buf = [0u8; 2];
    assert_eq!(s.read(&mut buf).unwrap_err().kind(), ErrorKind::Other);
    assert_eq!(s.write(&[1, 2]).unwrap_err().kind(), ErrorKind::Other);
    assert_eq!(s.read(&mut buf).unwrap_err().kind(), ErrorKind::Other);
    assert_eq!(s.write(&[1, 2]).unwrap(), 0);
    assert_eq!(s.read(&mut buf).unwrap(), 0);
}

#[test]
fn negative_count_fails_for_ever() {
    let mut s = FailingMockStream::new(ErrorKind::ConnectionReset, "gone", -1);
    let mut buf = [0u8; 2];
    for _ in 0..1000 {
        let error = s.read(&mut buf).unwrap_err();
        assert_eq!(error.kind(), ErrorKind::ConnectionReset);
        assert_eq!(error.to_string(), "gone");
        assert_eq!(s.write(&buf).unwrap_err().kind(), ErrorKind::ConnectionReset);
    }
}

#[test]
fn lowest_count_fails_for_ever_too() {
    let mut s = FailingMockStream::new(ErrorKind::Other, "never", i32::MIN);
    let mut buf = [0u8; 2];
    for _ in 0..100 {
        assert!(s.read(&mut buf).is_err());
    }
}

#[test]
fn zero_count_never_fails() {
    let mut s = FailingMockStream::new(ErrorKind::Other, "unused", 0);
    let mut buf = [3u8; 2];
    assert_eq!(s.read(&mut buf).unwrap(), 0);
    assert_eq!(s.write(&[1, 2, 3]).unwrap(), 0);
    assert_eq!(buf, [3, 3]);
}

#[test]
fn flush_never_fails() {
    let mut forever = FailingMockStream::new(ErrorKind::Other, "no", -1);
    forever.flush().unwrap();
    let mut twice = FailingMockStream::new(ErrorKind::Other, "no", 2);
    twice.flush().unwrap();
    twice.flush().unwrap();
    twice.flush().unwrap();
    // flushing has counted no failure off
    assert!(twice.write(&[1]).is_err());
    assert!(twice.write(&[1]).is_err());
    assert_eq!(twice.write(&[1]).unwrap(), 0);
}

#[test]
fn clone_of_failing_stream_counts_on_its_own() {
    let mut s = FailingMockStream::new(ErrorKind::Other, "no", 2);
    let mut buf = [0u8; 1];
    assert!(s.read(&mut buf).is_err());
    let mut copy = s.clone();
    assert!(copy.read(&mut buf).is_err());
    assert_eq!(copy.read(&mut buf).unwrap(), 0);
    // the first stream still has one failure to come
    let error = s.read(&mut buf).unwrap_err();
    assert_eq!(error.kind(), ErrorKind::Other);
    assert_eq!(error.to_string(), "no");
    assert_eq!(s.read(&mut buf).unwrap(), 0);
}

#[test]
fn retries_get_past_the_failures_in_a_chain() {
    let mut chain = Cursor::new(&b"1234"[..])
        .chain(FailingMockStream::new(ErrorKind::Other, "Failing", 3))
        .chain(Cursor::new(&b"5678"[..]));
    let mut count = 0;
    let mut failures = 0;
    loop {
        let mut buffer = [0; 5];
        match chain.read(&mut buffer) {
            Err(error) => {
                assert_eq!(error.kind(), ErrorKind::Other);
                failures += 1;
            }
            Ok(0) => break,
            Ok(n) => count += n,
        }
    }
    assert_eq!(failures, 3);
    assert_eq!(count, 8);
}

#[test]
fn error_counts_a_positive_count_down() {
    let mut s = FailingMockStream::new(ErrorKind::NotFound, "missing", 2);
    let error = s.error().unwrap_err();
    assert_eq!(error.kind(), ErrorKind::NotFound);
    assert_eq!(error.to_string(), "missing");
    assert_eq!(s.error().unwrap_err().kind(), ErrorKind::NotFound);
    assert_eq!(s.error().unwrap(), 0);
    assert_eq!(s.error().unwrap(), 0);
}

#[test]
fn error_leaves_a_negative_count_alone() {
    let mut s = FailingMockStream::new(ErrorKind::NotFound, "missing", i32::MIN);
    for _ in 0..50 {
        let error = s.error().unwrap_err();
        assert_eq!(error.kind(), ErrorKind::NotFound);
        assert_eq!(error.to_string(), "missing");
    }
}
