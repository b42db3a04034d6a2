use tlsclient::session::TlsSession;
use tlsclient::session::TlsStage;
use tlsclient::session::Transport;

fn established() -> TlsSession {
    let mut s = TlsSession::new();
    s.begin_establish(Transport::new(5)).unwrap();
    s.establish_ok(Some("TLSv1.3".to_string())).unwrap();
    s
}

#[test]
fn write_completes_under_arbitrary_partial_transfers() {
    // A fake channel that accepts 3, 1, 4 and finally 2 bytes of a
    // 10-byte buffer: the cumulative count must reach exactly 10.
    let s = established();
    let mut op = s.begin_write(10).unwrap();
    assert_eq!(op.remaining(), 10);
    assert_eq!(op.written(), 0);
    assert!(!op.is_done());

    assert_eq!(op.record(3).unwrap(), false);
    assert_eq!(op.written(), 3);
    assert_eq!(op.record(1).unwrap(), false);
    assert_eq!(op.record(4).unwrap(), false);
    assert_eq!(op.remaining(), 2);
    assert_eq!(op.record(2).unwrap(), true);
    assert!(op.is_done());
    assert_eq!(op.written(), 10);
    assert_eq!(op.remaining(), 0);
}

#[test]
fn write_of_empty_buffer_is_immediately_done() {
    let s = established();
    let op = s.begin_write(0).unwrap();
    assert!(op.is_done());
    assert_eq!(op.written(), 0);
}

#[test]
fn zero_progress_write_is_fatal() {
    let s = established();
    let mut op = s.begin_write(4).unwrap();
    let err = op.record(0).unwrap_err();
    assert_eq!(err.stage, TlsStage::Write);
    // The operation is unchanged and can still proceed.
    assert_eq!(op.remaining(), 4);
    assert_eq!(op.record(4).unwrap(), true);
}

#[test]
fn overlong_write_report_is_fatal() {
    let s = established();
    let mut op = s.begin_write(4).unwrap();
    op.record(3).unwrap();
    let err = op.record(2).unwrap_err();
    assert_eq!(err.stage, TlsStage::Write);
    assert_eq!(op.remaining(), 1);
}

#[test]
fn read_returns_exactly_the_bytes_before_close() {
    // Graceful close within the bound: every delivered byte, no
    // truncation.
    let s = established();
    let mut op = s.begin_read(100).unwrap();
    assert_eq!(op.record_data(b"HTTP/1.1 200 OK\r\n\r\n"), false);
    assert_eq!(op.record_data(b"hello"), false);
    op.record_close();
    assert!(op.is_done());
    let bytes = op.into_bytes();
    assert_eq!(bytes, b"HTTP/1.1 200 OK\r\n\r\nhello".to_vec());
}

#[test]
fn read_caps_at_the_size_bound_without_error() {
    let s = established();
    let mut op = s.begin_read(10).unwrap();
    assert_eq!(op.record_data(b"abcdefgh"), false);
    assert_eq!(op.len(), 8);
    // The chunk crossing the bound is cut, and the read ends early.
    assert_eq!(op.record_data(b"ijklmn"), true);
    assert!(op.is_done());
    let bytes = op.into_bytes();
    assert_eq!(bytes, b"abcdefghij".to_vec());
}

#[test]
fn read_reaching_the_bound_exactly_ends() {
    let s = established();
    let mut op = s.begin_read(4).unwrap();
    assert_eq!(op.record_data(b"ab"), false);
    assert_eq!(op.record_data(b"cd"), true);
    assert_eq!(op.into_bytes(), b"abcd".to_vec());
}

#[test]
fn read_error_before_any_byte_is_fatal() {
    let s = established();
    let mut op = s.begin_read(100).unwrap();
    let err = op.record_error(336130329).unwrap_err();
    assert_eq!(err.stage, TlsStage::Read);
    assert_eq!(err.code, 336130329);
    assert!(!op.is_done());
    assert_eq!(op.len(), 0);
}

#[test]
fn read_error_after_some_bytes_is_end_of_stream() {
    let s = established();
    let mut op = s.begin_read(100).unwrap();
    op.record_data(b"partial payload");
    op.record_error(336130329).unwrap();
    assert!(op.is_done());
    assert_eq!(op.into_bytes(), b"partial payload".to_vec());
}
