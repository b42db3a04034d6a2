use tlsclient::driver::build_request;
use tlsclient::driver::classify;
use tlsclient::driver::contains_subseq;
use tlsclient::driver::evaluate;
use tlsclient::driver::Endpoint;
use tlsclient::driver::Outcome;
use tlsclient::driver::RunEvent;
use tlsclient::driver::Stage;
use tlsclient::driver::MAX_RESPONSE_BYTES;
use tlsclient::driver::PREVIEW_LIMIT;
use tlsclient::session::SessionState;
use tlsclient::session::TlsError;
use tlsclient::session::TlsSession;
use tlsclient::session::TlsStage;
use tlsclient::session::Transport;

#[test]
fn request_is_byte_exact() {
    let req = build_request("www.rust-lang.org");
    let expected = "GET / HTTP/1.1\r\n\
        Host: www.rust-lang.org\r\n\
        User-Agent: tlsclient/0.1\r\n\
        Accept: text/html,application/xhtml+xml,application/xml;q=0.9,*/*;q=0.8\r\n\
        Accept-Language: en-US,en;q=0.5\r\n\
        Connection: close\r\n\
        \r\n";
    assert_eq!(req, expected);
}

#[test]
fn endpoint_keeps_host_and_port() {
    let e = Endpoint::new("example.org".to_string(), 443);
    assert_eq!(e.host, "example.org");
    assert_eq!(e.port, 443);
}

#[test]
fn subsequence_search_finds_and_rejects() {
    let hay = b"xxHTTP/1.1 200 OKyy".to_vec();
    assert!(contains_subseq(&hay, b"HTTP/1.1 200"));
    assert!(contains_subseq(&hay, b"xxH"));
    assert!(contains_subseq(&hay, b"OKyy"));
    assert!(contains_subseq(&hay, b""));
    assert!(!contains_subseq(&hay, b"HTTP/1.1 301"));
    assert!(!contains_subseq(&hay, b"yyy"));
}

#[test]
fn classify_accepts_each_allowed_status() {
    for status in ["200 OK", "301 Moved Permanently", "302 Found"] {
        let body = format!("HTTP/1.1 {}\r\n\r\npayload", status).into_bytes();
        match classify(body.clone(), "TLSv1.3".to_string()) {
            Outcome::Success { body: b, version } => {
                assert_eq!(b, body);
                assert_eq!(version, "TLSv1.3");
            }
            Outcome::Failure { .. } => panic!("expected success for {}", status),
        }
    }
}

#[test]
fn classify_rejects_other_statuses_with_preview() {
    let body = b"HTTP/1.1 404 Not Found\r\n\r\n".to_vec();
    match classify(body.clone(), "TLSv1.3".to_string()) {
        Outcome::Failure { stage, preview, .. } => {
            assert_eq!(stage, Stage::Response);
            assert_eq!(preview, body);
        }
        Outcome::Success { .. } => panic!("expected failure"),
    }
}

#[test]
fn classify_rejects_empty_response() {
    match classify(Vec::new(), "TLSv1.3".to_string()) {
        Outcome::Failure { stage, preview, .. } => {
            assert_eq!(stage, Stage::Response);
            assert!(preview.is_empty());
        }
        Outcome::Success { .. } => panic!("expected failure"),
    }
}

#[test]
fn classify_bounds_the_preview() {
    // A long rejected response is previewed by its prefix only.
    let mut body = b"HTTP/1.1 500 Internal Server Error\r\n".to_vec();
    while body.len() < 3 * PREVIEW_LIMIT {
        body.push(b'x');
    }
    match classify(body.clone(), "unknown".to_string()) {
        Outcome::Failure { preview, .. } => {
            assert_eq!(preview.len(), PREVIEW_LIMIT);
            assert_eq!(&preview[..], &body[..PREVIEW_LIMIT]);
        }
        Outcome::Success { .. } => panic!("expected failure"),
    }
}

#[test]
fn classify_decides_on_raw_bytes_even_if_not_text() {
    let mut body = b"HTTP/1.1 200 OK\r\n\r\n".to_vec();
    body.extend_from_slice(&[0xff, 0xfe, 0x00, 0x80]);
    assert!(matches!(
        classify(body, "TLSv1.3".to_string()),
        Outcome::Success { .. }
    ));
}

#[test]
fn evaluate_maps_each_failure_to_its_stage() {
    match evaluate(RunEvent::ConnectFailed { code: 111 }) {
        Outcome::Failure { stage, code, preview } => {
            assert_eq!(stage, Stage::Connect);
            assert_eq!(code, 111);
            assert!(preview.is_empty());
        }
        Outcome::Success { .. } => panic!("expected failure"),
    }
    match evaluate(RunEvent::EstablishFailed {
        error: TlsError { stage: TlsStage::Handshake, code: 337047686 },
    }) {
        Outcome::Failure { stage, code, .. } => {
            assert_eq!(stage, Stage::Handshake);
            assert_eq!(code, 337047686);
        }
        Outcome::Success { .. } => panic!("expected failure"),
    }
    match evaluate(RunEvent::WriteFailed {
        error: TlsError { stage: TlsStage::Write, code: 5 },
    }) {
        Outcome::Failure { stage, .. } => assert_eq!(stage, Stage::Write),
        Outcome::Success { .. } => panic!("expected failure"),
    }
    match evaluate(RunEvent::ReadFailed {
        error: TlsError { stage: TlsStage::Read, code: 6 },
    }) {
        Outcome::Failure { stage, .. } => assert_eq!(stage, Stage::Read),
        Outcome::Success { .. } => panic!("expected failure"),
    }
}

/// A responsive endpoint: handshake completes, the request is written in
/// full, the response carries a success status line and a body, and the
/// peer closes gracefully.
#[test]
fn run_against_responsive_endpoint_succeeds() {
    let endpoint = Endpoint::new("www.rust-lang.org".to_string(), 443);
    let mut session = TlsSession::new();

    let transport = Transport::new(11);
    let fd = session.begin_establish(transport).unwrap();
    assert_eq!(fd, 11);
    session.establish_ok(Some("TLSv1.3".to_string())).unwrap();
    assert_ne!(session.negotiated_version(), "unknown");

    let request = build_request(&endpoint.host);
    let bytes = request.as_bytes();
    let mut write = session.begin_write(bytes.len()).unwrap();
    // The channel takes the request in two partial transfers.
    assert_eq!(write.record(10).unwrap(), false);
    assert_eq!(write.record(bytes.len() - 10).unwrap(), true);

    let mut read = session.begin_read(MAX_RESPONSE_BYTES).unwrap();
    read.record_data(b"HTTP/1.1 200 OK\r\ncontent-type: text/html\r\n\r\n");
    read.record_data(b"<html>hello</html>");
    read.record_close();
    let body = read.into_bytes();

    let outcome = evaluate(RunEvent::Response {
        body: body.clone(),
        version: session.negotiated_version().clone(),
    });
    match outcome {
        Outcome::Success { body: b, version } => {
            assert_eq!(b, body);
            assert_eq!(version, "TLSv1.3");
        }
        Outcome::Failure { .. } => panic!("expected success"),
    }

    assert!(session.shutdown());
    assert!(!session.shutdown());
}

/// A refused connection: the run fails at the connect stage with nothing
/// ever written or read.
#[test]
fn run_against_refused_connection_fails_at_connect() {
    let mut session = TlsSession::new();
    // The transport never came to be, so the session stays unestablished
    // and refuses any I/O: nothing can be written or read.
    assert!(session.begin_write(1).is_err());
    assert!(session.begin_read(1).is_err());

    let outcome = evaluate(RunEvent::ConnectFailed { code: 111 });
    match outcome {
        Outcome::Failure { stage, code, preview } => {
            assert_eq!(stage, Stage::Connect);
            assert_eq!(code, 111);
            assert!(preview.is_empty());
        }
        Outcome::Success { .. } => panic!("expected failure"),
    }
    assert!(!session.shutdown());
}

/// A handshake that fails certificate verification: the run fails at the
/// handshake stage and no write or read is attempted afterwards.
#[test]
fn run_with_failed_verification_fails_at_handshake() {
    let mut session = TlsSession::new();
    session.begin_establish(Transport::new(12)).unwrap();
    let error = session.fail_establish(TlsStage::Handshake, 337047686).unwrap();

    let outcome = evaluate(RunEvent::EstablishFailed { error });
    match outcome {
        Outcome::Failure { stage, code, .. } => {
            assert_eq!(stage, Stage::Handshake);
            assert_eq!(code, 337047686);
        }
        Outcome::Success { .. } => panic!("expected failure"),
    }

    // The failed session refuses I/O, so no write or read can follow.
    assert_eq!(session.begin_write(1).unwrap_err().state, SessionState::Failed);
    assert_eq!(session.begin_read(1).unwrap_err().state, SessionState::Failed);
    assert!(!session.shutdown());
}

/// A server that completes the handshake and then closes before sending
/// the full response headers: a response failure previewing the partial
/// bytes, possibly none.
#[test]
fn run_against_immediately_closing_server_fails_on_response() {
    let mut session = TlsSession::new();
    session.begin_establish(Transport::new(13)).unwrap();
    session.establish_ok(Some("TLSv1.2".to_string())).unwrap();

    let request = build_request("www.rust-lang.org");
    let mut write = session.begin_write(request.len()).unwrap();
    assert_eq!(write.record(request.len()).unwrap(), true);

    let mut read = session.begin_read(MAX_RESPONSE_BYTES).unwrap();
    read.record_data(b"HTTP/1.");
    read.record_close();
    let body = read.into_bytes();

    match evaluate(RunEvent::Response {
        body,
        version: session.negotiated_version().clone(),
    }) {
        Outcome::Failure { stage, preview, .. } => {
            assert_eq!(stage, Stage::Response);
            assert_eq!(preview, b"HTTP/1.".to_vec());
        }
        Outcome::Success { .. } => panic!("expected failure"),
    }
    assert!(session.shutdown());

    // The same close before any byte at all: an empty preview.
    let mut other = TlsSession::new();
    other.begin_establish(Transport::new(14)).unwrap();
    other.establish_ok(None).unwrap();
    let mut read = other.begin_read(MAX_RESPONSE_BYTES).unwrap();
    read.record_close();
    match evaluate(RunEvent::Response {
        body: read.into_bytes(),
        version: other.negotiated_version().clone(),
    }) {
        Outcome::Failure { stage, preview, .. } => {
            assert_eq!(stage, Stage::Response);
            assert!(preview.is_empty());
        }
        Outcome::Success { .. } => panic!("expected failure"),
    }
    assert!(other.shutdown());
}
