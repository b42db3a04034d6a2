//! Outcome evaluation for one end-to-end run.
//!
//! The run connects, establishes a TLS session with server-name indication,
//! sends one fixed HTTP request, reads the response to close, and reports
//! exactly one `Outcome`. The unverified shell performs the network calls;
//! this module builds the request byte-exactly, classifies the raw response
//! bytes, and turns whichever failure ended the run early into its outcome.

use vstd::prelude::*;

use vstd::string::StringExecFns;
use vstd::string::StringSliceAdditionalSpecFns;

use crate::session::TlsError;

verus! {

/// Largest number of response bytes one run will accumulate.
pub const MAX_RESPONSE_BYTES: usize = 10_000_000;

/// Largest number of raw response bytes quoted back in a failure preview.
pub const PREVIEW_LIMIT: usize = 200;

/// The remote endpoint of one run.
pub struct Endpoint {
    pub host: String,
    pub port: u16,
}

impl Endpoint {
    pub fn new(host: String, port: u16) -> (e: Endpoint)
        ensures
            e.host@ == host@,
            e.port == port,
    {
        Endpoint { host, port }
    }
}

/// The run step a failure outcome is attributed to.
#[derive(Clone, Copy, Debug, PartialEq, Eq, Structural)]
pub enum Stage {
    Connect,
    Handshake,
    Write,
    Read,
    Response,
}

/// The single tagged result of one run.
///
/// On failure, `code` carries the underlying diagnostic code where one
/// exists, and `preview` a bounded prefix of the raw response bytes where
/// a response was read at all; decoding those bytes for display is left to
/// the caller and never influences the classification.
pub enum Outcome {
    Success { body: Vec<u8>, version: String },
    Failure { stage: Stage, code: u64, preview: Vec<u8> },
}

/// How one run ended, as handed back by the shell that performed the
/// network calls.
pub enum RunEvent {
    ConnectFailed { code: u64 },
    EstablishFailed { error: TlsError },
    WriteFailed { error: TlsError },
    ReadFailed { error: TlsError },
    Response { body: Vec<u8>, version: String },
}

/// `needle` occurs contiguously somewhere in `hay`.
pub open spec fn contains_seq(hay: Seq<u8>, needle: Seq<u8>) -> bool {
    exists|i: int|
        0 <= i && i + needle.len() <= hay.len() && #[trigger] hay.subrange(
            i,
            i + needle.len() as int,
        ) == needle
}

/// A recognized success status line occurs in the raw response bytes.
pub open spec fn has_success_status(body: Seq<u8>) -> bool {
    ||| contains_seq(body, "HTTP/1.1 200".spec_bytes())
    ||| contains_seq(body, "HTTP/1.1 301".spec_bytes())
    ||| contains_seq(body, "HTTP/1.1 302".spec_bytes())
}

/// A response classifies as success exactly when it is non-empty and shows
/// a recognized success status line.
pub open spec fn spec_is_success(body: Seq<u8>) -> bool {
    body.len() > 0 && has_success_status(body)
}

/// The bounded prefix of the raw response quoted in a response failure.
pub open spec fn spec_preview(body: Seq<u8>) -> Seq<u8> {
    body.take(vstd::math::min(body.len() as int, PREVIEW_LIMIT as int))
}

/// Whether `needle` matches `hay` at offset `at`.
fn matches_at(hay: &Vec<u8>, needle: &[u8], at: usize) -> (r: bool)
    requires
        at + needle@.len() <= hay@.len(),
    ensures
        r == (hay@.subrange(at as int, at + needle@.len()) == needle@),
{
    let n = needle.len();
    let h = hay.len();
    let mut j: usize = 0;
    while j < n
        invariant
            j <= n,
            n == needle@.len(),
            h == hay@.len(),
            at + n <= h,
            forall|k: int| 0 <= k < j ==> hay@[at + k] == needle@[k],
        decreases n - j,
    {
        if hay[at + j] != needle[j] {
            proof {
                assert(hay@.subrange(at as int, at + needle@.len())[j as int] != needle@[j as int]);
            }
            return false;
        }
        j = j + 1;
    }
    proof {
        assert(hay@.subrange(at as int, at + needle@.len()) =~= needle@);
    }
    true
}

/// Naive contiguous search for `needle` in `hay`.
pub fn contains_subseq(hay: &Vec<u8>, needle: &[u8]) -> (r: bool)
    ensures
        r == contains_seq(hay@, needle@),
{
    let n = needle.len();
    let h = hay.len();
    if n > h {
        return false;
    }
    if n == 0 {
        proof {
            assert(hay@.subrange(0, 0 + needle@.len() as int) =~= needle@);
        }
        return true;
    }
    let end = h - n;
    let mut i: usize = 0;
    while i <= end
        invariant
            h == hay@.len(),
            n == needle@.len(),
            1 <= n <= h,
            end == h - n,
            i <= end + 1,
            forall|k: int|
                0 <= k < i ==> #[trigger] hay@.subrange(k, k + needle@.len()) != needle@,
        decreases end + 1 - i,
    {
        if matches_at(hay, needle, i) {
            return true;
        }
        i = i + 1;
    }
    false
}

/// Classifies a fully read response.
///
/// Success is decided on the raw bytes alone: the response must be
/// non-empty and contain a recognized success status line. Anything else
/// is a response failure carrying a bounded prefix of the raw bytes for
/// diagnostics.
pub fn classify(body: Vec<u8>, version: String) -> (r: Outcome)
    ensures
        spec_is_success(body@) ==> (r matches Outcome::Success { body: b, version: v } && b@
            == body@ && v@ == version@),
        !spec_is_success(body@) ==> (r matches Outcome::Failure { stage, code, preview } && stage
            == Stage::Response && code == 0 && preview@ == spec_preview(body@)),
{
    let ok = body.len() > 0 && (contains_subseq(&body, "HTTP/1.1 200".as_bytes())
        || contains_subseq(&body, "HTTP/1.1 301".as_bytes()) || contains_subseq(
            &body,
            "HTTP/1.1 302".as_bytes(),
        ));
    if ok {
        Outcome::Success { body, version }
    } else {
        let limit: usize = if body.len() <= PREVIEW_LIMIT {
            body.len()
        } else {
            PREVIEW_LIMIT
        };
        let mut preview: Vec<u8> = Vec::new();
        let mut i: usize = 0;
        while i < limit
            invariant
                i <= limit,
                limit as int == vstd::math::min(body@.len() as int, PREVIEW_LIMIT as int),
                preview@ == body@.take(i as int),
            decreases limit - i,
        {
            preview.push(body[i]);
            proof {
                assert(body@.take(i as int) + seq![body@[i as int]] =~= body@.take(i as int + 1));
            }
            i = i + 1;
        }
        Outcome::Failure { stage: Stage::Response, code: 0, preview }
    }
}

/// Turns how the run ended into its single outcome.
///
/// A run that failed before or during the handshake never wrote or read;
/// one that failed writing or reading carries the underlying diagnostic
/// code; only a fully read response is classified on its bytes.
pub fn evaluate(ev: RunEvent) -> (r: Outcome)
    ensures
        (ev matches RunEvent::ConnectFailed { code } ==> (r matches Outcome::Failure {
            stage,
            code: c,
            preview,
        } && stage == Stage::Connect && c == code && preview@ == Seq::<u8>::empty())),
        (ev matches RunEvent::EstablishFailed { error } ==> (r matches Outcome::Failure {
            stage,
            code: c,
            preview,
        } && stage == Stage::Handshake && c == error.code && preview@ == Seq::<u8>::empty())),
        (ev matches RunEvent::WriteFailed { error } ==> (r matches Outcome::Failure {
            stage,
            code: c,
            preview,
        } && stage == Stage::Write && c == error.code && preview@ == Seq::<u8>::empty())),
        (ev matches RunEvent::ReadFailed { error } ==> (r matches Outcome::Failure {
            stage,
            code: c,
            preview,
        } && stage == Stage::Read && c == error.code && preview@ == Seq::<u8>::empty())),
        (ev matches RunEvent::Response { body, version } ==> {
            &&& spec_is_success(body@) ==> (r matches Outcome::Success { body: b, version: v }
                && b@ == body@ && v@ == version@)
            &&& !spec_is_success(body@) ==> (r matches Outcome::Failure { stage, code, preview }
                && stage == Stage::Response && code == 0 && preview@ == spec_preview(body@))
        }),
{
    match ev {
        RunEvent::ConnectFailed { code } => Outcome::Failure {
            stage: Stage::Connect,
            code,
            preview: Vec::new(),
        },
        RunEvent::EstablishFailed { error } => Outcome::Failure {
            stage: Stage::Handshake,
            code: error.code,
            preview: Vec::new(),
        },
        RunEvent::WriteFailed { error } => Outcome::Failure {
            stage: Stage::Write,
            code: error.code,
            preview: Vec::new(),
        },
        RunEvent::ReadFailed { error } => Outcome::Failure {
            stage: Stage::Read,
            code: error.code,
            preview: Vec::new(),
        },
        RunEvent::Response { body, version } => classify(body, version),
    }
}

/// The characters of the fixed request sent to `host`.
pub open spec fn spec_request(host: Seq<char>) -> Seq<char> {
    "GET / HTTP/1.1\r\nHost: "@ + host
        + "\r\nUser-Agent: tlsclient/0.1\r\nAccept: text/html,application/xhtml+xml,application/xml;q=0.9,*/*;q=0.8\r\nAccept-Language: en-US,en;q=0.5\r\nConnection: close\r\n\r\n"@
}

/// Builds the one fixed, well-formed HTTP request of a run, byte-exact,
/// templated on nothing but the hostname.
pub fn build_request(host: &str) -> (r: String)
    ensures
        r@ == spec_request(host@),
{
    let mut s = String::from_str("GET / HTTP/1.1\r\nHost: ");
    s.append(host);
    s.append(
        "\r\nUser-Agent: tlsclient/0.1\r\nAccept: text/html,application/xhtml+xml,application/xml;q=0.9,*/*;q=0.8\r\nAccept-Language: en-US,en;q=0.5\r\nConnection: close\r\n\r\n",
    );
    s
}

} // verus!
