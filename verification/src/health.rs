//! Health probing of the managed server: the fixed endpoint, the exact
//! request text, and the classification of a raw HTTP response as healthy.
//!
//! The probe itself is a single best-effort TCP exchange performed by the
//! unverified driver; this module decides what to send and what the bytes
//! that came back mean.

use vstd::prelude::*;

verus! {

/// Loopback host the managed server must serve on.
pub fn local_server_host() -> (r: &'static str)
    ensures
        r@ == "127.0.0.1"@,
{
    "127.0.0.1"
}

/// Fixed port the managed server must serve on.
pub const LOCAL_SERVER_PORT: u16 = 8787;

/// Connect, read and write timeout of a single probe, in milliseconds.
pub const PROBE_TIMEOUT_MS: u64 = 450;

/// Delay between two probe attempts while waiting for health.
pub const PROBE_INTERVAL_MS: u64 = 140;

/// Overall deadline the orchestrator grants a fresh process to become
/// healthy.
pub const HEALTH_TIMEOUT_MS: u64 = 7000;

/// The exact request a health probe writes on the freshly opened
/// connection.
pub open spec fn health_request_text() -> Seq<char> {
    "GET /api/health HTTP/1.1\r\nHost: 127.0.0.1:8787\r\nConnection: close\r\n\r\n"@
}

/// Minimal HTTP GET for the health path, with `Connection: close` so the
/// server ends the response by closing the stream.
pub fn health_request() -> (r: &'static str)
    ensures
        r@ == health_request_text(),
{
    "GET /api/health HTTP/1.1\r\nHost: 127.0.0.1:8787\r\nConnection: close\r\n\r\n"
}

/// `prefix` stands at the very start of `s`.
pub open spec fn starts_with(s: Seq<u8>, prefix: Seq<u8>) -> bool {
    prefix.len() <= s.len() && s.subrange(0, prefix.len() as int) == prefix
}

/// Status-line prefix of a healthy HTTP/1.1 response.
pub open spec fn http11_ok_prefix() -> Seq<u8> {
    seq![
        'H' as u8, 'T' as u8, 'T' as u8, 'P' as u8, '/' as u8, '1' as u8, '.' as u8, '1' as u8,
        ' ' as u8, '2' as u8, '0' as u8, '0' as u8,
    ]
}

/// Status-line prefix of a healthy HTTP/1.0 response.
pub open spec fn http10_ok_prefix() -> Seq<u8> {
    seq![
        'H' as u8, 'T' as u8, 'T' as u8, 'P' as u8, '/' as u8, '1' as u8, '.' as u8, '0' as u8,
        ' ' as u8, '2' as u8, '0' as u8, '0' as u8,
    ]
}

/// A raw response is healthy when its status line reports code 200 on
/// HTTP/1.0 or HTTP/1.1. The status line is the first line of the
/// response, so this is exactly: the bytes open with one of the two
/// twelve-byte prefixes (neither contains a line break).
pub open spec fn healthy_response(resp: Seq<u8>) -> bool {
    starts_with(resp, http11_ok_prefix()) || starts_with(resp, http10_ok_prefix())
}

/// Check one candidate status-line prefix byte by byte.
fn response_has_prefix(resp: &[u8], prefix: &[u8]) -> (r: bool)
    ensures
        r == starts_with(resp@, prefix@),
{
    if prefix.len() > resp.len() {
        assert(!starts_with(resp@, prefix@));
        return false;
    }
    let mut i: usize = 0;
    while i < prefix.len()
        invariant
            0 <= i <= prefix.len(),
            prefix.len() <= resp.len(),
            forall|j: int| 0 <= j < i ==> resp@[j] == prefix@[j],
        decreases prefix.len() - i,
    {
        if resp[i] != prefix[i] {
            assert(resp@.subrange(0, prefix@.len() as int)[i as int] == resp@[i as int]);
            assert(!starts_with(resp@, prefix@));
            return false;
        }
        i += 1;
    }
    assert(resp@.subrange(0, prefix@.len() as int) =~= prefix@);
    true
}

/// The twelve bytes "HTTP/1.1 200".
fn http11_ok_bytes() -> (r: Vec<u8>)
    ensures
        r@ == http11_ok_prefix(),
{
    let v: Vec<u8> = vec![
        'H' as u8, 'T' as u8, 'T' as u8, 'P' as u8, '/' as u8, '1' as u8, '.' as u8, '1' as u8,
        ' ' as u8, '2' as u8, '0' as u8, '0' as u8,
    ];
    assert(v@ =~= http11_ok_prefix());
    v
}

/// The twelve bytes "HTTP/1.0 200".
fn http10_ok_bytes() -> (r: Vec<u8>)
    ensures
        r@ == http10_ok_prefix(),
{
    let v: Vec<u8> = vec![
        'H' as u8, 'T' as u8, 'T' as u8, 'P' as u8, '/' as u8, '1' as u8, '.' as u8, '0' as u8,
        ' ' as u8, '2' as u8, '0' as u8, '0' as u8,
    ];
    assert(v@ =~= http10_ok_prefix());
    v
}

/// Decide whether the raw bytes read from one probe connection report a
/// healthy server: status code 200 on HTTP/1.0 or HTTP/1.1, anything else
/// (including an empty or truncated response) is unhealthy.
pub fn probe_response_healthy(resp: &[u8]) -> (r: bool)
    ensures
        r == healthy_response(resp@),
{
    let http11 = http11_ok_bytes();
    if response_has_prefix(resp, http11.as_slice()) {
        return true;
    }
    let http10 = http10_ok_bytes();
    response_has_prefix(resp, http10.as_slice())
}

} // verus!
