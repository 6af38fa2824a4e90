//! The browser bridge: the framing rules between the program, the native-messaging host and
//! the browser extension. The sockets themselves are the application's.
//!
//! The program side speaks newline-delimited JSON over a local socket; the browser side speaks
//! Chrome's native messaging, a 4-byte little-endian length before each message.

use crate::paths::{app_entry, data_dir, data_dir_in, entry_under, path_joined};
use crate::platform::Platform;
use vstd::prelude::*;

verus! {

/// One request to the extension.
#[derive(Debug, Clone, PartialEq, Eq)]
pub struct Request {
    pub id: u64,
    pub cmd: String,
    pub text: Option<String>,
}

#[derive(Debug, Clone, PartialEq, Eq)]
pub enum BridgeError {
    /// The extension has not connected (not installed, or the browser is closed).
    NotConnected,
    /// Connected, but no answer in time. Silence is refusal.
    NoResponse,
    Transport(String),
}

/// The largest message the host accepts from the browser.
pub const MAX_MESSAGE: u32 = 67108864;

/// The socket the native-messaging host connects to, inside the program's folder.
pub fn socket_path(platform: Platform) -> (r: Option<String>)
    ensures
        r matches Some(p) ==> app_entry(p@, platform, "bridge.sock"@),
{
    proof {
        reveal_strlit("bridge.sock");
        assert(seq!['.'].len() == 1 && seq!['.', '.'].len() == 2);
    }
    match data_dir(platform) {
        Some(d) => {
            let p = entry_under(d.as_str(), "bridge.sock");
            proof {
                let local = choose|local: Seq<char>| d@ == #[trigger] data_dir_in(local, platform);
                assert(p@ == path_joined(data_dir_in(local, platform), "bridge.sock"@));
            }
            Some(p)
        },
        None => None,
    }
}

/// A length announced by the browser that the host accepts: not empty, at most 64 MiB. Any
/// other length ends the session.
pub open spec fn frame_length_ok(n: u32) -> bool {
    0 < n <= MAX_MESSAGE
}

pub fn accepts_frame_length(n: u32) -> (r: bool)
    ensures
        r == frame_length_ok(n),
{
    n != 0 && n <= MAX_MESSAGE
}

/// The little-endian bytes of a `u32`.
pub open spec fn le_bytes(n: u32) -> Seq<u8> {
    seq![
        (n % 256) as u8,
        ((n / 256) % 256) as u8,
        ((n / 65536) % 256) as u8,
        ((n / 16777216) % 256) as u8,
    ]
}

/// The length a frame header announces.
pub open spec fn le_value(b: Seq<u8>) -> int {
    b[0] + 256 * b[1] + 65536 * b[2] + 16777216 * b[3]
}

pub fn length_of_header(b: [u8; 4]) -> (n: u32)
    ensures
        n == le_value(b@),
{
    let n: u32 = b[0] as u32 + 256 * (b[1] as u32) + 65536 * (b[2] as u32) + 16777216 * (
    b[3] as u32);
    n
}

/// A message for the browser: its length, as four little-endian bytes, then the message. A
/// length past `u32::MAX` is cut to its low 32 bits, as a cast does.
pub fn frame_for_browser(message: &[u8]) -> (r: Vec<u8>)
    ensures
        r@ == le_bytes(message@.len() as u32) + message@,
{
    let n = message.len() as u32;
    let mut r: Vec<u8> = Vec::new();
    r.push((n % 256) as u8);
    r.push(((n / 256) % 256) as u8);
    r.push(((n / 65536) % 256) as u8);
    r.push(((n / 16777216) % 256) as u8);
    let mut i: usize = 0;
    let ghost head = r@;
    assert(head =~= le_bytes(n));
    while i < message.len()
        invariant
            i <= message@.len(),
            r@ =~= head + message@.take(i as int),
        decreases message@.len() - i,
    {
        r.push(message[i]);
        i = i + 1;
    }
    assert(message@.take(message@.len() as int) =~= message@);
    r
}

/// A message from the browser, as a line for the program's socket.
pub fn line_for_program(message: &[u8]) -> (r: Vec<u8>)
    ensures
        r@ == message@.push(10u8),
{
    let mut r: Vec<u8> = Vec::new();
    let mut i: usize = 0;
    while i < message.len()
        invariant
            i <= message@.len(),
            r@ =~= message@.take(i as int),
        decreases message@.len() - i,
    {
        r.push(message[i]);
        i = i + 1;
    }
    r.push(10u8);
    assert(message@.take(message@.len() as int) =~= message@);
    r
}

/// A header and a framed message agree: reading the header back gives the length.
pub proof fn law_header_round_trips(n: u32)
    ensures
        le_value(le_bytes(n)) == n,
{
    let b = le_bytes(n);
    assert(b[0] == n % 256);
    assert(b[1] == (n / 256) % 256);
    assert(b[2] == (n / 65536) % 256);
    assert(b[3] == (n / 16777216) % 256);
    assert((n % 256) + 256 * ((n / 256) % 256) + 65536 * ((n / 65536) % 256) + 16777216 * ((n
        / 16777216) % 256) == n) by (nonlinear_arith)
        requires
            n < 4294967296,
    ;
}

} // verus!
