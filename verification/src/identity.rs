//! Identity tokens: 64 characters of printable ASCII.
//!
//! A token identifies a peer.  It travels as exactly 64 raw bytes on
//! the wire, never length-prefixed, and is compared above the
//! handshake; it is not bound to the handshake keys.

use vstd::prelude::*;
use vstd::string::StringSliceAdditionalSpecFns;
use vstd::utf8::decode_utf8;
use vstd::utf8::encode_utf8;
use vstd::utf8::valid_utf8;

verus! {

/// The number of characters in an identity token.
pub const IDENTITY_LEN: usize = 64;

/// The first printable ASCII code, `!`.
pub const PRINTABLE_FIRST: u8 = 0x21;

/// The last printable ASCII code, `~`.
pub const PRINTABLE_LAST: u8 = 0x7e;

/// A byte in the printable ASCII range.
pub open spec fn printable_byte(b: u8) -> bool {
    PRINTABLE_FIRST <= b <= PRINTABLE_LAST
}

/// A character in the printable ASCII range.
pub open spec fn printable_char(c: char) -> bool {
    PRINTABLE_FIRST <= c as u32 <= PRINTABLE_LAST
}

/// A well-formed identity token, as characters.
pub open spec fn valid_identity_chars(s: Seq<char>) -> bool {
    s.len() == IDENTITY_LEN && forall|i: int| 0 <= i < s.len() ==> printable_char(#[trigger] s[i])
}

/// Whether a locally stored token may be sent: the sender aborts,
/// before any network write, unless the token encodes to exactly 64
/// bytes, the fixed width of the identity field on the wire.
pub fn identity_len_ok(token: &str) -> (r: bool)
    ensures
        r <==> token.spec_bytes().len() == IDENTITY_LEN,
{
    broadcast use vstd::slice::axiom_spec_len;

    let bytes = token.as_bytes();
    bytes.len() == IDENTITY_LEN
}

/// An identity travels as the UTF-8 encoding of its characters, and the
/// receiver decodes it: whatever token the sender holds, encoding it
/// and decoding the bytes yields the same characters back.
pub proof fn lemma_identity_round_trip(token: Seq<char>)
    ensures
        valid_utf8(encode_utf8(token)),
        decode_utf8(encode_utf8(token)) == token,
{
    broadcast use vstd::utf8::encode_utf8_valid_utf8;
    broadcast use vstd::utf8::encode_utf8_decode_utf8;

}

/// A printable character lies in the ASCII range.
proof fn lemma_printable_is_ascii(c: char)
    requires
        printable_char(c),
    ensures
        '\0' <= c <= '\u{7f}',
{
}

/// A well-formed token is always sendable: its characters are ASCII,
/// so it encodes to exactly 64 bytes on the wire, each of them
/// printable.
pub proof fn lemma_valid_token_is_sendable(token: Seq<char>)
    requires
        valid_identity_chars(token),
    ensures
        encode_utf8(token).len() == IDENTITY_LEN,
        forall|i: int|
            0 <= i < IDENTITY_LEN ==> printable_byte(#[trigger] encode_utf8(token)[i]),
{
    assert(vstd::utf8::is_ascii_chars(token)) by {
        assert forall|i: int| 0 <= i < token.len() implies ('\0' <= #[trigger] token[i]
            && token[i] <= '\u{7f}') by {
            assert(printable_char(token[i]));
            lemma_printable_is_ascii(token[i]);
        }
    }
    vstd::utf8::is_ascii_chars_encode_utf8(token);
    assert forall|i: int|
        0 <= i < IDENTITY_LEN implies printable_byte(#[trigger] encode_utf8(token)[i]) by {
        assert(printable_char(token[i]));
        assert(encode_utf8(token)[i] == token[i] as u8);
    }
}

/// Generator of fresh identity tokens.
pub struct CreateIdentity {}

impl CreateIdentity {
    /// Draw a fresh token: 64 characters picked uniformly at random
    /// from the printable ASCII range.
    pub fn new() -> (r: Vec<char>)
        ensures
            valid_identity_chars(r@),
    {
        let mut r: Vec<char> = Vec::new();
        let span: usize = (PRINTABLE_LAST - PRINTABLE_FIRST) as usize + 1;
        for _i in 0..IDENTITY_LEN
            invariant
                span == 94,
                r@.len() == _i,
                forall|j: int| 0 <= j < r@.len() ==> printable_char(#[trigger] r@[j]),
        {
            let idx = random_below(span);
            let b: u8 = PRINTABLE_FIRST + (idx as u8);
            assert(printable_byte(b));
            r.push(b as char);
        }
        r
    }
}

/// Relies on `rand::random_range`: the result lies in the half-open
/// range handed to it (the thread-local generator; the range is
/// non-empty, so the call does not panic).
#[verifier::external_body]
fn random_below(bound: usize) -> (r: usize)
    requires
        bound > 0,
    ensures
        r < bound,
{
    rand::random_range(0..bound)
}

} // verus!
