//! The digest of a password: SHA-1 of its UTF-8 bytes, written as forty
//! upper-case hexadecimal digits, which is the form that HIBP lists.

use sha1::{Digest, Sha1};
use vstd::prelude::*;
use vstd::utf8::encode_utf8;

verus! {

/// Number of bytes in a SHA-1 digest.
pub const DIGEST_BYTES: usize = 20;

/// Number of characters in the text form of a digest.
pub const DIGEST_CHARS: usize = 40;

/// The SHA-1 digest of `data`.
pub uninterp spec fn sha1(data: Seq<u8>) -> Seq<u8>;

/// The sixteen hexadecimal digits, with upper-case letters.
pub open spec fn upper_hex_digits() -> Seq<char> {
    seq!['0', '1', '2', '3', '4', '5', '6', '7', '8', '9', 'A', 'B', 'C', 'D', 'E', 'F']
}

/// Whether `c` is a hexadecimal digit written with an upper-case letter.
pub open spec fn is_upper_hex(c: char) -> bool {
    ('0' <= c && c <= '9') || ('A' <= c && c <= 'F')
}

/// Upper-case hexadecimal text of `bytes`: two digits per byte, the high
/// half of the byte first.
pub open spec fn hex_upper(bytes: Seq<u8>) -> Seq<char> {
    Seq::new(
        2 * bytes.len(),
        |i: int|
            if i % 2 == 0 {
                upper_hex_digits()[bytes[i / 2] as int / 16]
            } else {
                upper_hex_digits()[bytes[i / 2] as int % 16]
            },
    )
}

/// Whether `text` has the form of a digest: forty upper-case hexadecimal digits.
pub open spec fn is_digest_text(text: Seq<char>) -> bool {
    &&& text.len() == DIGEST_CHARS
    &&& forall|i: int| 0 <= i < text.len() ==> is_upper_hex(#[trigger] text[i])
}

/// The digest text of a password: the upper-case hexadecimal form of the
/// SHA-1 digest of its UTF-8 bytes.
pub open spec fn password_digest(password: Seq<char>) -> Seq<char> {
    hex_upper(sha1(encode_utf8(password)))
}

/// Hexadecimal text is made of hexadecimal digits, two for each byte.
pub proof fn lemma_hex_upper_is_hex(bytes: Seq<u8>)
    ensures
        hex_upper(bytes).len() == 2 * bytes.len(),
        forall|i: int| 0 <= i < hex_upper(bytes).len() ==> is_upper_hex(#[trigger] hex_upper(bytes)[i]),
{
    assert forall|i: int| 0 <= i < hex_upper(bytes).len() implies is_upper_hex(
        #[trigger] hex_upper(bytes)[i],
    ) by {
        let byte = bytes[i / 2] as int;
        let digit = if i % 2 == 0 {
            byte / 16
        } else {
            byte % 16
        };
        assert(hex_upper(bytes)[i] == upper_hex_digits()[digit]);
    }
}

/// Calls `Sha1::digest` of the `sha1` crate, which hashes `data` in one
/// step. Taken on trust: the result is the SHA-1 digest of `data`, and it is
/// twenty bytes long.
#[verifier::external_body]
fn sha1_digest(data: &[u8]) -> (digest: Vec<u8>)
    ensures
        digest@ == sha1(data@),
        digest@.len() == DIGEST_BYTES,
{
    Sha1::digest(data).to_vec()
}

/// Calls `hex::encode_upper`. Taken on trust: the result holds two
/// characters for each byte of `data`, in order, the digit of the byte's high
/// four bits and then the digit of its low four bits, out of
/// `0123456789ABCDEF`.
#[verifier::external_body]
fn hex_encode_upper(data: &[u8]) -> (text: String)
    ensures
        text@ == hex_upper(data@),
{
    hex::encode_upper(data)
}

/// Text form of the digest bytes `digest`.
pub fn digest_to_text(digest: &[u8]) -> (text: String)
    ensures
        text@ == hex_upper(digest@),
        text@.len() == 2 * digest@.len(),
        forall|i: int| 0 <= i < text@.len() ==> is_upper_hex(#[trigger] text@[i]),
{
    proof {
        lemma_hex_upper_is_hex(digest@);
    }
    hex_encode_upper(digest)
}

/// Return SHA1 digest of string, as upper-case hexadecimal text.
pub fn hash_password(password: &str) -> (digest: String)
    ensures
        digest@ == password_digest(password@),
        is_digest_text(digest@),
{
    let raw = sha1_digest(password.as_bytes());
    digest_to_text(raw.as_slice())
}

} // verus!
