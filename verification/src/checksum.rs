//! SHA-1 content digests in lowercase hexadecimal.

use sha1::Digest;
use vstd::prelude::*;

verus! {

/// The sixteen lowercase hexadecimal digits, by value.
pub open spec fn lower_hex_digits() -> Seq<char> {
    seq!['0', '1', '2', '3', '4', '5', '6', '7', '8', '9', 'a', 'b', 'c', 'd', 'e', 'f']
}

/// Whether `c` is one of `0`-`9` or `a`-`f`.
pub open spec fn is_lower_hex_char(c: char) -> bool {
    ('0' <= c && c <= '9') || ('a' <= c && c <= 'f')
}

/// Whether every character of `text` is a lowercase hexadecimal digit.
pub open spec fn is_lower_hex(text: Seq<char>) -> bool {
    forall|i: int| 0 <= i < text.len() ==> is_lower_hex_char(#[trigger] text[i])
}

/// The lowercase hexadecimal text of `bytes`: two digits per byte, the high
/// half of each byte first.
pub open spec fn lower_hex(bytes: Seq<u8>) -> Seq<char> {
    Seq::new(
        2 * bytes.len(),
        |i: int|
            if i % 2 == 0 {
                lower_hex_digits()[bytes[i / 2] as int / 16]
            } else {
                lower_hex_digits()[bytes[i / 2] as int % 16]
            },
    )
}

/// The largest number of bytes that can be hashed: the length of a SHA-1
/// message in bits has to fit in 64 bits.
pub const MAX_MESSAGE_LEN: u64 = 0x1fff_ffff_ffff_ffff;

/// The largest number of bytes that can be hashed.
pub open spec fn max_message_len() -> int {
    MAX_MESSAGE_LEN as int
}

/// The SHA-1 digest of `data` as the `sha1` crate computes it.
pub uninterp spec fn sha1_digest(data: Seq<u8>) -> Seq<u8>;

/// Calls `sha1::Sha1::digest`. Trusted: the twenty bytes returned are the
/// SHA-1 digest of `data`, which depends on `data` alone. Messages whose
/// length in bits overflows 64 bits are left out, since the crate computes
/// that length with unchecked multiplication.
#[verifier::external_body]
fn sha1_of(data: &[u8]) -> (digest: [u8; 20])
    requires
        data@.len() <= max_message_len(),
    ensures
        digest@ == sha1_digest(data@),
{
    sha1::Sha1::digest(data).into()
}

/// Calls `hex::encode`. Trusted: the text holds two lowercase hexadecimal
/// digits for each byte of `data`, in order, high half first.
#[verifier::external_body]
fn hex_encode(data: &[u8]) -> (text: String)
    ensures
        text@ == lower_hex(data@),
{
    hex::encode(data)
}

/// Every digit in the table is a lowercase hexadecimal character.
proof fn lemma_digits_are_lower_hex(n: int)
    requires
        0 <= n < 16,
    ensures
        is_lower_hex_char(lower_hex_digits()[n]),
{
    let d = lower_hex_digits();
    assert(is_lower_hex_char(d[0]) && is_lower_hex_char(d[1]) && is_lower_hex_char(d[2])
        && is_lower_hex_char(d[3]) && is_lower_hex_char(d[4]) && is_lower_hex_char(d[5])
        && is_lower_hex_char(d[6]) && is_lower_hex_char(d[7]));
    assert(is_lower_hex_char(d[8]) && is_lower_hex_char(d[9]) && is_lower_hex_char(d[10])
        && is_lower_hex_char(d[11]) && is_lower_hex_char(d[12]) && is_lower_hex_char(d[13])
        && is_lower_hex_char(d[14]) && is_lower_hex_char(d[15]));
}

/// The hexadecimal text of any bytes is twice as long as the bytes and holds
/// lowercase hexadecimal digits only.
pub proof fn lemma_lower_hex_shape(bytes: Seq<u8>)
    ensures
        lower_hex(bytes).len() == 2 * bytes.len(),
        is_lower_hex(lower_hex(bytes)),
{
    let text = lower_hex(bytes);
    assert forall|i: int| 0 <= i < text.len() implies is_lower_hex_char(#[trigger] text[i]) by {
        let b = bytes[i / 2] as int;
        lemma_digits_are_lower_hex(b / 16);
        lemma_digits_are_lower_hex(b % 16);
    }
}

/// Writes `bytes` as lowercase hexadecimal text.
pub fn to_lower_hex(bytes: &[u8]) -> (text: String)
    ensures
        text@ == lower_hex(bytes@),
        text@.len() == 2 * bytes@.len(),
        is_lower_hex(text@),
{
    proof {
        lemma_lower_hex_shape(bytes@);
    }
    hex_encode(bytes)
}

/// The SHA-1 digest of `data` as forty lowercase hexadecimal characters.
/// Equal data give equal text.
pub fn calculate_sha1(data: &[u8]) -> (text: String)
    requires
        data@.len() <= max_message_len(),
    ensures
        text@ == lower_hex(sha1_digest(data@)),
        text@.len() == 40,
        is_lower_hex(text@),
{
    let digest = sha1_of(data);
    to_lower_hex(digest.as_slice())
}

} // verus!
