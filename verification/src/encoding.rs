//! Percent-encoding of file names for transport in a header.

use vstd::prelude::*;
use vstd::string::StringSliceAdditionalSpecFns;
use vstd::utf8::{
    decode_utf8, encode_utf8, encode_utf8_decode_utf8, is_ascii_chars, is_ascii_chars_encode_utf8,
};

verus! {

/// The sixteen uppercase hexadecimal digits, by value.
pub open spec fn upper_hex_digits() -> Seq<char> {
    seq!['0', '1', '2', '3', '4', '5', '6', '7', '8', '9', 'A', 'B', 'C', 'D', 'E', 'F']
}

/// Whether `b` is an ASCII letter or digit. Only these bytes are sent as
/// they are.
pub open spec fn is_alphanumeric(b: u8) -> bool {
    (0x30 <= b && b <= 0x39) || (0x41 <= b && b <= 0x5a) || (0x61 <= b && b <= 0x7a)
}

/// The escape of `b`: a percent sign and the two uppercase hexadecimal
/// digits of its value.
pub open spec fn percent_escape(b: u8) -> Seq<char> {
    seq!['%', upper_hex_digits()[b as int / 16], upper_hex_digits()[b as int % 16]]
}

/// What one byte becomes: itself if it is a letter or digit, else its escape.
pub open spec fn encoded_byte(b: u8) -> Seq<char> {
    if is_alphanumeric(b) {
        seq![b as char]
    } else {
        percent_escape(b)
    }
}

/// The percent-encoding of `bytes`, byte by byte.
pub open spec fn percent_encoded(bytes: Seq<u8>) -> Seq<char>
    decreases bytes.len(),
{
    if bytes.len() == 0 {
        Seq::empty()
    } else {
        encoded_byte(bytes[0]) + percent_encoded(bytes.drop_first())
    }
}

/// The value of a hexadecimal digit of either case, if `b` is one.
pub open spec fn hex_value(b: u8) -> Option<int> {
    if 0x30 <= b && b <= 0x39 {
        Some(b - 0x30)
    } else if 0x41 <= b && b <= 0x46 {
        Some(b - 0x41 + 10)
    } else if 0x61 <= b && b <= 0x66 {
        Some(b - 0x61 + 10)
    } else {
        None
    }
}

/// Whether `text` starts with a percent sign and two hexadecimal digits.
pub open spec fn starts_with_escape(text: Seq<u8>) -> bool {
    text.len() >= 3 && text[0] == 0x25 && hex_value(text[1]) is Some && hex_value(text[2]) is Some
}

/// Percent-decoding: every percent sign followed by two hexadecimal digits
/// stands for the byte of that value; every other byte stands for itself.
pub open spec fn percent_decoded(text: Seq<u8>) -> Seq<u8>
    decreases text.len(),
{
    if text.len() == 0 {
        Seq::empty()
    } else if starts_with_escape(text) {
        seq![(16 * hex_value(text[1])->0 + hex_value(text[2])->0) as u8] + percent_decoded(
            text.skip(3),
        )
    } else {
        seq![text[0]] + percent_decoded(text.skip(1))
    }
}

/// Whether every character of `text` is an ASCII letter or digit.
pub open spec fn is_alphanumeric_text(text: Seq<char>) -> bool {
    forall|i: int|
        0 <= i < text.len() ==> {
            let c = #[trigger] text[i];
            ('0' <= c && c <= '9') || ('A' <= c && c <= 'Z') || ('a' <= c && c <= 'z')
        }
}

/// The bytes of a text of ASCII characters, one per character.
pub open spec fn ascii_bytes(text: Seq<char>) -> Seq<u8> {
    Seq::new(text.len(), |i: int| text[i] as u8)
}

/// Calls `percent_encoding::percent_encode` with the set `NON_ALPHANUMERIC`
/// and collects what it yields. Trusted: ASCII letters and digits are kept,
/// and every other byte becomes a percent sign and its two uppercase
/// hexadecimal digits.
#[verifier::external_body]
fn percent_encode_bytes(bytes: &[u8]) -> (text: String)
    ensures
        text@ == percent_encoded(bytes@),
{
    percent_encoding::percent_encode(bytes, percent_encoding::NON_ALPHANUMERIC).to_string()
}

/// The percent-encoding of the UTF-8 bytes of `name`.
pub fn encode_file_name(name: &str) -> (encoded: String)
    ensures
        encoded@ == percent_encoded(encode_utf8(name@)),
{
    percent_encode_bytes(name.as_bytes())
}

/// Each uppercase digit, read back as a byte, has the value it stands for.
proof fn lemma_upper_digit_value(n: int)
    requires
        0 <= n < 16,
    ensures
        hex_value(upper_hex_digits()[n] as u8) == Some(n),
        upper_hex_digits()[n] <= '\u{7f}',
{
    let d = upper_hex_digits();
    assert(d[0] == '0' && d[1] == '1' && d[2] == '2' && d[3] == '3' && d[4] == '4' && d[5] == '5'
        && d[6] == '6' && d[7] == '7');
    assert(d[8] == '8' && d[9] == '9' && d[10] == 'A' && d[11] == 'B' && d[12] == 'C' && d[13]
        == 'D' && d[14] == 'E' && d[15] == 'F');
}

/// Encoding goes byte by byte: the encoding of two texts joined is the two
/// encodings joined.
pub proof fn lemma_percent_encoded_concat(a: Seq<u8>, b: Seq<u8>)
    ensures
        percent_encoded(a + b) == percent_encoded(a) + percent_encoded(b),
    decreases a.len(),
{
    if a.len() == 0 {
        assert(a + b =~= b);
        assert(percent_encoded(a) + percent_encoded(b) =~= percent_encoded(b));
    } else {
        assert((a + b).drop_first() =~= a.drop_first() + b);
        lemma_percent_encoded_concat(a.drop_first(), b);
        assert(percent_encoded(a + b) =~= percent_encoded(a) + percent_encoded(b));
    }
}

/// A byte that is no ASCII letter or digit is replaced by its escape, where
/// it stands: what comes before and after it is encoded on its own.
pub proof fn lemma_percent_escape_at(bytes: Seq<u8>, i: int)
    requires
        0 <= i < bytes.len(),
        !is_alphanumeric(bytes[i]),
    ensures
        percent_encoded(bytes) == percent_encoded(bytes.take(i)) + percent_escape(bytes[i])
            + percent_encoded(bytes.skip(i + 1)),
{
    let rest = bytes.skip(i);
    assert(bytes =~= bytes.take(i) + rest);
    lemma_percent_encoded_concat(bytes.take(i), rest);
    assert(rest.drop_first() =~= bytes.skip(i + 1));
    assert(percent_encoded(rest) == encoded_byte(rest[0]) + percent_encoded(rest.drop_first()));
    assert(percent_encoded(bytes) =~= percent_encoded(bytes.take(i)) + percent_escape(bytes[i])
        + percent_encoded(bytes.skip(i + 1)));
}

/// An encoding holds ASCII characters only.
pub proof fn lemma_percent_encoded_is_ascii(bytes: Seq<u8>)
    ensures
        is_ascii_chars(percent_encoded(bytes)),
    decreases bytes.len(),
{
    if bytes.len() > 0 {
        lemma_percent_encoded_is_ascii(bytes.drop_first());
        let b = bytes[0];
        lemma_upper_digit_value(b as int / 16);
        lemma_upper_digit_value(b as int % 16);
        let head = encoded_byte(b);
        let tail = percent_encoded(bytes.drop_first());
        assert forall|i: int| 0 <= i < (head + tail).len() implies '\0' <= #[trigger] (head
            + tail)[i] <= '\u{7f}' by {
            if i >= head.len() {
                assert((head + tail)[i] == tail[i - head.len()]);
            }
        }
    }
}

/// Decoding the bytes of an encoding gives back what was encoded.
proof fn lemma_round_trip_ascii(bytes: Seq<u8>)
    ensures
        percent_decoded(ascii_bytes(percent_encoded(bytes))) == bytes,
    decreases bytes.len(),
{
    if bytes.len() > 0 {
        let b = bytes[0];
        let rest = bytes.drop_first();
        lemma_round_trip_ascii(rest);
        lemma_upper_digit_value(b as int / 16);
        lemma_upper_digit_value(b as int % 16);
        let head = encoded_byte(b);
        let tail = percent_encoded(rest);
        let text = ascii_bytes(head + tail);
        assert(text.skip(head.len() as int) =~= ascii_bytes(tail));
        if is_alphanumeric(b) {
            assert(text[0] == b);
            assert(!starts_with_escape(text));
        } else {
            assert(text[0] == 0x25 && text[1] == upper_hex_digits()[b as int / 16] as u8 && text[2]
                == upper_hex_digits()[b as int % 16] as u8);
            assert(starts_with_escape(text));
            assert(16 * (b as int / 16) + b as int % 16 == b);
        }
        assert(percent_decoded(text) =~= seq![b] + rest);
        assert(seq![b] + rest =~= bytes);
    }
}

/// Round trip: percent-decoding the UTF-8 bytes of an encoding recovers the
/// bytes that were encoded, whatever they are.
pub proof fn lemma_percent_round_trip(bytes: Seq<u8>)
    ensures
        percent_decoded(encode_utf8(percent_encoded(bytes))) == bytes,
{
    let text = percent_encoded(bytes);
    lemma_percent_encoded_is_ascii(bytes);
    is_ascii_chars_encode_utf8(text);
    assert(encode_utf8(text) =~= ascii_bytes(text));
    lemma_round_trip_ascii(bytes);
}

/// The decoding of a name from its encoding: percent-decoding of the bytes
/// of the text, and then their reading as UTF-8.
pub open spec fn decoded_name(encoded: Seq<char>) -> Seq<char> {
    decode_utf8(percent_decoded(encode_utf8(encoded)))
}

/// No character lies below the first.
proof fn lemma_char_not_below_zero(c: char)
    ensures
        '\0' <= c,
{
}

/// The UTF-8 bytes of two texts joined are the bytes of each, joined.
proof fn lemma_encode_utf8_concat(a: Seq<char>, b: Seq<char>)
    ensures
        encode_utf8(a + b) == encode_utf8(a) + encode_utf8(b),
    decreases a.len(),
{
    if a.len() == 0 {
        assert(a + b =~= b);
        assert(encode_utf8(a) + encode_utf8(b) =~= encode_utf8(b));
    } else {
        assert((a + b).drop_first() =~= a.drop_first() + b);
        lemma_encode_utf8_concat(a.drop_first(), b);
        assert(encode_utf8(a + b) =~= encode_utf8(a) + encode_utf8(b));
    }
}

/// Every character of a name that is ASCII and no letter or digit (a space,
/// `.`, `/`, `:`, `_` and the like) is replaced by its escape, where it
/// stands: what comes before and after it is encoded on its own.
pub proof fn lemma_name_escape_at(name: Seq<char>, i: int)
    requires
        0 <= i < name.len(),
        name[i] <= '\u{7f}',
        !is_alphanumeric(name[i] as u8),
    ensures
        percent_encoded(encode_utf8(name)) == percent_encoded(encode_utf8(name.take(i)))
            + percent_escape(name[i] as u8) + percent_encoded(encode_utf8(name.skip(i + 1))),
{
    lemma_char_not_below_zero(name[i]);
    let before = name.take(i);
    let at = seq![name[i]];
    let after = name.skip(i + 1);
    assert(name =~= before + (at + after));
    lemma_encode_utf8_concat(before, at + after);
    lemma_encode_utf8_concat(at, after);
    assert(is_ascii_chars(at)) by {
        assert forall|j: int| 0 <= j < at.len() implies '\0' <= #[trigger] at[j] <= '\u{7f}' by {
            assert(at[j] == name[i]);
        }
    }
    is_ascii_chars_encode_utf8(at);
    assert(encode_utf8(at) =~= seq![name[i] as u8]);
    let bytes = encode_utf8(name);
    let k = encode_utf8(before).len() as int;
    assert(bytes =~= encode_utf8(before) + (seq![name[i] as u8] + encode_utf8(after)));
    assert(bytes.take(k) =~= encode_utf8(before));
    assert(bytes.skip(k + 1) =~= encode_utf8(after));
    assert(bytes[k] == name[i] as u8);
    lemma_percent_escape_at(bytes, k);
}

/// Round trip on names: decoding the encoding of a name recovers the name,
/// whatever its characters.
pub proof fn lemma_name_round_trip(name: Seq<char>)
    ensures
        decoded_name(percent_encoded(encode_utf8(name))) == name,
{
    lemma_percent_round_trip(encode_utf8(name));
    encode_utf8_decode_utf8(name);
}

/// Identity on letters and digits: the bytes of a text of ASCII letters and
/// digits encode to that text.
proof fn lemma_alphanumeric_bytes_unchanged(text: Seq<char>)
    requires
        is_alphanumeric_text(text),
    ensures
        percent_encoded(ascii_bytes(text)) == text,
    decreases text.len(),
{
    if text.len() > 0 {
        let rest = text.drop_first();
        assert forall|i: int| 0 <= i < rest.len() implies {
            let c = #[trigger] rest[i];
            ('0' <= c && c <= '9') || ('A' <= c && c <= 'Z') || ('a' <= c && c <= 'z')
        } by {
            assert(rest[i] == text[i + 1]);
        }
        lemma_alphanumeric_bytes_unchanged(rest);
        let c = text[0];
        assert(is_alphanumeric(c as u8));
        assert((c as u8) as char == c);
        assert(ascii_bytes(text).drop_first() =~= ascii_bytes(rest));
        assert(percent_encoded(ascii_bytes(text)) =~= text);
    } else {
        assert(percent_encoded(ascii_bytes(text)) =~= text);
    }
}

/// A name of ASCII letters and digits only is its own encoding.
pub proof fn lemma_alphanumeric_unchanged(name: Seq<char>)
    requires
        is_alphanumeric_text(name),
    ensures
        percent_encoded(encode_utf8(name)) == name,
{
    assert(is_ascii_chars(name)) by {
        assert forall|i: int| 0 <= i < name.len() implies '\0' <= #[trigger] name[i]
            <= '\u{7f}' by {}
    }
    is_ascii_chars_encode_utf8(name);
    assert(encode_utf8(name) =~= ascii_bytes(name));
    lemma_alphanumeric_bytes_unchanged(name);
}

} // verus!
