//! JSON as far as the client reads and writes it: the strings of a reply,
//! found by the names of the members that lead to them, and the quoting of a
//! string in a request.

use vstd::prelude::*;

verus! {

/// A JSON value. Nothing of what it holds is known but its strings.
#[verifier::external_type_specification]
#[verifier::external_body]
pub struct ExJsonValue(serde_json::Value);

/// The strings inside a JSON value, each under the member names that lead to
/// it from the value through nested objects. A value that is itself a string
/// holds that string under the empty path; what stands inside an array is not
/// counted.
pub uninterp spec fn json_strings(value: serde_json::Value) -> Map<Seq<Seq<char>>, Seq<char>>;

/// The strings inside the JSON document that `bytes` spell out, or `None`
/// where `bytes` are not one JSON document.
pub uninterp spec fn json_document(bytes: Seq<u8>) -> Option<Map<Seq<Seq<char>>, Seq<char>>>;

/// The part of `strings` below the member names `prefix`.
pub open spec fn strings_under(
    strings: Map<Seq<Seq<char>>, Seq<char>>,
    prefix: Seq<Seq<char>>,
) -> Map<Seq<Seq<char>>, Seq<char>> {
    Map::new(
        |path: Seq<Seq<char>>| strings.contains_key(prefix + path),
        |path: Seq<Seq<char>>| strings[prefix + path],
    )
}

/// The byte of the lowercase hexadecimal digit of value `n`.
pub open spec fn hex_digit_byte(n: int) -> u8 {
    if n < 10 {
        ('0' as u8 + n) as u8
    } else {
        ('a' as u8 + n - 10) as u8
    }
}

/// What one byte of a text becomes inside a JSON string: the double quote,
/// the backslash and the control characters are escaped, every other byte
/// stands for itself.
pub open spec fn json_escaped_byte(b: u8) -> Seq<u8> {
    if b == '"' as u8 {
        seq!['\\' as u8, '"' as u8]
    } else if b == '\\' as u8 {
        seq!['\\' as u8, '\\' as u8]
    } else if b == '\u{8}' as u8 {
        seq!['\\' as u8, 'b' as u8]
    } else if b == '\t' as u8 {
        seq!['\\' as u8, 't' as u8]
    } else if b == '\n' as u8 {
        seq!['\\' as u8, 'n' as u8]
    } else if b == '\u{c}' as u8 {
        seq!['\\' as u8, 'f' as u8]
    } else if b == '\r' as u8 {
        seq!['\\' as u8, 'r' as u8]
    } else if b <= 0x1f {
        seq![
            '\\' as u8,
            'u' as u8,
            '0' as u8,
            '0' as u8,
            hex_digit_byte(b as int / 16),
            hex_digit_byte(b as int % 16),
        ]
    } else {
        seq![b]
    }
}

/// The bytes of a text, each escaped as a JSON string needs it.
pub open spec fn json_escaped(text: Seq<u8>) -> Seq<u8>
    decreases text.len(),
{
    if text.len() == 0 {
        Seq::empty()
    } else {
        json_escaped(text.drop_last()) + json_escaped_byte(text.last())
    }
}

/// The bytes of a text as a JSON string: escaped, between double quotes.
pub open spec fn json_quoted(text: Seq<u8>) -> Seq<u8> {
    seq!['"' as u8] + json_escaped(text) + seq!['"' as u8]
}

/// Whether a byte stands for itself inside a JSON string.
pub open spec fn is_plain_byte(b: u8) -> bool {
    b > 0x1f && b != '"' as u8 && b != '\\' as u8
}

/// Calls `serde_json::from_slice` for a `serde_json::Value`. Trusted: whether
/// the bytes parse, and the strings of the value they give, depend on the
/// bytes alone.
#[verifier::external_body]
pub(crate) fn parse_json(bytes: &[u8]) -> (r: Result<serde_json::Value, serde_json::Error>)
    ensures
        match r {
            Ok(value) => json_document(bytes@) == Some(json_strings(value)),
            Err(_) => json_document(bytes@) is None,
        },
{
    serde_json::from_slice(bytes)
}

/// Calls `serde_json::Value::get` with a member name. Trusted: an object
/// that has the member gives it, and the strings of the member are those that
/// the value holds below that name; anything else gives `None`, and then the
/// value holds no string below that name.
#[verifier::external_body]
pub(crate) fn json_member<'a>(value: &'a serde_json::Value, name: &str) -> (r: Option<
    &'a serde_json::Value,
>)
    ensures
        match r {
            Some(member) => json_strings(*member) == strings_under(
                json_strings(*value),
                seq![name@],
            ),
            None => forall|path: Seq<Seq<char>>|
                !json_strings(*value).contains_key(#[trigger] (seq![name@] + path)),
        },
{
    value.get(name)
}

/// Calls `serde_json::Value::as_str`. Trusted: a value that is a string
/// gives its text, which is what the value holds under the empty path; any
/// other value gives `None` and holds nothing under the empty path.
#[verifier::external_body]
pub(crate) fn json_text<'a>(value: &'a serde_json::Value) -> (r: Option<&'a str>)
    ensures
        match r {
            Some(text) => json_strings(*value).contains_key(Seq::empty()) && json_strings(
                *value,
            )[Seq::empty()] == text@,
            None => !json_strings(*value).contains_key(Seq::empty()),
        },
{
    value.as_str()
}

/// Calls `serde::de::Error::custom` for a `serde_json::Error`: an error that
/// carries `message`.
#[verifier::external_body]
pub(crate) fn json_error(message: &str) -> serde_json::Error {
    <serde_json::Error as serde::de::Error>::custom(message)
}

/// Going down by `first` and then by `second` is going down by both.
pub proof fn lemma_strings_under_twice(
    strings: Map<Seq<Seq<char>>, Seq<char>>,
    first: Seq<Seq<char>>,
    second: Seq<Seq<char>>,
)
    ensures
        strings_under(strings_under(strings, first), second) == strings_under(
            strings,
            first + second,
        ),
{
    let twice = strings_under(strings_under(strings, first), second);
    let once = strings_under(strings, first + second);
    assert forall|path: Seq<Seq<char>>| #[trigger]
        twice.contains_key(path) == once.contains_key(path) && (twice.contains_key(path)
            ==> twice[path] == once[path]) by {
        assert(first + (second + path) =~= (first + second) + path);
    }
    assert(twice =~= once);
}

/// The object inside `value` under the member names of `prefix` then `name`,
/// given the value under `prefix`.
pub(crate) fn member_under<'a>(
    value: &'a serde_json::Value,
    name: &str,
    Ghost(strings): Ghost<Map<Seq<Seq<char>>, Seq<char>>>,
    Ghost(prefix): Ghost<Seq<Seq<char>>>,
) -> (r: Option<&'a serde_json::Value>)
    requires
        json_strings(*value) == strings_under(strings, prefix),
    ensures
        match r {
            Some(member) => json_strings(*member) == strings_under(strings, prefix.push(name@)),
            None => forall|path: Seq<Seq<char>>|
                !strings.contains_key(#[trigger] (prefix.push(name@) + path)),
        },
{
    let r = json_member(value, name);
    proof {
        assert(prefix + seq![name@] =~= prefix.push(name@));
        match r {
            Some(member) => {
                lemma_strings_under_twice(strings, prefix, seq![name@]);
            },
            None => {
                assert forall|path: Seq<Seq<char>>|
                    !strings.contains_key(#[trigger] (prefix.push(name@) + path)) by {
                    assert(prefix + (seq![name@] + path) =~= prefix.push(name@) + path);
                    assert(!json_strings(*value).contains_key(seq![name@] + path));
                }
            },
        }
    }
    r
}

/// The text of `value`, given the member names `path` under which it stands.
pub(crate) fn text_under(
    value: &serde_json::Value,
    Ghost(strings): Ghost<Map<Seq<Seq<char>>, Seq<char>>>,
    Ghost(path): Ghost<Seq<Seq<char>>>,
) -> (r: Option<String>)
    requires
        json_strings(*value) == strings_under(strings, path),
    ensures
        match r {
            Some(text) => strings.contains_key(path) && strings[path] == text@,
            None => !strings.contains_key(path),
        },
{
    proof {
        assert(path + Seq::<Seq<char>>::empty() =~= path);
    }
    match json_text(value) {
        Some(text) => Some(text.to_owned()),
        None => None,
    }
}

/// The byte of the lowercase hexadecimal digit of value `n`.
fn hex_digit(n: u8) -> (b: u8)
    requires
        n < 16,
    ensures
        b == hex_digit_byte(n as int),
{
    if n < 10 {
        '0' as u8 + n
    } else {
        'a' as u8 + (n - 10)
    }
}

/// Appends a backslash and `letter` to `out`.
fn push_escape(out: &mut Vec<u8>, letter: char)
    requires
        letter <= '\u{7f}',
    ensures
        final(out)@ == old(out)@ + seq!['\\' as u8, letter as u8],
{
    out.push('\\' as u8);
    out.push(letter as u8);
    assert(out@ =~= old(out)@ + seq!['\\' as u8, letter as u8]);
}

/// Appends one byte of a text to `out`, escaped as a JSON string needs it.
fn push_json_escaped_byte(out: &mut Vec<u8>, b: u8)
    ensures
        final(out)@ == old(out)@ + json_escaped_byte(b),
{
    if b == '"' as u8 {
        push_escape(out, '"');
    } else if b == '\\' as u8 {
        push_escape(out, '\\');
    } else if b == '\u{8}' as u8 {
        push_escape(out, 'b');
    } else if b == '\t' as u8 {
        push_escape(out, 't');
    } else if b == '\n' as u8 {
        push_escape(out, 'n');
    } else if b == '\u{c}' as u8 {
        push_escape(out, 'f');
    } else if b == '\r' as u8 {
        push_escape(out, 'r');
    } else if b <= 0x1f {
        push_escape(out, 'u');
        out.push('0' as u8);
        out.push('0' as u8);
        out.push(hex_digit(b / 16));
        out.push(hex_digit(b % 16));
        assert(out@ =~= old(out)@ + json_escaped_byte(b));
    } else {
        out.push(b);
        assert(out@ =~= old(out)@ + json_escaped_byte(b));
    }
}

/// Appends the bytes of a text to `out` as a JSON string.
pub fn push_json_string(out: &mut Vec<u8>, text: &[u8])
    ensures
        final(out)@ == old(out)@ + json_quoted(text@),
{
    out.push('"' as u8);
    let mut i: usize = 0;
    while i < text.len()
        invariant
            i <= text@.len(),
            out@ == old(out)@ + seq!['"' as u8] + json_escaped(text@.take(i as int)),
        decreases text@.len() - i,
    {
        push_json_escaped_byte(out, text[i]);
        proof {
            assert(text@.take(i + 1).drop_last() =~= text@.take(i as int));
            assert(out@ =~= old(out)@ + seq!['"' as u8] + json_escaped(text@.take(i + 1)));
        }
        i += 1;
    }
    out.push('"' as u8);
    proof {
        assert(text@.take(i as int) =~= text@);
        assert(out@ =~= old(out)@ + json_quoted(text@));
    }
}

/// A text without double quote, backslash or control character is its own
/// escaping: as a JSON string it only gains the quotes.
pub proof fn lemma_plain_text_unescaped(text: Seq<u8>)
    requires
        forall|i: int| 0 <= i < text.len() ==> is_plain_byte(#[trigger] text[i]),
    ensures
        json_escaped(text) == text,
    decreases text.len(),
{
    if text.len() > 0 {
        lemma_plain_text_unescaped(text.drop_last());
        assert(json_escaped(text) =~= text);
    }
}

} // verus!
