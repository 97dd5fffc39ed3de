//! The `application/x-www-form-urlencoded` serialization of name/value pairs.

use vstd::prelude::*;
use vstd::utf8::{encode_utf8, is_ascii_chars, is_ascii_chars_encode_utf8};

verus! {

/// Whether the form-urlencoded byte serializer copies `byte` as it is:
/// the ASCII letters and digits and the four marks `*`, `-`, `.` and `_`.
pub open spec fn kept_byte(byte: u8) -> bool {
    ||| byte == 0x2a
    ||| byte == 0x2d
    ||| byte == 0x2e
    ||| byte == 0x5f
    ||| 0x30 <= byte <= 0x39
    ||| 0x41 <= byte <= 0x5a
    ||| 0x61 <= byte <= 0x7a
}

/// The upper-case hexadecimal digit of a value below sixteen.
pub open spec fn hex_upper(nibble: u8) -> char {
    if nibble < 10 {
        (0x30 + nibble) as u8 as char
    } else {
        (0x37 + nibble) as u8 as char
    }
}

/// What the byte serializer writes for one byte: the byte itself where it is
/// kept, `+` for a space, and otherwise `%` with two upper-case hex digits.
pub open spec fn encoded_byte(byte: u8) -> Seq<char> {
    if kept_byte(byte) {
        seq![byte as char]
    } else if byte == 0x20 {
        seq!['+']
    } else {
        seq!['%', hex_upper(byte / 16), hex_upper(byte % 16)]
    }
}

/// The serialization of a byte string, byte by byte.
pub open spec fn encoded_bytes(bytes: Seq<u8>) -> Seq<char>
    decreases bytes.len(),
{
    if bytes.len() == 0 {
        Seq::empty()
    } else {
        encoded_bytes(bytes.drop_last()) + encoded_byte(bytes.last())
    }
}

/// The serialization of a text: that of its UTF-8 bytes.
pub open spec fn form_encoded(text: Seq<char>) -> Seq<char> {
    encoded_bytes(encode_utf8(text))
}

/// Whether the serializer copies a character as it is: an ASCII letter or
/// digit, or one of the marks `*`, `-`, `.` and `_`.
pub open spec fn kept_char(c: char) -> bool {
    ||| c == '*'
    ||| c == '-'
    ||| c == '.'
    ||| c == '_'
    ||| '0' <= c <= '9'
    ||| 'A' <= c <= 'Z'
    ||| 'a' <= c <= 'z'
}

/// Whether a text holds kept characters only.
pub open spec fn kept_text(text: Seq<char>) -> bool {
    forall|i: int| 0 <= i < text.len() ==> kept_char(#[trigger] text[i])
}

proof fn lemma_kept_bytes(bytes: Seq<u8>)
    requires
        forall|i: int| 0 <= i < bytes.len() ==> kept_byte(#[trigger] bytes[i]),
    ensures
        encoded_bytes(bytes) == bytes.map_values(|b: u8| b as char),
    decreases bytes.len(),
{
    if bytes.len() > 0 {
        lemma_kept_bytes(bytes.drop_last());
    }
    assert(encoded_bytes(bytes) =~= bytes.map_values(|b: u8| b as char));
}

/// A text of letters, digits and the marks `*`, `-`, `.` and `_` is its own
/// serialization.
pub proof fn lemma_kept_text(text: Seq<char>)
    requires
        kept_text(text),
    ensures
        form_encoded(text) == text,
{
    assert forall|i: int| 0 <= i < text.len() implies '\0' <= #[trigger] text[i] <= '\u{7f}' by {
        assert(kept_char(text[i]));
    }
    is_ascii_chars_encode_utf8(text);
    let bytes = encode_utf8(text);
    assert forall|i: int| 0 <= i < bytes.len() implies kept_byte(#[trigger] bytes[i]) by {
        assert(kept_char(text[i]));
    }
    lemma_kept_bytes(bytes);
    assert forall|i: int| 0 <= i < text.len() implies bytes[i] as char == #[trigger] text[i] by {
        assert(kept_char(text[i]));
        assert(text[i] as u8 == bytes[i]);
    }
    assert(bytes.map_values(|b: u8| b as char) =~= text);
}

/// A query string with one more pair: `&` follows a non-empty query, then
/// come the encoded name, `=` and the encoded value.
pub open spec fn with_pair(query: Seq<char>, name: Seq<char>, value: Seq<char>) -> Seq<char> {
    (if query.len() > 0 {
        query.push('&')
    } else {
        query
    }) + form_encoded(name) + seq!['='] + form_encoded(value)
}

/// A pair of texts that hold kept characters only is appended as it stands.
pub proof fn lemma_kept_pair(query: Seq<char>, name: Seq<char>, value: Seq<char>)
    requires
        kept_text(name),
        kept_text(value),
    ensures
        query.len() == 0 ==> with_pair(query, name, value) == name + seq!['='] + value,
        query.len() > 0 ==> with_pair(query, name, value) == query + seq!['&'] + name + seq!['=']
            + value,
{
    lemma_kept_text(name);
    lemma_kept_text(value);
    if query.len() > 0 {
        assert(query.push('&') =~= query + seq!['&']);
    } else {
        assert(query + name =~= name);
    }
}

/// Calls `form_urlencoded::Serializer::append_pair` of the `url` crate on a
/// serializer made over `query` by `Serializer::new`, and takes the string
/// back with `finish`. Trusted: the serializer appends `&` where the target is
/// not empty, then the name, `=` and the value, each passed bytewise through
/// `byte_serialize`, which keeps `kept_byte` bytes, writes `+` for a space and
/// percent-encodes every other byte with upper-case digits.
#[verifier::external_body]
fn append_pair(query: String, name: &str, value: &str) -> (out: String)
    ensures
        out@ == with_pair(query@, name@, value@),
{
    url::form_urlencoded::Serializer::new(query).append_pair(name, value).finish()
}

/// The query string of a list of pairs, in their order.
pub open spec fn query_text(pairs: Seq<(Seq<char>, Seq<char>)>) -> Seq<char>
    decreases pairs.len(),
{
    if pairs.len() == 0 {
        Seq::empty()
    } else {
        with_pair(query_text(pairs.drop_last()), pairs.last().0, pairs.last().1)
    }
}

/// The pairs of an executable list, each text by its view.
pub open spec fn pair_views(pairs: Seq<(String, String)>) -> Seq<(Seq<char>, Seq<char>)> {
    pairs.map_values(|p: (String, String)| (p.0@, p.1@))
}

/// Serializes name/value pairs into a query string.
pub fn query_string(pairs: &Vec<(String, String)>) -> (out: String)
    ensures
        out@ == query_text(pair_views(pairs@)),
{
    let mut out = String::new();
    let mut i: usize = 0;
    while i < pairs.len()
        invariant
            i <= pairs.len(),
            out@ == query_text(pair_views(pairs@.take(i as int))),
        decreases pairs.len() - i,
    {
        let pair = &pairs[i];
        proof {
            let next = pair_views(pairs@.take(i + 1));
            assert(next.drop_last() =~= pair_views(pairs@.take(i as int)));
            assert(next.last() == (pair.0@, pair.1@));
        }
        out = append_pair(out, pair.0.as_str(), pair.1.as_str());
        i += 1;
    }
    proof {
        assert(pairs@.take(pairs.len() as int) =~= pairs@);
    }
    out
}

} // verus!

