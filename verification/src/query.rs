//! The URL of a lookup.
//!
//! The name travels as the one query parameter `name`. Every byte of its
//! UTF-8 form that is no letter, digit, `-`, `.`, `_` or `~` is written as
//! `%` and two upper-case hexadecimal digits, so that no character of a name
//! can end the parameter or start another.

use vstd::prelude::*;
use vstd::string::*;

verus! {

/// The data service of a local deployment, for callers that configure none.
pub const DEFAULT_BASE_URL: &'static str = "http://localhost:8080";

/// Whether a byte stands for itself in a query: an ASCII letter or digit,
/// `-`, `.`, `_` or `~`.
pub open spec fn is_unreserved(b: u8) -> bool {
    ||| 0x30 <= b <= 0x39
    ||| 0x41 <= b <= 0x5a
    ||| 0x61 <= b <= 0x7a
    ||| b == 0x2d
    ||| b == 0x2e
    ||| b == 0x5f
    ||| b == 0x7e
}

/// The upper-case hexadecimal digit of a number below sixteen.
pub open spec fn hex_digit(n: u8) -> char {
    if n < 10 {
        (0x30 + n) as char
    } else {
        (0x41 + n - 10) as char
    }
}

/// How one byte is written in a query.
pub open spec fn escaped(b: u8) -> Seq<char> {
    if is_unreserved(b) {
        seq![b as char]
    } else {
        seq!['%', hex_digit(b / 16), hex_digit(b % 16)]
    }
}

/// How a sequence of bytes is written in a query: byte by byte.
pub open spec fn percent_encoded(bytes: Seq<u8>) -> Seq<char>
    decreases bytes.len(),
{
    if bytes.len() == 0 {
        Seq::empty()
    } else {
        percent_encoded(bytes.drop_last()) + escaped(bytes.last())
    }
}

/// The URL that asks the service at `base` for `name`.
pub open spec fn query_url(base: Seq<char>, name: Seq<char>) -> Seq<char> {
    base + "/?name="@ + percent_encoded(vstd::utf8::encode_utf8(name))
}

/// A character that may stand in an encoded name.
pub open spec fn is_query_safe(c: char) -> bool {
    ||| '0' <= c <= '9'
    ||| 'A' <= c <= 'Z'
    ||| 'a' <= c <= 'z'
    ||| c == '-'
    ||| c == '.'
    ||| c == '_'
    ||| c == '~'
    ||| c == '%'
}

/// An encoded name holds letters, digits, `-`, `.`, `_`, `~` and `%` only,
/// whatever the name was.
pub proof fn lemma_encoded_is_safe(bytes: Seq<u8>)
    ensures
        forall|i: int|
            0 <= i < percent_encoded(bytes).len() ==> is_query_safe(
                #[trigger] percent_encoded(bytes)[i],
            ),
    decreases bytes.len(),
{
    if bytes.len() > 0 {
        lemma_encoded_is_safe(bytes.drop_last());
        let head = percent_encoded(bytes.drop_last());
        let e = escaped(bytes.last());
        assert forall|i: int| 0 <= i < percent_encoded(bytes).len() implies is_query_safe(
            #[trigger] percent_encoded(bytes)[i],
        ) by {
            if i < head.len() {
                assert(percent_encoded(bytes)[i] == head[i]);
            } else {
                assert(percent_encoded(bytes)[i] == e[i - head.len()]);
            }
        }
    }
}

/// The number that an upper-case hexadecimal digit stands for.
pub open spec fn hex_value(c: char) -> Option<u8> {
    if '0' <= c <= '9' {
        Some((c as u32 - 0x30) as u8)
    } else if 'A' <= c <= 'F' {
        Some((c as u32 - 0x41 + 10) as u8)
    } else {
        None
    }
}

/// The bytes that a query text stands for: `%` and two hexadecimal digits
/// are one byte, every other ASCII character is itself. `None` where a `%`
/// lacks its digits or a character is beyond ASCII.
pub open spec fn percent_decoded(text: Seq<char>) -> Option<Seq<u8>>
    decreases text.len(),
{
    if text.len() == 0 {
        Some(Seq::empty())
    } else if text[0] == '%' {
        if text.len() >= 3 && hex_value(text[1]) is Some && hex_value(text[2]) is Some {
            match percent_decoded(text.skip(3)) {
                Some(rest) => Some(
                    seq![(hex_value(text[1])->0 * 16 + hex_value(text[2])->0) as u8] + rest,
                ),
                None => None,
            }
        } else {
            None
        }
    } else if (text[0] as u32) < 128 {
        match percent_decoded(text.skip(1)) {
            Some(rest) => Some(seq![text[0] as u8] + rest),
            None => None,
        }
    } else {
        None
    }
}

/// Encoding goes byte by byte from the front as well as from the back.
proof fn lemma_encoded_front(b: u8, rest: Seq<u8>)
    ensures
        percent_encoded(seq![b] + rest) == escaped(b) + percent_encoded(rest),
    decreases rest.len(),
{
    let all = seq![b] + rest;
    if rest.len() == 0 {
        assert(percent_encoded(all.drop_last()) =~= Seq::<char>::empty());
    } else {
        lemma_encoded_front(b, rest.drop_last());
        assert(all.drop_last() =~= seq![b] + rest.drop_last());
    }
}

/// Decoding takes back what encoding wrote for one byte.
proof fn lemma_decoded_front(b: u8, text: Seq<char>)
    ensures
        percent_decoded(escaped(b) + text) == match percent_decoded(text) {
            Some(rest) => Some(seq![b] + rest),
            None => None,
        },
{
    let all = escaped(b) + text;
    if is_unreserved(b) {
        assert(all.skip(1) =~= text);
    } else {
        assert(all.skip(3) =~= text);
    }
}

/// A name can be read back from its encoded form: decoding what encoding
/// wrote gives the bytes that were encoded, so no two names share a URL.
pub proof fn lemma_encoding_reads_back(bytes: Seq<u8>)
    ensures
        percent_decoded(percent_encoded(bytes)) == Some(bytes),
    decreases bytes.len(),
{
    if bytes.len() > 0 {
        let b = bytes[0];
        let rest = bytes.drop_first();
        assert(bytes =~= seq![b] + rest);
        lemma_encoded_front(b, rest);
        lemma_decoded_front(b, percent_encoded(rest));
        lemma_encoding_reads_back(rest);
    }
}

fn hex(n: u8) -> (c: char)
    requires
        n < 16,
    ensures
        c == hex_digit(n),
{
    if n < 10 {
        (0x30 + n) as char
    } else {
        (0x41 + n - 10) as char
    }
}

fn unreserved(b: u8) -> (r: bool)
    ensures
        r == is_unreserved(b),
{
    (0x30 <= b && b <= 0x39) || (0x41 <= b && b <= 0x5a) || (0x61 <= b && b <= 0x7a) || b == 0x2d
        || b == 0x2e || b == 0x5f || b == 0x7e
}

/// Appends the encoded form of `text` to `out`.
fn append_encoded(out: &mut String, text: &str)
    ensures
        final(out)@ == old(out)@ + percent_encoded(text.spec_bytes()),
{
    let bytes = text.as_bytes();
    let mut i: usize = 0;
    while i < bytes.len()
        invariant
            i <= bytes@.len(),
            bytes@ == text.spec_bytes(),
            out@ == old(out)@ + percent_encoded(bytes@.take(i as int)),
        decreases bytes@.len() - i,
    {
        let b = bytes[i];
        if unreserved(b) {
            out.push(b as char);
        } else {
            out.push('%');
            out.push(hex(b / 16));
            out.push(hex(b % 16));
        }
        proof {
            assert(bytes@.take(i + 1).drop_last() =~= bytes@.take(i as int));
        }
        i += 1;
    }
    proof {
        assert(bytes@.take(bytes@.len() as int) =~= bytes@);
    }
}

/// Writes a name as it stands in a query.
pub fn percent_encode(name: &str) -> (encoded: String)
    ensures
        encoded@ == percent_encoded(name.spec_bytes()),
{
    let mut encoded = String::new();
    append_encoded(&mut encoded, name);
    encoded
}

/// Builds the URL that asks the service at `base` for `name`: the base, the
/// path `/`, and the parameter `name` with the encoded name.
pub fn lookup_url(base: &str, name: &str) -> (url: String)
    ensures
        url@ == query_url(base@, name@),
{
    let mut url = String::from_str(base);
    url.append("/?name=");
    append_encoded(&mut url, name);
    url
}

} // verus!
