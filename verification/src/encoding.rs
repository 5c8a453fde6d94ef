//! Percent-encoding of query keys and values.

use vstd::prelude::*;

verus! {

/// The bytes that percent-encoding leaves as they are: ASCII letters and
/// digits, `-`, `.`, `_` and `~`.
pub open spec fn is_unreserved(b: u8) -> bool {
    (0x30 <= b <= 0x39) || (0x41 <= b <= 0x5A) || (0x61 <= b <= 0x7A) || b == 0x2D || b == 0x2E
        || b == 0x5F || b == 0x7E
}

/// The upper-case hexadecimal digit of `d`.
pub open spec fn hex_upper(d: u8) -> char
    recommends
        d < 16,
{
    if d < 10 {
        (0x30 + d) as char
    } else {
        (0x41 + d - 10) as char
    }
}

/// One byte, percent-encoded: itself where it is unreserved, otherwise
/// `%` and its two hexadecimal digits.
pub open spec fn percent_encode_byte(b: u8) -> Seq<char> {
    if is_unreserved(b) {
        seq![b as char]
    } else {
        seq!['%', hex_upper(b / 16), hex_upper(b % 16)]
    }
}

/// The percent-encoding of a run of bytes.
pub open spec fn percent_encode_bytes(bytes: Seq<u8>) -> Seq<char>
    decreases bytes.len(),
{
    if bytes.len() == 0 {
        Seq::empty()
    } else {
        percent_encode_bytes(bytes.drop_last()) + percent_encode_byte(bytes.last())
    }
}

/// The percent-encoding of a text: that of its UTF-8 bytes.
pub open spec fn percent_encoded(s: Seq<char>) -> Seq<char> {
    percent_encode_bytes(vstd::utf8::encode_utf8(s))
}

/// The characters that an encoded text is made of: ASCII letters and
/// digits, `-`, `.`, `_`, `~`, and `%`.
pub open spec fn is_plain(c: char) -> bool {
    let n = c as u32;
    (0x30 <= n <= 0x39) || (0x41 <= n <= 0x5A) || (0x61 <= n <= 0x7A) || n == 0x2D || n == 0x2E
        || n == 0x5F || n == 0x7E || n == 0x25
}

/// An encoded run of bytes is made of plain characters only.
pub proof fn lemma_encoded_bytes_are_plain(bytes: Seq<u8>)
    ensures
        forall|i: int|
            0 <= i < percent_encode_bytes(bytes).len() ==> is_plain(
                #[trigger] percent_encode_bytes(bytes)[i],
            ),
    decreases bytes.len(),
{
    if bytes.len() > 0 {
        lemma_encoded_bytes_are_plain(bytes.drop_last());
        let head = percent_encode_bytes(bytes.drop_last());
        let b = bytes.last();
        let tail = percent_encode_byte(b);
        assert forall|j: int| 0 <= j < tail.len() implies is_plain(#[trigger] tail[j]) by {
            if !is_unreserved(b) {
                assert(b / 16 < 16 && b % 16 < 16);
            }
        }
        assert forall|i: int| 0 <= i < percent_encode_bytes(bytes).len() implies is_plain(
            #[trigger] percent_encode_bytes(bytes)[i],
        ) by {
            if i < head.len() {
                assert(percent_encode_bytes(bytes)[i] == head[i]);
            } else {
                assert(percent_encode_bytes(bytes)[i] == tail[i - head.len()]);
            }
        }
    }
}

/// An encoded text is made of plain characters only. So it holds none of
/// `?`, `&`, `=`, `#`, no space and no line break, whatever the text was,
/// and a query string falls apart at its `&` and `=` in one way only.
pub proof fn lemma_encoded_text_is_plain(s: Seq<char>)
    ensures
        forall|i: int|
            0 <= i < percent_encoded(s).len() ==> is_plain(#[trigger] percent_encoded(s)[i]),
        !percent_encoded(s).contains('?'),
        !percent_encoded(s).contains('&'),
        !percent_encoded(s).contains('='),
        !percent_encoded(s).contains('#'),
        !percent_encoded(s).contains(' '),
        !percent_encoded(s).contains('\n'),
{
    lemma_encoded_bytes_are_plain(vstd::utf8::encode_utf8(s));
}

/// `urlencoding::encode` percent-encodes every byte of the text's UTF-8
/// form except ASCII letters, digits, `-`, `.`, `_` and `~`, with upper-case
/// hexadecimal digits.
#[verifier::external_body]
pub(crate) fn url_encode(s: &str) -> (r: String)
    ensures
        r@ == percent_encoded(s@),
{
    urlencoding::encode(s).into_owned()
}

} // verus!
