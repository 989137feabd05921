//! Strings and the bytes that encode them.

use vstd::prelude::*;
use vstd::utf8::{
    encode_utf8, encode_utf8_decode_utf8, encode_utf8_valid_utf8, is_ascii_chars,
    is_ascii_chars_encode_utf8, valid_utf8,
};

verus! {

/// The characters that ASCII bytes stand for.
pub open spec fn ascii_text(bytes: Seq<u8>) -> Seq<char> {
    Seq::new(bytes.len(), |i: int| bytes[i] as char)
}

/// Whether all of some bytes are ASCII.
pub open spec fn is_ascii(bytes: Seq<u8>) -> bool {
    forall|i: int| 0 <= i < bytes.len() ==> #[trigger] bytes[i] < 128
}

/// Two texts with the same UTF-8 encoding are the same text.
pub proof fn lemma_encoding_is_injective(left: Seq<char>, right: Seq<char>)
    requires
        encode_utf8(left) == encode_utf8(right),
    ensures
        left == right,
{
    encode_utf8_decode_utf8(left);
    encode_utf8_decode_utf8(right);
}

/// ASCII bytes are the UTF-8 encoding of the characters they stand for, and
/// of no other text.
pub proof fn lemma_ascii_is_utf8(bytes: Seq<u8>)
    requires
        is_ascii(bytes),
    ensures
        valid_utf8(bytes),
        encode_utf8(ascii_text(bytes)) == bytes,
        forall|text: Seq<char>| encode_utf8(text) == bytes ==> text == ascii_text(bytes),
{
    let chars = ascii_text(bytes);
    assert(is_ascii_chars(chars));
    is_ascii_chars_encode_utf8(chars);
    assert forall|i: int| 0 <= i < bytes.len() implies encode_utf8(chars)[i] == bytes[i] by {
        assert(chars[i] as u8 == encode_utf8(chars)[i]);
        assert((bytes[i] as char) as u8 == bytes[i]);
    }
    assert(encode_utf8(chars) =~= bytes);
    encode_utf8_valid_utf8(chars);
    assert forall|text: Seq<char>| encode_utf8(text) == bytes implies text == chars by {
        lemma_encoding_is_injective(text, chars);
    }
}

/// `std::str::from_utf8`: the text that the bytes encode in UTF-8, and
/// nothing exactly when they are no UTF-8.
#[verifier::external_body]
pub(crate) fn text_of<'a>(bytes: &'a [u8]) -> (text: Option<&'a str>)
    ensures
        text matches Some(t) ==> encode_utf8(t@) == bytes@,
        text is None ==> !valid_utf8(bytes@),
{
    std::str::from_utf8(bytes).ok()
}

/// Whether two strings hold the same characters.
pub fn same_text(left: &str, right: &str) -> (same: bool)
    ensures
        same == (left@ == right@),
{
    let a = left.as_bytes();
    let b = right.as_bytes();
    if a.len() != b.len() {
        return false;
    }
    let mut at: usize = 0;
    while at < a.len()
        invariant
            at <= a@.len(),
            a@.len() == b@.len(),
            a@ == encode_utf8(left@),
            b@ == encode_utf8(right@),
            forall|i: int| 0 <= i < at ==> a@[i] == b@[i],
        decreases a@.len() - at,
    {
        if a[at] != b[at] {
            return false;
        }
        at += 1;
    }
    proof {
        assert(a@ =~= b@);
        lemma_encoding_is_injective(left@, right@);
    }
    true
}

/// The text that ASCII bytes stand for.
pub(crate) fn ascii_str<'a>(bytes: &'a [u8]) -> (text: &'a str)
    requires
        is_ascii(bytes@),
    ensures
        text@ == ascii_text(bytes@),
{
    proof {
        lemma_ascii_is_utf8(bytes@);
    }
    match text_of(bytes) {
        Some(text) => text,
        None => "",
    }
}

} // verus!
