//! What the todo list asks of its document store, and what it makes of the
//! store's answers.

use vstd::prelude::*;
use vstd::utf8::{encode_utf8, is_ascii_chars, is_ascii_chars_encode_utf8};

use crate::text::{ascii_text, lemma_ascii_is_utf8};

verus! {

/// Whether a character is a hexadecimal digit, in either case.
pub open spec fn is_hex_digit(c: char) -> bool {
    ('0' <= c && c <= '9') || ('a' <= c && c <= 'f') || ('A' <= c && c <= 'F')
}

/// The number that a hexadecimal digit stands for.
pub open spec fn hex_value(c: char) -> int {
    if '0' <= c && c <= '9' {
        c as int - '0' as int
    } else if 'a' <= c && c <= 'f' {
        c as int - 'a' as int + 10
    } else {
        c as int - 'A' as int + 10
    }
}

/// Whether a text names a document: 24 hexadecimal digits.
pub open spec fn is_object_id(id: Seq<char>) -> bool {
    id.len() == 24 && forall|i: int| 0 <= i < 24 ==> is_hex_digit(#[trigger] id[i])
}

/// The twelve bytes that such a text stands for, two digits to a byte.
pub open spec fn object_id_bytes(id: Seq<char>) -> Seq<u8>
    recommends
        is_object_id(id),
{
    Seq::new(12, |i: int| (16 * hex_value(id[2 * i]) + hex_value(id[2 * i + 1])) as u8)
}

/// The identifier that a text names, if it names one.
pub open spec fn named_id(id: Seq<char>) -> Option<Seq<u8>> {
    if is_object_id(id) {
        Some(object_id_bytes(id))
    } else {
        None
    }
}

/// The view of an identifier that may be missing.
pub open spec fn id_view(id: Option<[u8; 12]>) -> Option<Seq<u8>> {
    match id {
        Some(bytes) => Some(bytes@),
        None => None,
    }
}

/// Whether a byte is the ASCII code of a hexadecimal digit.
pub open spec fn is_hex_byte(byte: u8) -> bool {
    (0x30 <= byte && byte <= 0x39) || (0x61 <= byte && byte <= 0x66) || (0x41 <= byte && byte
        <= 0x46)
}

/// The number that a hexadecimal digit stands for, given its ASCII code.
pub fn hex_digit(byte: u8) -> (value: Option<u8>)
    ensures
        match value {
            Some(v) => is_hex_byte(byte) && v == hex_value(byte as char) && v < 16,
            None => !is_hex_byte(byte),
        },
{
    if 0x30 <= byte && byte <= 0x39 {
        Some(byte - 0x30)
    } else if 0x61 <= byte && byte <= 0x66 {
        Some(byte - 0x61 + 10)
    } else if 0x41 <= byte && byte <= 0x46 {
        Some(byte - 0x41 + 10)
    } else {
        None
    }
}

/// A text of hexadecimal digits is encoded by their ASCII codes, and a text
/// that ASCII codes of hexadecimal digits encode is made of those digits.
proof fn lemma_hex_text(id: Seq<char>)
    ensures
        is_object_id(id) ==> encode_utf8(id).len() == 24 && forall|i: int|
            0 <= i < 24 ==> is_hex_byte(#[trigger] encode_utf8(id)[i]),
        (forall|i: int| 0 <= i < encode_utf8(id).len() ==> is_hex_byte(#[trigger] encode_utf8(id)[i]))
            ==> id == ascii_text(encode_utf8(id)),
{
    if is_object_id(id) {
        assert(is_ascii_chars(id));
        is_ascii_chars_encode_utf8(id);
        assert forall|i: int| 0 <= i < 24 implies is_hex_byte(#[trigger] encode_utf8(id)[i]) by {
            assert(is_hex_digit(id[i]));
            assert(id[i] as u8 == encode_utf8(id)[i]);
        }
    }
    if forall|i: int| 0 <= i < encode_utf8(id).len() ==> is_hex_byte(#[trigger] encode_utf8(id)[i]) {
        lemma_ascii_is_utf8(encode_utf8(id));
    }
}

/// The document that a request for one item, or for its deletion, names;
/// none where the text names no document, and the store is then not asked.
pub fn document_id(id: &str) -> (document: Option<[u8; 12]>)
    ensures
        id_view(document) == named_id(id@),
{
    let bytes = id.as_bytes();
    proof {
        lemma_hex_text(id@);
    }
    if bytes.len() != 24 {
        return None;
    }
    let mut document: [u8; 12] = [0u8; 12];
    let mut at: usize = 0;
    while at < 12
        invariant
            at <= 12,
            bytes@.len() == 24,
            bytes@ == encode_utf8(id@),
            forall|j: int| 0 <= j < 2 * at ==> is_hex_byte(#[trigger] bytes@[j]),
            forall|j: int|
                0 <= j < at ==> #[trigger] document@[j] == 16 * hex_value(bytes@[2 * j] as char)
                    + hex_value(bytes@[2 * j + 1] as char),
            is_object_id(id@) ==> forall|i: int| 0 <= i < 24 ==> is_hex_byte(#[trigger] bytes@[i]),
        decreases 12 - at,
    {
        let high = match hex_digit(bytes[2 * at]) {
            Some(high) => high,
            None => { return None; },
        };
        let low = match hex_digit(bytes[2 * at + 1]) {
            Some(low) => low,
            None => { return None; },
        };
        document[at] = high * 16 + low;
        at += 1;
    }
    proof {
        assert(id@ == ascii_text(bytes@));
        assert(is_object_id(id@));
        assert(document@ =~= object_id_bytes(id@));
    }
    Some(document)
}

/// How many items a page of the list holds at most.
pub const PAGE_LIMIT: i64 = 1;

/// A page of the list: the items after `after`, or from the start where
/// there is none, and at most `limit` of them.
#[derive(Debug)]
pub struct Page {
    pub after: Option<[u8; 12]>,
    pub limit: i64,
}

/// What a deletion comes to, given how many documents the store deleted:
/// that number, or nothing where it deleted none.
pub fn deleted(deleted_count: i64) -> (count: Option<i64>)
    ensures
        count == if deleted_count < 1 {
            None
        } else {
            Some(deleted_count)
        },
{
    if deleted_count < 1 {
        None
    } else {
        Some(deleted_count)
    }
}

/// The page that a request asks the store for: the first one where it names
/// no last item, the one after that item where it names one; none where what
/// it names is no document.
pub fn list(last_id: Option<&str>) -> (page: Option<Page>)
    ensures
        match last_id {
            None => page matches Some(p) && p.after is None && p.limit == PAGE_LIMIT,
            Some(id) => match named_id(id@) {
                Some(bytes) => page matches Some(p) && id_view(p.after) == Some(bytes) && p.limit
                    == PAGE_LIMIT,
                None => page is None,
            },
        },
{
    match last_id {
        None => Some(Page { after: None, limit: PAGE_LIMIT }),
        Some(id) => match document_id(id) {
            Some(bytes) => Some(Page { after: Some(bytes), limit: PAGE_LIMIT }),
            None => None,
        },
    }
}

/// The items of `results` that were read, in their order: those that the
/// store failed to read are left out.
pub open spec fn read_items<T, E>(results: Seq<Result<T, E>>) -> Seq<T>
    decreases results.len(),
{
    if results.len() == 0 {
        Seq::empty()
    } else {
        let rest = read_items(results.drop_last());
        match results.last() {
            Ok(item) => rest.push(item),
            Err(_) => rest,
        }
    }
}

/// Keeps the items that the store read and leaves out its failures.
pub fn listed<T, E>(results: Vec<Result<T, E>>) -> (items: Vec<T>)
    ensures
        items@ == read_items(results@),
{
    let ghost all = results@;
    let mut kept: Vec<T> = Vec::new();
    for result in iter: results
        invariant
            iter.seq() == all,
            kept@ == read_items(all.subrange(0, iter.index() as int)),
    {
        proof {
            let next = all.subrange(0, iter.index() + 1);
            assert(next.drop_last() == all.subrange(0, iter.index() as int));
            assert(next.last() == result);
        }
        match result {
            Ok(item) => {
                kept.push(item);
            },
            Err(_) => {},
        }
    }
    assert(all.subrange(0, all.len() as int) == all);
    kept
}

} // verus!
