//! The credential of a request: an `Authorization` header of the form
//! `Bearer <token>`.

use vstd::prelude::*;
use vstd::slice::slice_subrange;

use crate::error::AuthError;
use crate::text::{ascii_str, ascii_text, is_ascii};

verus! {

/// The scheme of a bearer credential with the space that ends it: `Bearer `.
pub open spec fn scheme() -> Seq<u8> {
    seq![0x42u8, 0x65u8, 0x61u8, 0x72u8, 0x65u8, 0x72u8, 0x20u8]
}

/// Whether a byte is a visible ASCII character, a space or a tab: the bytes
/// of a header value that is text.
pub open spec fn is_visible_ascii(byte: u8) -> bool {
    (32 <= byte && byte < 127) || byte == 9
}

/// Whether a header value is text.
pub open spec fn is_text(value: Seq<u8>) -> bool {
    forall|i: int| 0 <= i < value.len() ==> is_visible_ascii(#[trigger] value[i])
}

/// Whether `part` stands in `whole` at the position `at`.
pub open spec fn occurs_at(whole: Seq<u8>, part: Seq<u8>, at: int) -> bool {
    &&& 0 <= at
    &&& at + part.len() <= whole.len()
    &&& whole.subrange(at, at + part.len()) == part
}

/// Whether `part` stands somewhere in `whole`.
pub open spec fn occurs(whole: Seq<u8>, part: Seq<u8>) -> bool {
    exists|at: int| occurs_at(whole, part, at)
}

/// What follows the scheme in a header value.
pub open spec fn after_scheme(value: Seq<u8>) -> Seq<u8> {
    value.subrange(scheme().len() as int, value.len() as int)
}

/// Whether a header value is a bearer credential: text that starts with the
/// scheme, followed by a token that is not empty and does not hold the scheme
/// again.
pub open spec fn is_bearer_credential(value: Seq<u8>) -> bool {
    &&& is_text(value)
    &&& value.len() > scheme().len()
    &&& occurs_at(value, scheme(), 0)
    &&& !occurs(after_scheme(value), scheme())
}

/// The token that a request presents, or the reason why it presents none: a
/// header that is absent or empty is a missing credential; one that is no
/// bearer credential is a malformed one.
pub open spec fn presented_token(authorization: Option<Seq<u8>>) -> Result<Seq<char>, AuthError> {
    match authorization {
        None => Err(AuthError::MissingCredential),
        Some(value) => if value.len() == 0 {
            Err(AuthError::MissingCredential)
        } else if is_bearer_credential(value) {
            Ok(ascii_text(after_scheme(value)))
        } else {
            Err(AuthError::MalformedCredential)
        },
    }
}

/// The bytes of an optional header value.
pub open spec fn header_view(authorization: Option<&[u8]>) -> Option<Seq<u8>> {
    match authorization {
        Some(value) => Some(value@),
        None => None,
    }
}

/// A token that is text, is not empty and does not hold the scheme makes a
/// bearer credential when it is put behind the scheme, and it is the token
/// that is read back from that credential.
pub proof fn lemma_credential_of_token(token: Seq<u8>)
    requires
        token.len() > 0,
        is_text(token),
        !occurs(token, scheme()),
    ensures
        is_bearer_credential(scheme() + token),
        after_scheme(scheme() + token) == token,
        presented_token(Some(scheme() + token)) == Ok::<Seq<char>, AuthError>(ascii_text(token)),
{
    let value = scheme() + token;
    assert(after_scheme(value) =~= token);
    assert(value.subrange(0, scheme().len() as int) =~= scheme());
    assert forall|i: int| 0 <= i < value.len() implies is_visible_ascii(#[trigger] value[i]) by {
        if i >= scheme().len() {
            assert(value[i] == token[i - scheme().len()]);
        }
    }
}

/// Whether every byte of a header value is text.
pub fn is_text_value(value: &[u8]) -> (text: bool)
    ensures
        text == is_text(value@),
{
    let mut at: usize = 0;
    while at < value.len()
        invariant
            at <= value@.len(),
            forall|i: int| 0 <= i < at ==> is_visible_ascii(#[trigger] value@[i]),
        decreases value@.len() - at,
    {
        let byte = value[at];
        if !((32 <= byte && byte < 127) || byte == 9) {
            return false;
        }
        at += 1;
    }
    true
}

/// Whether the scheme stands in `value` at the position `at`.
pub fn scheme_at(value: &[u8], at: usize) -> (found: bool)
    ensures
        found == occurs_at(value@, scheme(), at as int),
{
    if value.len() < 7 || at > value.len() - 7 {
        return false;
    }
    let found = value[at] == 0x42 && value[at + 1] == 0x65 && value[at + 2] == 0x61 && value[at
        + 3] == 0x72 && value[at + 4] == 0x65 && value[at + 5] == 0x72 && value[at + 6] == 0x20;
    proof {
        let part = value@.subrange(at as int, at + 7);
        if found {
            assert(part =~= scheme());
        } else {
            assert(part[0] == value@[at as int]);
            assert(part[1] == value@[at + 1]);
            assert(part[2] == value@[at + 2]);
            assert(part[3] == value@[at + 3]);
            assert(part[4] == value@[at + 4]);
            assert(part[5] == value@[at + 5]);
            assert(part[6] == value@[at + 6]);
        }
    }
    found
}

/// Whether the scheme stands somewhere in `value`.
pub fn holds_scheme(value: &[u8]) -> (found: bool)
    ensures
        found == occurs(value@, scheme()),
{
    let mut at: usize = 0;
    while at < value.len()
        invariant
            at <= value@.len(),
            forall|j: int| 0 <= j < at ==> !occurs_at(value@, scheme(), j),
        decreases value@.len() - at,
    {
        if scheme_at(value, at) {
            return true;
        }
        at += 1;
    }
    false
}

/// Reads the token of a bearer credential from a header value.
pub fn bearer_token<'a>(value: &'a [u8]) -> (token: Result<&'a str, AuthError>)
    ensures
        match token {
            Ok(t) => is_bearer_credential(value@) && t@ == ascii_text(after_scheme(value@)),
            Err(e) => e == AuthError::MalformedCredential && !is_bearer_credential(value@),
        },
{
    if !is_text_value(value) || value.len() <= 7 || !scheme_at(value, 0) {
        return Err(AuthError::MalformedCredential);
    }
    let rest = slice_subrange(value, 7, value.len());
    if holds_scheme(rest) {
        return Err(AuthError::MalformedCredential);
    }
    assert(is_ascii(rest@)) by {
        assert forall|i: int| 0 <= i < rest@.len() implies #[trigger] rest@[i] < 128 by {
            assert(is_visible_ascii(value@[i + 7]));
        }
    }
    Ok(ascii_str(rest))
}

/// Reads the token that a request presents in its `Authorization` header.
pub fn credential<'a>(authorization: Option<&'a [u8]>) -> (token: Result<&'a str, AuthError>)
    ensures
        match token {
            Ok(t) => presented_token(header_view(authorization)) == Ok::<Seq<char>, AuthError>(t@),
            Err(e) => presented_token(header_view(authorization)) == Err::<Seq<char>, AuthError>(e),
        },
{
    match authorization {
        None => Err(AuthError::MissingCredential),
        Some(value) => {
            if value.len() == 0 {
                Err(AuthError::MissingCredential)
            } else {
                bearer_token(value)
            }
        },
    }
}

} // verus!
