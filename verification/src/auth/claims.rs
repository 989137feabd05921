//! The principal of an authenticated request.

use serde_json::Value;
use vstd::prelude::*;

use crate::auth::credential::{credential, header_view, is_bearer_credential, presented_token};
use crate::auth::jwks::{JwkView, JWKS};
use crate::auth::{authenticate, authentication, fetched_view};
use crate::error::AuthError;
use crate::json::{integer_member, json_of, optional_text_member, text_member, text_view, Json};

verus! {

/// The claims of a verified token: who issued it, for whom and until when.
#[derive(Debug)]
pub struct Claims {
    /// The issuer of the token.
    pub iss: String,
    /// The subject: the principal on whose behalf the request acts.
    pub sub: String,
    /// The audience that the token is meant for.
    pub aud: String,
    /// When the token was issued, in seconds since the Unix epoch.
    pub iat: i64,
    /// When the token expires, in seconds since the Unix epoch.
    pub exp: i64,
    /// The party that the token was issued to, where it is given.
    pub azp: Option<String>,
    /// The grant by which the token was obtained, where it is given.
    pub gty: Option<String>,
}

/// Claims as a mathematical value.
pub ghost struct ClaimsView {
    pub iss: Seq<char>,
    pub sub: Seq<char>,
    pub aud: Seq<char>,
    pub iat: int,
    pub exp: int,
    pub azp: Option<Seq<char>>,
    pub gty: Option<Seq<char>>,
}

impl View for Claims {
    type V = ClaimsView;

    open spec fn view(&self) -> ClaimsView {
        ClaimsView {
            iss: self.iss@,
            sub: self.sub@,
            aud: self.aud@,
            iat: self.iat as int,
            exp: self.exp as int,
            azp: text_view(self.azp),
            gty: text_view(self.gty),
        }
    }
}

/// Whether a document has the shape of claims: issuer, subject and audience
/// are strings, the two timestamps are integers, and the authorized party and
/// the grant type are strings where they are given.
pub open spec fn is_claims(document: Json) -> bool {
    &&& document.text_member("iss"@) is Some
    &&& document.text_member("sub"@) is Some
    &&& document.text_member("aud"@) is Some
    &&& document.integer_member("iat"@) is Some
    &&& document.integer_member("exp"@) is Some
    &&& document.optional_text_member("azp"@) is Some
    &&& document.optional_text_member("gty"@) is Some
}

/// The claims that a document holds, if it has their shape.
pub open spec fn claims_of(document: Json) -> Option<ClaimsView> {
    if is_claims(document) {
        Some(
            ClaimsView {
                iss: document.text_member("iss"@)->0,
                sub: document.text_member("sub"@)->0,
                aud: document.text_member("aud"@)->0,
                iat: document.integer_member("iat"@)->0,
                exp: document.integer_member("exp"@)->0,
                azp: document.optional_text_member("azp"@)->0,
                gty: document.optional_text_member("gty"@)->0,
            },
        )
    } else {
        None
    }
}

/// The view of the outcome of an authentication.
pub open spec fn outcome_view(outcome: Result<Claims, AuthError>) -> Result<ClaimsView, AuthError> {
    match outcome {
        Ok(claims) => Ok(claims@),
        Err(e) => Err(e),
    }
}

/// What extracting the principal of a request comes to at the time `now`:
/// the request must present a bearer token, the process must hold a key set,
/// and the token must authenticate against it.
pub open spec fn extraction(
    authorization: Option<Seq<u8>>,
    key_set: Option<Seq<JwkView>>,
    now: int,
) -> Result<ClaimsView, AuthError> {
    match presented_token(authorization) {
        Err(e) => Err(e),
        Ok(token) => match key_set {
            None => Err(AuthError::AuthorityUnavailable),
            Some(keys) => authentication(keys, token, now),
        },
    }
}

/// A request that yields no principal is answered with the status of its
/// failure: forbidden where it has no header, a bad request where its header
/// is no bearer credential, a server error where the process holds no key
/// set, and forbidden where its token does not authenticate.
pub proof fn lemma_failed_extraction_status(
    authorization: Option<Seq<u8>>,
    key_set: Option<Seq<JwkView>>,
    now: int,
)
    ensures
        authorization is None ==> extraction(authorization, key_set, now) == Err::<
            ClaimsView,
            AuthError,
        >(AuthError::MissingCredential) && AuthError::MissingCredential.status() == 403,
        authorization matches Some(value) && value.len() > 0 && !is_bearer_credential(value)
            ==> extraction(authorization, key_set, now) == Err::<ClaimsView, AuthError>(
            AuthError::MalformedCredential,
        ) && AuthError::MalformedCredential.status() == 400,
        extraction(authorization, key_set, now) matches Err(e) ==> e.status() == (if e
            == AuthError::MalformedCredential {
            400int
        } else if e == AuthError::AuthorityUnavailable {
            500int
        } else {
            403int
        }),
        extraction(authorization, key_set, now) matches Err(e) && e
            == AuthError::AuthorityUnavailable ==> key_set is None,
{
}

impl Claims {
    /// Extracts the principal of a request at the time `now`, in seconds
    /// since the Unix epoch, from its `Authorization` header, if it has one,
    /// and from the key set that the process holds, if it holds one.
    pub fn from_request(
        authorization: Option<&[u8]>,
        key_set: Option<&JWKS>,
        now: i64,
    ) -> (outcome: Result<Claims, AuthError>)
        ensures
            outcome_view(outcome) == extraction(
                header_view(authorization),
                fetched_view(key_set),
                now as int,
            ),
    {
        let token = match credential(authorization) {
            Err(e) => { return Err(e); },
            Ok(token) => token,
        };
        match key_set {
            None => Err(AuthError::AuthorityUnavailable),
            Some(jwks) => authenticate(token, jwks, now),
        }
    }

    /// Reads claims from a JSON document; there are none where a required
    /// member is missing or a member has the wrong type.
    pub fn from_json(document: &Value) -> (claims: Option<Claims>)
        ensures
            match claims {
                Some(c) => claims_of(json_of(*document)) == Some(c@),
                None => claims_of(json_of(*document)) is None,
            },
    {
        let iss = text_member(document, "iss")?;
        let sub = text_member(document, "sub")?;
        let aud = text_member(document, "aud")?;
        let iat = integer_member(document, "iat")?;
        let exp = integer_member(document, "exp")?;
        let azp = optional_text_member(document, "azp")?;
        let gty = optional_text_member(document, "gty")?;
        Some(Claims { iss, sub, aud, iat, exp, azp, gty })
    }
}

} // verus!
