//! Verification of bearer tokens against the key set of a trusted authority,
//! and the guard that stands before a group of protected routes.

pub mod claims;
pub mod credential;
pub mod jwks;
pub mod token;

use vstd::prelude::*;

use crate::auth::claims::{outcome_view, Claims, ClaimsView};
use crate::auth::credential::{credential, header_view, presented_token};
use crate::auth::jwks::{
    get_jwk_for_token, has_key, key_for_header, lemma_selection, JwkView, JWKS,
};
use crate::auth::token::{
    claims_under, declared_algorithm, encoded_header, verification, verify_token,
    SignatureAlgorithm,
};
use crate::error::AuthError;
use crate::text::same_text;

verus! {

/// What authenticating `token` against `keys` at the time `now` comes to: a
/// token for which no key is selected ends in `UnknownSigningKey`; any other
/// ends as its verification with the selected key does.
pub open spec fn authentication(keys: Seq<JwkView>, token: Seq<char>, now: int) -> Result<
    ClaimsView,
    AuthError,
> {
    match key_for_header(keys, encoded_header(token)) {
        None => Err(AuthError::UnknownSigningKey),
        Some(key) => verification(token, key, now),
    }
}

/// A token that names a key which the key set does not hold ends in
/// `UnknownSigningKey`, which is answered as forbidden.
pub proof fn lemma_unknown_key_is_forbidden(keys: Seq<JwkView>, token: Seq<char>, now: int)
    requires
        encoded_header(token) is Some,
        !has_key(keys, encoded_header(token)->0.key_id()),
    ensures
        authentication(keys, token, now) == Err::<ClaimsView, AuthError>(
            AuthError::UnknownSigningKey,
        ),
        AuthError::UnknownSigningKey.status() == 403,
{
    lemma_selection(keys, encoded_header(token)->0.key_id());
}

/// A token that has expired ends in `InvalidSignatureOrClaims`, though the
/// key set holds its key, its signature is that of the key and its claims are
/// well formed.
pub proof fn lemma_expired_token_is_rejected(keys: Seq<JwkView>, token: Seq<char>, now: int)
    requires
        key_for_header(keys, encoded_header(token)) is Some,
        claims_under(token, key_for_header(keys, encoded_header(token))->0) is Some,
        claims_under(token, key_for_header(keys, encoded_header(token))->0)->0.exp < now,
    ensures
        authentication(keys, token, now) == Err::<ClaimsView, AuthError>(
            AuthError::InvalidSignatureOrClaims,
        ),
{
}

/// A token that declares another algorithm than RS256 is refused even where
/// the key set holds the key that it names.
pub proof fn lemma_other_algorithm_is_rejected(keys: Seq<JwkView>, token: Seq<char>, now: int)
    requires
        declared_algorithm(token) != Some(SignatureAlgorithm::RS256),
    ensures
        authentication(keys, token, now) is Err,
        encoded_header(token) matches Some(header) && has_key(keys, header.key_id())
            ==> authentication(keys, token, now) == Err::<ClaimsView, AuthError>(
            AuthError::InvalidSignatureOrClaims,
        ),
{
    if encoded_header(token) is Some {
        lemma_selection(keys, encoded_header(token)->0.key_id());
    }
}

/// A token that names a key of the key set, declares RS256 and holds, under
/// that key, claims that have not expired yields exactly those claims.
pub proof fn lemma_valid_token_yields_its_claims(keys: Seq<JwkView>, token: Seq<char>, now: int)
    requires
        key_for_header(keys, encoded_header(token)) is Some,
        claims_under(token, key_for_header(keys, encoded_header(token))->0) is Some,
        claims_under(token, key_for_header(keys, encoded_header(token))->0)->0.exp >= now,
    ensures
        authentication(keys, token, now) == Ok::<ClaimsView, AuthError>(
            claims_under(token, key_for_header(keys, encoded_header(token))->0)->0,
        ),
{
}

/// Two tokens that name different keys of one key set each resolve to the
/// key that they name; the two keys differ; and each token authenticates as
/// the verification with its own key decides, whatever becomes of the other.
pub proof fn lemma_two_tokens_of_two_keys(
    keys: Seq<JwkView>,
    first: Seq<char>,
    second: Seq<char>,
    now: int,
)
    requires
        encoded_header(first) is Some,
        encoded_header(second) is Some,
        encoded_header(first)->0.key_id() != encoded_header(second)->0.key_id(),
        has_key(keys, encoded_header(first)->0.key_id()),
        has_key(keys, encoded_header(second)->0.key_id()),
    ensures
        key_for_header(keys, encoded_header(first)) is Some,
        key_for_header(keys, encoded_header(second)) is Some,
        key_for_header(keys, encoded_header(first))->0.kid == encoded_header(first)->0.key_id(),
        key_for_header(keys, encoded_header(second))->0.kid == encoded_header(second)->0.key_id(),
        key_for_header(keys, encoded_header(first)) != key_for_header(
            keys,
            encoded_header(second),
        ),
        authentication(keys, first, now) == verification(
            first,
            key_for_header(keys, encoded_header(first))->0,
            now,
        ),
        authentication(keys, second, now) == verification(
            second,
            key_for_header(keys, encoded_header(second))->0,
            now,
        ),
{
    lemma_selection(keys, encoded_header(first)->0.key_id());
    lemma_selection(keys, encoded_header(second)->0.key_id());
}

/// Every failure to authenticate is answered as forbidden.
pub proof fn lemma_failed_authentication_is_forbidden(
    keys: Seq<JwkView>,
    token: Seq<char>,
    now: int,
)
    ensures
        authentication(keys, token, now) matches Err(e) ==> e.status() == 403,
{
}

/// Authenticates a token against a key set at the time `now`, in seconds
/// since the Unix epoch: selects the key that the token names, then verifies
/// the token with it.
pub fn authenticate(token: &str, jwks: &JWKS, now: i64) -> (outcome: Result<Claims, AuthError>)
    ensures
        outcome_view(outcome) == authentication(jwks@, token@, now as int),
{
    match get_jwk_for_token(token, jwks) {
        None => Err(AuthError::UnknownSigningKey),
        Some(key) => verify_token(token, &key, now),
    }
}

/// What the guard does with a request.
#[derive(Clone, Copy, Debug, PartialEq, Eq, Structural)]
pub enum GuardDecision {
    /// The request goes on to the protected route, unchanged.
    Forward,
    /// The request is answered with an authentication challenge.
    Challenge,
}

/// The next step of the guard on a request that has arrived.
#[derive(Debug)]
pub enum GuardStep {
    /// The request is decided.
    Decided(GuardDecision),
    /// The key set of the authority is to be fetched; the guard goes on with
    /// `token` once the fetch has ended.
    FetchKeySet { token: String },
}

/// Whether a request method is the one of a preflight request.
pub open spec fn is_preflight(method: Seq<char>) -> bool {
    method == "OPTIONS"@
}

/// What validating `token` against what a fetch of the key set yielded
/// comes to at the time `now`: whether the token is valid, or why that cannot
/// be told.
pub open spec fn validation(fetched: Option<Seq<JwkView>>, token: Seq<char>, now: int) -> Result<
    bool,
    AuthError,
> {
    match fetched {
        None => Err(AuthError::AuthorityUnavailable),
        Some(keys) => match key_for_header(keys, encoded_header(token)) {
            None => Err(AuthError::UnknownSigningKey),
            Some(key) => Ok(verification(token, key, now) is Ok),
        },
    }
}

/// The view of a key set that may be missing.
pub open spec fn fetched_view(fetched: Option<&JWKS>) -> Option<Seq<JwkView>> {
    match fetched {
        Some(jwks) => Some(jwks@),
        None => None,
    }
}

/// The decision that follows from a validation: only a token found valid
/// lets the request through.
pub open spec fn decision_of(validation: Result<bool, AuthError>) -> GuardDecision {
    match validation {
        Ok(true) => GuardDecision::Forward,
        _ => GuardDecision::Challenge,
    }
}

/// The first step of the guard on a request: a preflight request is forwarded
/// without a look at its credential; any other request is challenged unless
/// it presents a bearer token, and with one the key set of the authority is
/// to be fetched.
pub fn validator(method: &str, authorization: Option<&[u8]>) -> (step: GuardStep)
    ensures
        is_preflight(method@) ==> step matches GuardStep::Decided(GuardDecision::Forward),
        !is_preflight(method@) ==> match presented_token(header_view(authorization)) {
            Err(_) => step matches GuardStep::Decided(GuardDecision::Challenge),
            Ok(presented) => step matches GuardStep::FetchKeySet { token } && token@ == presented,
        },
{
    if same_text(method, "OPTIONS") {
        return GuardStep::Decided(GuardDecision::Forward);
    }
    match credential(authorization) {
        Err(_) => GuardStep::Decided(GuardDecision::Challenge),
        Ok(token) => GuardStep::FetchKeySet { token: token.to_owned() },
    }
}

/// Validates a token against the key set that was fetched for it, if one
/// was, at the time `now` in seconds since the Unix epoch: tells whether the
/// token is valid, or why that cannot be told.
pub fn validate_token(token: &str, fetched: Option<&JWKS>, now: i64) -> (valid: Result<
    bool,
    AuthError,
>)
    ensures
        valid == validation(fetched_view(fetched), token@, now as int),
{
    let jwks = match fetched {
        None => { return Err(AuthError::AuthorityUnavailable); },
        Some(jwks) => jwks,
    };
    match get_jwk_for_token(token, jwks) {
        None => Err(AuthError::UnknownSigningKey),
        Some(key) => Ok(verify_token(token, &key, now).is_ok()),
    }
}

/// The decision that follows from a validation.
pub fn decide(validation: &Result<bool, AuthError>) -> (decision: GuardDecision)
    ensures
        decision == decision_of(*validation),
{
    match validation {
        Ok(true) => GuardDecision::Forward,
        _ => GuardDecision::Challenge,
    }
}

/// The last step of the guard on a request, once the fetch of the key set has
/// ended: the request is forwarded where the token is valid at the time `now`
/// and challenged otherwise.
pub fn validator_resume(token: &str, fetched: Option<&JWKS>, now: i64) -> (decision: GuardDecision)
    ensures
        decision == decision_of(validation(fetched_view(fetched), token@, now as int)),
        // Only a token that authenticates against the fetched key set opens
        // the route.
        decision is Forward <==> (fetched matches Some(jwks) && authentication(
            jwks@,
            token@,
            now as int,
        ) is Ok),
{
    let valid = validate_token(token, fetched, now);
    decide(&valid)
}

} // verus!
