//! Signed tokens: what their header declares and what `jsonwebtoken` decides
//! of their signature.

use jsonwebtoken::{Algorithm, DecodingKey, Validation};
use serde_json::Value;
use vstd::prelude::*;

use crate::auth::claims::{claims_of, outcome_view, Claims, ClaimsView};
use crate::auth::jwks::{JwkView, JWK};
use crate::error::AuthError;
use crate::json::{json_of, text_view, Json};

verus! {

/// The signature algorithms that a token header can declare.
#[derive(Clone, Copy, Debug, PartialEq, Eq, Structural)]
pub enum SignatureAlgorithm {
    HS256,
    HS384,
    HS512,
    ES256,
    ES384,
    RS256,
    RS384,
    RS512,
    PS256,
    PS384,
    PS512,
}

/// What the logic reads of a token's header.
#[derive(Debug)]
pub struct TokenHeader {
    /// The declared signature algorithm.
    pub alg: SignatureAlgorithm,
    /// The declared key identifier, if there is one.
    pub kid: Option<String>,
}

/// A token header as a mathematical value.
pub ghost struct TokenHeaderView {
    pub alg: SignatureAlgorithm,
    pub kid: Option<Seq<char>>,
}

impl View for TokenHeader {
    type V = TokenHeaderView;

    open spec fn view(&self) -> TokenHeaderView {
        TokenHeaderView { alg: self.alg, kid: text_view(self.kid) }
    }
}

impl TokenHeaderView {
    /// The key identifier by which a key is looked up: the declared one, or
    /// the empty string where the header declares none.
    pub open spec fn key_id(self) -> Seq<char> {
        match self.kid {
            Some(kid) => kid,
            None => Seq::empty(),
        }
    }
}

/// The header that the first segment of a token encodes, if it encodes one.
pub uninterp spec fn encoded_header(token: Seq<char>) -> Option<TokenHeaderView>;

/// The claims that a token holds under the RSA public key made of `modulus`
/// and `exponent`: those that its second segment encodes, where the token
/// declares RS256 and its signature is that of the key; none otherwise.
pub uninterp spec fn signed_claims(token: Seq<char>, modulus: Seq<char>, exponent: Seq<char>) -> Option<
    Json,
>;

/// `jsonwebtoken::decode_header`: the header of a token, read without any
/// check of the signature. The result depends on the token's text alone, and
/// there is none when the token has no three segments or the first is no
/// header.
#[verifier::external_body]
pub(crate) fn decode_token_header(token: &str) -> (header: Option<TokenHeader>)
    ensures
        header matches Some(h) ==> encoded_header(token@) == Some(h@),
        header is None ==> encoded_header(token@) is None,
{
    let header = jsonwebtoken::decode_header(token).ok()?;
    let alg = match header.alg {
        Algorithm::HS256 => SignatureAlgorithm::HS256,
        Algorithm::HS384 => SignatureAlgorithm::HS384,
        Algorithm::HS512 => SignatureAlgorithm::HS512,
        Algorithm::ES256 => SignatureAlgorithm::ES256,
        Algorithm::ES384 => SignatureAlgorithm::ES384,
        Algorithm::RS256 => SignatureAlgorithm::RS256,
        Algorithm::RS384 => SignatureAlgorithm::RS384,
        Algorithm::RS512 => SignatureAlgorithm::RS512,
        Algorithm::PS256 => SignatureAlgorithm::PS256,
        Algorithm::PS384 => SignatureAlgorithm::PS384,
        Algorithm::PS512 => SignatureAlgorithm::PS512,
    };
    Some(TokenHeader { alg, kid: header.kid })
}

/// `jsonwebtoken::decode` with the RSA public key made of `modulus` and
/// `exponent` (`DecodingKey::from_rsa_components`) and with a validation
/// (`Validation::new`) that admits RS256 alone and leaves the expiry to the
/// caller. The claims of a token come back exactly when its signature is that
/// of the key, whatever the time.
#[verifier::external_body]
pub(crate) fn decode_rs256(token: &str, modulus: &str, exponent: &str) -> (claims: Option<Value>)
    ensures
        claims matches Some(c) ==> signed_claims(token@, modulus@, exponent@) == Some(json_of(c)),
        claims is None ==> signed_claims(token@, modulus@, exponent@) is None,
{
    let key = DecodingKey::from_rsa_components(modulus, exponent);
    let mut validation = Validation::new(Algorithm::RS256);
    validation.validate_exp = false;
    jsonwebtoken::decode::<Value>(token, &key, &validation).ok().map(|data| data.claims)
}

/// The algorithm that a token declares in its header.
pub open spec fn declared_algorithm(token: Seq<char>) -> Option<SignatureAlgorithm> {
    match encoded_header(token) {
        Some(header) => Some(header.alg),
        None => None,
    }
}

/// The document that the signature check handed back, if it handed one back.
pub open spec fn checked_view(checked: Option<&Value>) -> Option<Json> {
    match checked {
        Some(document) => Some(json_of(*document)),
        None => None,
    }
}

/// What the claims that a signature check handed back come to at the time
/// `now`, in seconds since the Unix epoch: they are rejected where the check
/// handed back nothing, where they lack a required member or hold one of the
/// wrong type, and where they expired before `now`.
pub open spec fn verdict(checked: Option<Json>, now: int) -> Result<ClaimsView, AuthError> {
    match checked {
        None => Err(AuthError::InvalidSignatureOrClaims),
        Some(document) => match claims_of(document) {
            None => Err(AuthError::InvalidSignatureOrClaims),
            Some(claims) => if claims.exp < now {
                Err(AuthError::InvalidSignatureOrClaims)
            } else {
                Ok(claims)
            },
        },
    }
}

/// The claims that a token holds under a key as far as a verification goes:
/// those that the signature check hands back, where the token declares RS256
/// and they have the shape of claims; none otherwise.
pub open spec fn claims_under(token: Seq<char>, key: JwkView) -> Option<ClaimsView> {
    if declared_algorithm(token) == Some(SignatureAlgorithm::RS256) {
        match signed_claims(token, key.n, key.e) {
            Some(document) => claims_of(document),
            None => None,
        }
    } else {
        None
    }
}

/// What verifying `token` with `key` at the time `now` comes to: the claims
/// that the token holds under the key, where it holds some and they have not
/// expired; the one error `InvalidSignatureOrClaims` otherwise.
pub open spec fn verification(token: Seq<char>, key: JwkView, now: int) -> Result<
    ClaimsView,
    AuthError,
> {
    match claims_under(token, key) {
        Some(claims) => if claims.exp < now {
            Err(AuthError::InvalidSignatureOrClaims)
        } else {
            Ok(claims)
        },
        None => Err(AuthError::InvalidSignatureOrClaims),
    }
}

/// A token that is rejected at one time is rejected at every later time, and
/// claims that are accepted at one time do not depend on that time.
pub proof fn lemma_verification_over_time(
    token: Seq<char>,
    key: JwkView,
    earlier: int,
    later: int,
)
    requires
        earlier <= later,
    ensures
        verification(token, key, earlier) is Err ==> verification(token, key, later) is Err,
        verification(token, key, later) is Ok ==> verification(token, key, earlier)
            == verification(token, key, later),
{
}

/// A token that declares another algorithm than RS256 is rejected whatever
/// its signature and whatever the key; a token whose claims have expired is
/// rejected whatever else holds of it; and a token whose claims have not
/// expired yields exactly those claims.
pub proof fn lemma_verification(token: Seq<char>, key: JwkView, now: int)
    ensures
        declared_algorithm(token) != Some(SignatureAlgorithm::RS256) ==> verification(
            token,
            key,
            now,
        ) is Err,
        claims_under(token, key) is Some && claims_under(token, key)->0.exp < now
            ==> verification(token, key, now) == Err::<ClaimsView, AuthError>(
            AuthError::InvalidSignatureOrClaims,
        ),
        claims_under(token, key) is Some && claims_under(token, key)->0.exp >= now
            ==> verification(token, key, now) == Ok::<ClaimsView, AuthError>(
            claims_under(token, key)->0,
        ),
{
}

/// Whether a header declares the one algorithm that is accepted, RS256.
pub fn is_pinned_algorithm(header: Option<&TokenHeader>) -> (pinned: bool)
    ensures
        pinned == (header matches Some(h) && h.alg == SignatureAlgorithm::RS256),
{
    match header {
        Some(h) => h.alg == SignatureAlgorithm::RS256,
        None => false,
    }
}

/// Concludes a verification from what the signature check handed back and
/// from the time `now`, in seconds since the Unix epoch.
pub fn conclude_verification(checked: Option<&Value>, now: i64) -> (outcome: Result<
    Claims,
    AuthError,
>)
    ensures
        outcome_view(outcome) == verdict(checked_view(checked), now as int),
{
    let document = match checked {
        None => { return Err(AuthError::InvalidSignatureOrClaims); },
        Some(document) => document,
    };
    match Claims::from_json(document) {
        None => Err(AuthError::InvalidSignatureOrClaims),
        Some(claims) => {
            if claims.exp < now {
                Err(AuthError::InvalidSignatureOrClaims)
            } else {
                Ok(claims)
            }
        },
    }
}

/// Verifies a token with a signing key at the time `now`, in seconds since
/// the Unix epoch: the token must declare RS256, its signature must be that
/// of the key, and its claims must be well formed and not expired.
pub fn verify_token(token: &str, key: &JWK, now: i64) -> (outcome: Result<Claims, AuthError>)
    ensures
        outcome_view(outcome) == verification(token@, key@, now as int),
{
    let header = decode_token_header(token);
    if !is_pinned_algorithm(header.as_ref()) {
        return Err(AuthError::InvalidSignatureOrClaims);
    }
    let checked = decode_rs256(token, key.n.as_str(), key.e.as_str());
    conclude_verification(checked.as_ref(), now)
}

} // verus!
