//! The failures of an authentication attempt and how they are answered.

use todo_api::error::AuthError;
use todo_api::text::same_text;

#[test]
fn missing_credential_is_forbidden() {
    assert_eq!(AuthError::MissingCredential.status_code(), 403);
    assert_eq!(AuthError::MissingCredential.message(), "Missing Authorization Header");
}

#[test]
fn malformed_credential_is_a_bad_request() {
    assert_eq!(AuthError::MalformedCredential.status_code(), 400);
    assert_eq!(AuthError::MalformedCredential.message(), "Malformed Authorization Header");
}

#[test]
fn unknown_signing_key_is_forbidden() {
    assert_eq!(AuthError::UnknownSigningKey.status_code(), 403);
    assert_eq!(AuthError::UnknownSigningKey.message(), "Invalid JWT");
}

#[test]
fn invalid_signature_or_claims_are_forbidden() {
    assert_eq!(AuthError::InvalidSignatureOrClaims.status_code(), 403);
    assert_eq!(AuthError::InvalidSignatureOrClaims.message(), "Invalid JWT");
}

#[test]
fn unavailable_authority_is_a_server_error_without_detail() {
    assert_eq!(AuthError::AuthorityUnavailable.status_code(), 500);
    assert_eq!(AuthError::AuthorityUnavailable.message(), "");
}

#[test]
fn texts_are_the_same_where_their_characters_are() {
    assert!(same_text("", ""));
    assert!(same_text("OPTIONS", "OPTIONS"));
    assert!(same_text("kéy-ü", "kéy-ü"));
    assert!(!same_text("OPTIONS", "options"));
    assert!(!same_text("OPTIONS", "OPTION"));
    assert!(!same_text("OPTION", "OPTIONS"));
    assert!(!same_text("", " "));
    assert!(!same_text("abc", "abd"));
    assert!(!same_text("ébc", "ebc"));
    assert!(!same_text("é", "e\u{301}"));
}
