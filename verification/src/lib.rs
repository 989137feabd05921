//! Bearer-token authentication for a todo list API.
//!
//! A request to a protected route carries a token that an authority has
//! signed. The library reads the token from the request, selects the key of
//! the authority that the token names, verifies the token with that key and
//! yields the principal of the request, or the reason why there is none.
//!
//! - [`error`]: the failures of an authentication and their status codes.
//! - [`auth`]: authentication of a token against a key set, and the guard
//!   before a group of protected routes.
//! - [`auth::credential`]: the `Authorization` header.
//! - [`auth::jwks`]: signing keys, key sets and how they are fetched.
//! - [`auth::token`]: token headers and the verification of a token.
//! - [`auth::claims`]: the principal of a request.
//! - [`json`]: JSON documents as mathematical values.
//! - [`text`]: strings and the bytes that encode them.
//! - [`todos`]: the answers of the todo list routes.
//!
//! Time is an input: every function that judges an expiry takes the current
//! time in seconds since the Unix epoch.

pub mod auth;
pub mod error;
pub mod json;
pub mod text;
pub mod todos;
