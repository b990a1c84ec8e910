//! `AUTH`: the security mechanism that the client asks for.

use crate::text::{
    chars_of, lemma_trim_idempotent, matches_ignoring_case, same_ignoring_ascii_case, trim,
    trim_slice,
};
use std::str::FromStr;
use vstd::prelude::*;

verus! {

/// The argument of `AUTH`.
#[derive(Debug, Clone, Copy, PartialEq, Eq, Hash)]
pub struct Auth {
    pub auth_type: AuthType,
}

/// The security mechanisms that have a name here.
#[derive(Debug, Clone, Copy, PartialEq, Eq, Hash)]
pub enum AuthType {
    Ssl,
    Tls,
}

/// Why an argument names no security mechanism.
#[derive(Debug, Clone, Copy, PartialEq, Eq, Hash)]
pub enum AuthTypeParseError {
    InvalidAuthType,
}

impl AuthTypeParseError {
    /// The error in words.
    pub open spec fn message(self) -> Seq<char> {
        "invalid authentication type"@
    }

    /// The error in words.
    pub fn to_string(&self) -> (s: String)
        ensures
            s@ == self.message(),
    {
        "invalid authentication type".to_owned()
    }
}

/// The mechanism that `s` names: `SSL` or `TLS` in any case, with or without
/// white space around it.
pub open spec fn auth_type_of(s: Seq<char>) -> Option<AuthType> {
    if same_ignoring_ascii_case(trim(s), "SSL"@) {
        Some(AuthType::Ssl)
    } else if same_ignoring_ascii_case(trim(s), "TLS"@) {
        Some(AuthType::Tls)
    } else {
        None
    }
}

/// What naming a mechanism gives: the mechanism, if `s` names one, and the error otherwise.
pub open spec fn auth_type_result(s: Seq<char>) -> Result<AuthType, AuthTypeParseError> {
    match auth_type_of(s) {
        Some(t) => Ok(t),
        None => Err(AuthTypeParseError::InvalidAuthType),
    }
}

impl FromStr for AuthType {
    type Err = AuthTypeParseError;

    /// The mechanism that `s` names.
    fn from_str(s: &str) -> (r: Result<AuthType, AuthTypeParseError>)
        ensures
            r == auth_type_result(s@),
    {
        let chars = chars_of(s);
        AuthType::from_chars(chars.as_slice())
    }
}

impl AuthType {
    /// The mechanism that `s` names.
    pub fn from_chars(s: &[char]) -> (r: Result<AuthType, AuthTypeParseError>)
        ensures
            r == auth_type_result(s@),
    {
        let t = trim_slice(s);
        if matches_ignoring_case(t, "SSL") {
            Ok(AuthType::Ssl)
        } else if matches_ignoring_case(t, "TLS") {
            Ok(AuthType::Tls)
        } else {
            Err(AuthTypeParseError::InvalidAuthType)
        }
    }
}

/// What reading the argument of `AUTH` gives.
pub open spec fn auth_result(s: Seq<char>) -> Result<Auth, AuthTypeParseError> {
    match auth_type_of(s) {
        Some(t) => Ok(Auth { auth_type: t }),
        None => Err(AuthTypeParseError::InvalidAuthType),
    }
}

impl FromStr for Auth {
    type Err = AuthTypeParseError;

    /// The argument names the mechanism.
    fn from_str(s: &str) -> (r: Result<Auth, AuthTypeParseError>)
        ensures
            r == auth_result(s@),
    {
        let chars = chars_of(s);
        Auth::from_chars(chars.as_slice())
    }
}

impl Auth {
    /// The argument names the mechanism.
    pub fn from_chars(s: &[char]) -> (r: Result<Auth, AuthTypeParseError>)
        ensures
            r == auth_result(s@),
    {
        proof {
            lemma_trim_idempotent(s@);
        }
        match AuthType::from_chars(trim_slice(s)) {
            Ok(auth_type) => Ok(Auth { auth_type }),
            Err(e) => Err(e),
        }
    }
}

} // verus!
