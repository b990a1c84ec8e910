//! `PASS`: the password.

use crate::text::{chars_of, string_of, trim, trim_slice};
use std::convert::Infallible;
use std::str::FromStr;
use vstd::prelude::*;

verus! {

/// The argument of `PASS`.
#[derive(Debug, Clone, PartialEq, Eq, Hash)]
pub struct Pass {
    pub password: String,
}

impl FromStr for Pass {
    type Err = Infallible;

    /// The password is the argument without the white space around it.
    fn from_str(s: &str) -> (r: Result<Pass, Infallible>)
        ensures
            r matches Ok(c) && c.password@ == trim(s@),
    {
        let chars = chars_of(s);
        Ok(Pass::from_chars(chars.as_slice()))
    }
}

impl Pass {
    /// The password is the argument without the white space around it.
    pub fn from_chars(s: &[char]) -> (c: Pass)
        ensures
            c.password@ == trim(s@),
    {
        Pass { password: string_of(trim_slice(s)) }
    }
}

} // verus!
