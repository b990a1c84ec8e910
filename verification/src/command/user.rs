//! `USER`: the name to log in with.

use crate::text::{chars_of, string_of, trim, trim_slice};
use std::convert::Infallible;
use std::str::FromStr;
use vstd::prelude::*;

verus! {

/// The argument of `USER`.
#[derive(Debug, Clone, PartialEq, Eq, Hash)]
pub struct User {
    pub username: String,
}

impl FromStr for User {
    type Err = Infallible;

    /// The user name is the argument without the white space around it.
    fn from_str(s: &str) -> (r: Result<User, Infallible>)
        ensures
            r matches Ok(c) && c.username@ == trim(s@),
    {
        let chars = chars_of(s);
        Ok(User::from_chars(chars.as_slice()))
    }
}

impl User {
    /// The user name is the argument without the white space around it.
    pub fn from_chars(s: &[char]) -> (c: User)
        ensures
            c.username@ == trim(s@),
    {
        User { username: string_of(trim_slice(s)) }
    }
}

} // verus!
