//! `RETR`: the file to send to the client.

use crate::text::{chars_of, normalize_path, normalized_path};
use std::convert::Infallible;
use std::str::FromStr;
use vstd::prelude::*;

verus! {

/// The argument of `RETR`.
#[derive(Debug, Clone, PartialEq, Eq, Hash)]
pub struct Retr {
    pub file: String,
}

impl FromStr for Retr {
    type Err = Infallible;

    /// The path is the argument with every backslash turned into a slash.
    fn from_str(s: &str) -> (r: Result<Retr, Infallible>)
        ensures
            r matches Ok(c) && c.file@ == normalized_path(s@),
    {
        let chars = chars_of(s);
        Ok(Retr::from_chars(chars.as_slice()))
    }
}

impl Retr {
    /// The path is the argument with every backslash turned into a slash.
    pub fn from_chars(s: &[char]) -> (c: Retr)
        ensures
            c.file@ == normalized_path(s@),
    {
        Retr { file: normalize_path(s) }
    }
}

} // verus!
