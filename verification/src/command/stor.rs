//! `STOR`: the file to receive from the client.

use crate::text::{chars_of, normalize_path, normalized_path};
use std::convert::Infallible;
use std::str::FromStr;
use vstd::prelude::*;

verus! {

/// The argument of `STOR`.
#[derive(Debug, Clone, PartialEq, Eq, Hash)]
pub struct Stor {
    pub file: String,
}

impl FromStr for Stor {
    type Err = Infallible;

    /// The path is the argument with every backslash turned into a slash.
    fn from_str(s: &str) -> (r: Result<Stor, Infallible>)
        ensures
            r matches Ok(c) && c.file@ == normalized_path(s@),
    {
        let chars = chars_of(s);
        Ok(Stor::from_chars(chars.as_slice()))
    }
}

impl Stor {
    /// The path is the argument with every backslash turned into a slash.
    pub fn from_chars(s: &[char]) -> (c: Stor)
        ensures
            c.file@ == normalized_path(s@),
    {
        Stor { file: normalize_path(s) }
    }
}

} // verus!
