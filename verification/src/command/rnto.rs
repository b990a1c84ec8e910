//! `RNTO`: the new name of the file to rename.

use crate::text::{chars_of, normalize_path, normalized_path};
use std::convert::Infallible;
use std::str::FromStr;
use vstd::prelude::*;

verus! {

/// The argument of `RNTO`.
#[derive(Debug, Clone, PartialEq, Eq, Hash)]
pub struct Rnto {
    pub to: String,
}

impl FromStr for Rnto {
    type Err = Infallible;

    /// The path is the argument with every backslash turned into a slash.
    fn from_str(s: &str) -> (r: Result<Rnto, Infallible>)
        ensures
            r matches Ok(c) && c.to@ == normalized_path(s@),
    {
        let chars = chars_of(s);
        Ok(Rnto::from_chars(chars.as_slice()))
    }
}

impl Rnto {
    /// The path is the argument with every backslash turned into a slash.
    pub fn from_chars(s: &[char]) -> (c: Rnto)
        ensures
            c.to@ == normalized_path(s@),
    {
        Rnto { to: normalize_path(s) }
    }
}

} // verus!
