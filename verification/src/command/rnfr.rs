//! `RNFR`: the file to rename.

use crate::text::{chars_of, normalize_path, normalized_path};
use std::convert::Infallible;
use std::str::FromStr;
use vstd::prelude::*;

verus! {

/// The argument of `RNFR`.
#[derive(Debug, Clone, PartialEq, Eq, Hash)]
pub struct Rnfr {
    pub path: String,
}

impl FromStr for Rnfr {
    type Err = Infallible;

    /// The path is the argument with every backslash turned into a slash.
    fn from_str(s: &str) -> (r: Result<Rnfr, Infallible>)
        ensures
            r matches Ok(c) && c.path@ == normalized_path(s@),
    {
        let chars = chars_of(s);
        Ok(Rnfr::from_chars(chars.as_slice()))
    }
}

impl Rnfr {
    /// The path is the argument with every backslash turned into a slash.
    pub fn from_chars(s: &[char]) -> (c: Rnfr)
        ensures
            c.path@ == normalized_path(s@),
    {
        Rnfr { path: normalize_path(s) }
    }
}

} // verus!
