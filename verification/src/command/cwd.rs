//! `CWD`: the directory to change to.

use crate::text::{chars_of, string_of, trim, trim_slice};
use std::convert::Infallible;
use std::str::FromStr;
use vstd::prelude::*;

verus! {

/// The argument of `CWD`.
#[derive(Debug, Clone, PartialEq, Eq, Hash)]
pub struct Cwd {
    pub path: String,
}

impl FromStr for Cwd {
    type Err = Infallible;

    /// The path is the argument without the white space around it.
    fn from_str(s: &str) -> (r: Result<Cwd, Infallible>)
        ensures
            r matches Ok(c) && c.path@ == trim(s@),
    {
        let chars = chars_of(s);
        Ok(Cwd::from_chars(chars.as_slice()))
    }
}

impl Cwd {
    /// The path is the argument without the white space around it.
    pub fn from_chars(s: &[char]) -> (c: Cwd)
        ensures
            c.path@ == trim(s@),
    {
        Cwd { path: string_of(trim_slice(s)) }
    }
}

} // verus!
