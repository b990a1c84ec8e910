//! `OPTS`: options that a client sets.

use crate::text::{chars_of, string_of, trim, trim_slice};
use std::convert::Infallible;
use std::str::FromStr;
use vstd::prelude::*;

verus! {

/// The argument of `OPTS`.
#[derive(Debug, Clone, PartialEq, Eq, Hash)]
pub struct Opts {
    pub options: String,
}

impl FromStr for Opts {
    type Err = Infallible;

    /// The options is the argument without the white space around it.
    fn from_str(s: &str) -> (r: Result<Opts, Infallible>)
        ensures
            r matches Ok(c) && c.options@ == trim(s@),
    {
        let chars = chars_of(s);
        Ok(Opts::from_chars(chars.as_slice()))
    }
}

impl Opts {
    /// The options is the argument without the white space around it.
    pub fn from_chars(s: &[char]) -> (c: Opts)
        ensures
            c.options@ == trim(s@),
    {
        Opts { options: string_of(trim_slice(s)) }
    }
}

} // verus!
