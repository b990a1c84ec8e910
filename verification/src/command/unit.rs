//! The commands that take no argument. What follows their name on the line is ignored.

use std::convert::Infallible;
use std::str::FromStr;
use vstd::prelude::*;

verus! {

/// `FEAT`: which features does the server have?
#[derive(Debug, Clone, PartialEq, Eq, Hash)]
pub struct Feat;

/// `LIST`: send the listing of the current directory.
#[derive(Debug, Clone, PartialEq, Eq, Hash)]
pub struct List;

/// `PASV`: listen for a data connection.
#[derive(Debug, Clone, PartialEq, Eq, Hash)]
pub struct Pasv;

/// `PWD`: which is the current directory?
#[derive(Debug, Clone, PartialEq, Eq, Hash)]
pub struct Pwd;

/// `SYST`: which system is the server?
#[derive(Debug, Clone, PartialEq, Eq, Hash)]
pub struct Syst;

/// `UTF8`: names are in UTF-8. They always are.
#[derive(Debug, Clone, PartialEq, Eq, Hash)]
pub struct Utf8;

/// `PBSZ`: the size of the protection buffer.
#[derive(Debug, Clone, PartialEq, Eq, Hash)]
pub struct Pbsz;

impl FromStr for Feat {
    type Err = Infallible;

    /// Any argument will do.
    fn from_str(_s: &str) -> (r: Result<Feat, Infallible>)
        ensures
            r is Ok,
    {
        Ok(Feat)
    }
}

impl FromStr for List {
    type Err = Infallible;

    /// Any argument will do.
    fn from_str(_s: &str) -> (r: Result<List, Infallible>)
        ensures
            r is Ok,
    {
        Ok(List)
    }
}

impl FromStr for Pasv {
    type Err = Infallible;

    /// Any argument will do.
    fn from_str(_s: &str) -> (r: Result<Pasv, Infallible>)
        ensures
            r is Ok,
    {
        Ok(Pasv)
    }
}

impl FromStr for Pwd {
    type Err = Infallible;

    /// Any argument will do.
    fn from_str(_s: &str) -> (r: Result<Pwd, Infallible>)
        ensures
            r is Ok,
    {
        Ok(Pwd)
    }
}

impl FromStr for Syst {
    type Err = Infallible;

    /// Any argument will do.
    fn from_str(_s: &str) -> (r: Result<Syst, Infallible>)
        ensures
            r is Ok,
    {
        Ok(Syst)
    }
}

impl FromStr for Utf8 {
    type Err = Infallible;

    /// Any argument will do.
    fn from_str(_s: &str) -> (r: Result<Utf8, Infallible>)
        ensures
            r is Ok,
    {
        Ok(Utf8)
    }
}

impl FromStr for Pbsz {
    type Err = Infallible;

    /// Any argument will do.
    fn from_str(_s: &str) -> (r: Result<Pbsz, Infallible>)
        ensures
            r is Ok,
    {
        Ok(Pbsz)
    }
}

} // verus!
