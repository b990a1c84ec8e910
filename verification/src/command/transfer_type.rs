//! `TYPE`: how the data of a transfer is represented.

use crate::text::{
    ascii_upper, chars_of, lemma_trim_idempotent, same_chars_as, string_of, to_ascii_upper, trim,
    trim_slice,
};
use std::str::FromStr;
use vstd::prelude::*;
use vstd::utf8::is_ascii_chars;

verus! {

/// The argument of `TYPE`.
#[derive(Debug, Clone, PartialEq, Eq, Hash)]
pub struct Type {
    pub change_to: TransferType,
}

/// The representations that have a name here.
#[derive(Debug, Clone, Copy, PartialEq, Eq, Hash)]
pub enum TransferType {
    Ascii,
    Binary,
}

/// The upper-case form that Unicode gives a text.
pub uninterp spec fn unicode_uppercase(s: Seq<char>) -> Seq<char>;

/// `str::to_uppercase` gives the upper-case form of a text as Unicode defines
/// it. Nothing is claimed of that form but that it depends on the text alone.
pub assume_specification[ str::to_uppercase ](s: &str) -> (r: String)
    ensures
        r@ == unicode_uppercase(s@),
;

/// The upper-case form of `s`. For an ASCII text these are its characters with
/// the letters `a` to `z` turned into `A` to `Z`; for any other text it is the
/// form that Unicode gives.
pub open spec fn uppercase(s: Seq<char>) -> Seq<char> {
    if is_ascii_chars(s) {
        Seq::new(s.len(), |i: int| ascii_upper(s[i]))
    } else {
        unicode_uppercase(s)
    }
}

/// The representation with the upper-case name `u`.
pub open spec fn transfer_type_named(u: Seq<char>) -> Option<TransferType> {
    if u == "A"@ || u == "ASCII"@ {
        Some(TransferType::Ascii)
    } else if u == "I"@ || u == "BINARY"@ {
        Some(TransferType::Binary)
    } else {
        None
    }
}

/// The representation that `s` names, in any case and with or without white
/// space around the name.
pub open spec fn transfer_type_of(s: Seq<char>) -> Option<TransferType> {
    transfer_type_named(uppercase(trim(s)))
}

/// The error in words.
pub open spec fn invalid_transfer_type() -> Seq<char> {
    "invalid transfer type"@
}

/// Whether `c` is an ASCII character.
fn is_ascii_char(c: char) -> (b: bool)
    ensures
        b == ('\0' <= c <= '\u{7f}'),
{
    c as u32 <= 0x7f
}

/// Whether every character of `s` is an ASCII character.
fn all_ascii(s: &[char]) -> (b: bool)
    ensures
        b == is_ascii_chars(s@),
{
    let mut i: usize = 0;
    while i < s.len()
        invariant
            i <= s.len(),
            forall|j: int| 0 <= j < i ==> '\0' <= #[trigger] s@[j] <= '\u{7f}',
        decreases s.len() - i,
    {
        if !is_ascii_char(s[i]) {
            return false;
        }
        i = i + 1;
    }
    true
}

/// The upper-case form of `s`. That of an ASCII text is worked out here; for
/// any other text, `str::to_uppercase` is asked.
fn to_uppercase(s: &[char]) -> (u: Vec<char>)
    ensures
        u@ == uppercase(s@),
{
    if all_ascii(s) {
        let mut u: Vec<char> = Vec::new();
        let mut i: usize = 0;
        while i < s.len()
            invariant
                i <= s.len(),
                u@ == uppercase(s@).take(i as int),
                is_ascii_chars(s@),
            decreases s.len() - i,
        {
            u.push(to_ascii_upper(s[i]));
            i = i + 1;
        }
        u
    } else {
        let text = string_of(s);
        let upper = text.as_str().to_uppercase();
        chars_of(upper.as_str())
    }
}

impl TransferType {
    /// The representation with the upper-case name `u`.
    pub fn from_uppercase(u: &[char]) -> (r: Result<TransferType, &'static str>)
        ensures
            match r {
                Ok(t) => transfer_type_named(u@) == Some(t),
                Err(e) => transfer_type_named(u@) is None && e@ == invalid_transfer_type(),
            },
    {
        if same_chars_as(u, "A") || same_chars_as(u, "ASCII") {
            Ok(TransferType::Ascii)
        } else if same_chars_as(u, "I") || same_chars_as(u, "BINARY") {
            Ok(TransferType::Binary)
        } else {
            Err("invalid transfer type")
        }
    }

    /// The representation that `s` names.
    pub fn from_chars(s: &[char]) -> (r: Result<TransferType, &'static str>)
        ensures
            match r {
                Ok(t) => transfer_type_of(s@) == Some(t),
                Err(e) => transfer_type_of(s@) is None && e@ == invalid_transfer_type(),
            },
    {
        let upper = to_uppercase(trim_slice(s));
        TransferType::from_uppercase(upper.as_slice())
    }
}

impl FromStr for TransferType {
    type Err = &'static str;

    /// The representation that `s` names.
    fn from_str(s: &str) -> (r: Result<TransferType, &'static str>)
        ensures
            match r {
                Ok(t) => transfer_type_of(s@) == Some(t),
                Err(e) => transfer_type_of(s@) is None && e@ == invalid_transfer_type(),
            },
    {
        let chars = chars_of(s);
        TransferType::from_chars(chars.as_slice())
    }
}

impl FromStr for Type {
    type Err = &'static str;

    /// The argument names the representation.
    fn from_str(s: &str) -> (r: Result<Type, &'static str>)
        ensures
            match r {
                Ok(t) => transfer_type_of(s@) == Some(t.change_to),
                Err(e) => transfer_type_of(s@) is None && e@ == invalid_transfer_type(),
            },
    {
        let chars = chars_of(s);
        Type::from_chars(chars.as_slice())
    }
}

impl Type {
    /// The argument names the representation.
    pub fn from_chars(s: &[char]) -> (r: Result<Type, &'static str>)
        ensures
            match r {
                Ok(t) => transfer_type_of(s@) == Some(t.change_to),
                Err(e) => transfer_type_of(s@) is None && e@ == invalid_transfer_type(),
            },
    {
        proof {
            lemma_trim_idempotent(s@);
        }
        match TransferType::from_chars(trim_slice(s)) {
            Ok(change_to) => Ok(Type { change_to }),
            Err(e) => Err(e),
        }
    }
}

} // verus!
