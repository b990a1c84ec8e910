//! The commands that the server understands, and how a line is read as one.
//!
//! A line is a verb and, after the first space, its argument. The verb is
//! looked up without regard to the case of its letters; the argument is read
//! as the verb asks.

pub mod auth;
pub mod cwd;
pub mod opts;
pub mod pass;
pub mod retr;
pub mod rnfr;
pub mod rnto;
pub mod stor;
pub mod transfer_type;
pub mod unit;
pub mod user;

use crate::command::auth::{auth_type_of, Auth, AuthType, AuthTypeParseError};
use crate::command::cwd::Cwd;
use crate::command::opts::Opts;
use crate::command::pass::Pass;
use crate::command::retr::Retr;
use crate::command::rnfr::Rnfr;
use crate::command::rnto::Rnto;
use crate::command::stor::Stor;
use crate::command::transfer_type::{
    invalid_transfer_type, transfer_type_of, uppercase, TransferType, Type,
};
use crate::command::unit::{Feat, List, Pasv, Pbsz, Pwd, Syst, Utf8};
use crate::command::user::User;
use crate::text::{
    ascii_lower, chars_of, find_space, first_space, lemma_first_space, lemma_first_space_is,
    matches_ignoring_case, normalized_path, push_chars, same_ignoring_ascii_case, trim,
    trim_slice, trimmed,
};
use std::str::FromStr;
use vstd::prelude::*;
use vstd::string::StringExecFns;

verus! {

/// A command of a client.
#[derive(Debug, Clone, PartialEq, Eq, Hash)]
pub enum Command {
    Auth(Auth),
    User(User),
    Pass(Pass),
    Cwd(Cwd),
    Pwd(Pwd),
    Type(Type),
    Pasv(Pasv),
    List(List),
    Retr(Retr),
    Syst(Syst),
    Stor(Stor),
    Feat(Feat),
    Opts(Opts),
    Utf8(Utf8),
    Pbsz(Pbsz),
    Rnfr(Rnfr),
    Rnto(Rnto),
}

/// What a command says: its kind and the text of its argument.
pub enum CommandModel {
    Auth(AuthType),
    User(Seq<char>),
    Pass(Seq<char>),
    Cwd(Seq<char>),
    Pwd,
    Type(TransferType),
    Pasv,
    List,
    Retr(Seq<char>),
    Syst,
    Stor(Seq<char>),
    Feat,
    Opts(Seq<char>),
    Utf8,
    Pbsz,
    Rnfr(Seq<char>),
    Rnto(Seq<char>),
}

impl View for Command {
    type V = CommandModel;

    open spec fn view(&self) -> CommandModel {
        match self {
            Command::Auth(a) => CommandModel::Auth(a.auth_type),
            Command::User(u) => CommandModel::User(u.username@),
            Command::Pass(p) => CommandModel::Pass(p.password@),
            Command::Cwd(c) => CommandModel::Cwd(c.path@),
            Command::Pwd(_) => CommandModel::Pwd,
            Command::Type(t) => CommandModel::Type(t.change_to),
            Command::Pasv(_) => CommandModel::Pasv,
            Command::List(_) => CommandModel::List,
            Command::Retr(r) => CommandModel::Retr(r.file@),
            Command::Syst(_) => CommandModel::Syst,
            Command::Stor(s) => CommandModel::Stor(s.file@),
            Command::Feat(_) => CommandModel::Feat,
            Command::Opts(o) => CommandModel::Opts(o.options@),
            Command::Utf8(_) => CommandModel::Utf8,
            Command::Pbsz(_) => CommandModel::Pbsz,
            Command::Rnfr(r) => CommandModel::Rnfr(r.path@),
            Command::Rnto(r) => CommandModel::Rnto(r.to@),
        }
    }
}

/// The verbs of the commands, in the order in which a word is held against them.
#[derive(Debug, Clone, Copy, PartialEq, Eq, Hash)]
pub enum Verb {
    Auth,
    User,
    Pass,
    Cwd,
    Pwd,
    Type,
    Pasv,
    List,
    Retr,
    Syst,
    Stor,
    Feat,
    Opts,
    Utf8,
    Pbsz,
    Rnfr,
    Rnto,
}

impl Verb {
    /// The verb as it is written.
    pub open spec fn keyword(self) -> Seq<char> {
        match self {
            Verb::Auth => "AUTH"@,
            Verb::User => "USER"@,
            Verb::Pass => "PASS"@,
            Verb::Cwd => "CWD"@,
            Verb::Pwd => "PWD"@,
            Verb::Type => "TYPE"@,
            Verb::Pasv => "PASV"@,
            Verb::List => "LIST"@,
            Verb::Retr => "RETR"@,
            Verb::Syst => "SYST"@,
            Verb::Stor => "STOR"@,
            Verb::Feat => "FEAT"@,
            Verb::Opts => "OPTS"@,
            Verb::Utf8 => "UTF8"@,
            Verb::Pbsz => "PBSZ"@,
            Verb::Rnfr => "RNFR"@,
            Verb::Rnto => "RNTO"@,
        }
    }

    /// The verb as it is written.
    pub fn as_str(self) -> (s: &'static str)
        ensures
            s@ == self.keyword(),
    {
        match self {
            Verb::Auth => "AUTH",
            Verb::User => "USER",
            Verb::Pass => "PASS",
            Verb::Cwd => "CWD",
            Verb::Pwd => "PWD",
            Verb::Type => "TYPE",
            Verb::Pasv => "PASV",
            Verb::List => "LIST",
            Verb::Retr => "RETR",
            Verb::Syst => "SYST",
            Verb::Stor => "STOR",
            Verb::Feat => "FEAT",
            Verb::Opts => "OPTS",
            Verb::Utf8 => "UTF8",
            Verb::Pbsz => "PBSZ",
            Verb::Rnfr => "RNFR",
            Verb::Rnto => "RNTO",
        }
    }
}

/// `word` is the verb `verb`, in whatever case its letters are.
pub open spec fn names(word: Seq<char>, verb: Verb) -> bool {
    same_ignoring_ascii_case(word, verb.keyword())
}

/// The verb that `word` is: the first in their order that it names.
pub open spec fn verb_of(word: Seq<char>) -> Option<Verb> {
    if names(word, Verb::Auth) {
        Some(Verb::Auth)
    } else if names(word, Verb::User) {
        Some(Verb::User)
    } else if names(word, Verb::Pass) {
        Some(Verb::Pass)
    } else if names(word, Verb::Cwd) {
        Some(Verb::Cwd)
    } else if names(word, Verb::Pwd) {
        Some(Verb::Pwd)
    } else if names(word, Verb::Type) {
        Some(Verb::Type)
    } else if names(word, Verb::Pasv) {
        Some(Verb::Pasv)
    } else if names(word, Verb::List) {
        Some(Verb::List)
    } else if names(word, Verb::Retr) {
        Some(Verb::Retr)
    } else if names(word, Verb::Syst) {
        Some(Verb::Syst)
    } else if names(word, Verb::Stor) {
        Some(Verb::Stor)
    } else if names(word, Verb::Feat) {
        Some(Verb::Feat)
    } else if names(word, Verb::Opts) {
        Some(Verb::Opts)
    } else if names(word, Verb::Utf8) {
        Some(Verb::Utf8)
    } else if names(word, Verb::Pbsz) {
        Some(Verb::Pbsz)
    } else if names(word, Verb::Rnfr) {
        Some(Verb::Rnfr)
    } else if names(word, Verb::Rnto) {
        Some(Verb::Rnto)
    } else {
        None
    }
}

/// The verb that `word` is, if it is one.
pub fn recognize(word: &[char]) -> (r: Option<Verb>)
    ensures
        r == verb_of(word@),
{
    if matches_ignoring_case(word, Verb::Auth.as_str()) {
        Some(Verb::Auth)
    } else if matches_ignoring_case(word, Verb::User.as_str()) {
        Some(Verb::User)
    } else if matches_ignoring_case(word, Verb::Pass.as_str()) {
        Some(Verb::Pass)
    } else if matches_ignoring_case(word, Verb::Cwd.as_str()) {
        Some(Verb::Cwd)
    } else if matches_ignoring_case(word, Verb::Pwd.as_str()) {
        Some(Verb::Pwd)
    } else if matches_ignoring_case(word, Verb::Type.as_str()) {
        Some(Verb::Type)
    } else if matches_ignoring_case(word, Verb::Pasv.as_str()) {
        Some(Verb::Pasv)
    } else if matches_ignoring_case(word, Verb::List.as_str()) {
        Some(Verb::List)
    } else if matches_ignoring_case(word, Verb::Retr.as_str()) {
        Some(Verb::Retr)
    } else if matches_ignoring_case(word, Verb::Syst.as_str()) {
        Some(Verb::Syst)
    } else if matches_ignoring_case(word, Verb::Stor.as_str()) {
        Some(Verb::Stor)
    } else if matches_ignoring_case(word, Verb::Feat.as_str()) {
        Some(Verb::Feat)
    } else if matches_ignoring_case(word, Verb::Opts.as_str()) {
        Some(Verb::Opts)
    } else if matches_ignoring_case(word, Verb::Utf8.as_str()) {
        Some(Verb::Utf8)
    } else if matches_ignoring_case(word, Verb::Pbsz.as_str()) {
        Some(Verb::Pbsz)
    } else if matches_ignoring_case(word, Verb::Rnfr.as_str()) {
        Some(Verb::Rnfr)
    } else if matches_ignoring_case(word, Verb::Rnto.as_str()) {
        Some(Verb::Rnto)
    } else {
        None
    }
}

/// The two parts of a line: what stands before its first space and what
/// stands after it. Without a space the line is the first part and the second
/// is empty.
pub open spec fn split_line(line: Seq<char>) -> (Seq<char>, Seq<char>) {
    let k = first_space(line);
    if k < line.len() {
        (line.subrange(0, k), line.subrange(k + 1, line.len() as int))
    } else {
        (line, Seq::<char>::empty())
    }
}

/// Why the argument of `verb` could not be read.
pub open spec fn argument_error(verb: Verb, reason: Seq<char>) -> Seq<char> {
    "failed to parse "@ + verb.keyword() + " command: "@ + reason
}

/// That `word` is no verb.
pub open spec fn unknown_command(word: Seq<char>) -> Seq<char> {
    "unknown command: "@ + word
}

/// The command with the verb `verb` and the argument `params`, or why
/// `params` is no argument for it.
pub open spec fn command_of(verb: Verb, params: Seq<char>) -> Result<CommandModel, Seq<char>> {
    match verb {
        Verb::Auth => match auth_type_of(params) {
            Some(t) => Ok(CommandModel::Auth(t)),
            None => Err(argument_error(verb, AuthTypeParseError::InvalidAuthType.message())),
        },
        Verb::User => Ok(CommandModel::User(trim(params))),
        Verb::Pass => Ok(CommandModel::Pass(trim(params))),
        Verb::Cwd => Ok(CommandModel::Cwd(trim(params))),
        Verb::Pwd => Ok(CommandModel::Pwd),
        Verb::Type => match transfer_type_of(params) {
            Some(t) => Ok(CommandModel::Type(t)),
            None => Err(argument_error(verb, invalid_transfer_type())),
        },
        Verb::Pasv => Ok(CommandModel::Pasv),
        Verb::List => Ok(CommandModel::List),
        Verb::Retr => Ok(CommandModel::Retr(normalized_path(params))),
        Verb::Syst => Ok(CommandModel::Syst),
        Verb::Stor => Ok(CommandModel::Stor(normalized_path(params))),
        Verb::Feat => Ok(CommandModel::Feat),
        Verb::Opts => Ok(CommandModel::Opts(trim(params))),
        Verb::Utf8 => Ok(CommandModel::Utf8),
        Verb::Pbsz => Ok(CommandModel::Pbsz),
        Verb::Rnfr => Ok(CommandModel::Rnfr(normalized_path(params))),
        Verb::Rnto => Ok(CommandModel::Rnto(normalized_path(params))),
    }
}

/// What `line` says: the command whose verb stands before the first space,
/// with what stands after it as the argument, both without the white space
/// around them; or why the line is no command.
pub open spec fn parse_line(line: Seq<char>) -> Result<CommandModel, Seq<char>> {
    let (word, rest) = split_line(line);
    match verb_of(trim(word)) {
        Some(verb) => command_of(verb, trim(rest)),
        None => Err(unknown_command(trim(word))),
    }
}

/// The message that the argument of `verb` could not be read for `reason`.
fn argument_error_message(verb: Verb, reason: &str) -> (e: String)
    ensures
        e@ == argument_error(verb, reason@),
{
    let mut e = "failed to parse ".to_owned();
    e.append(verb.as_str());
    e.append(" command: ");
    e.append(reason);
    assert(e@ =~= argument_error(verb, reason@));
    e
}

impl Command {
    /// The command with the verb `verb` and the argument `params`.
    pub fn from_verb(verb: Verb, params: &[char]) -> (r: Result<Command, String>)
        ensures
            match r {
                Ok(c) => command_of(verb, params@) == Ok::<CommandModel, Seq<char>>(c@),
                Err(e) => command_of(verb, params@) == Err::<CommandModel, Seq<char>>(e@),
            },
    {
        match verb {
            Verb::Auth => match Auth::from_chars(params) {
                Ok(a) => Ok(Command::Auth(a)),
                Err(e) => {
                    let reason = e.to_string();
                    Err(argument_error_message(verb, reason.as_str()))
                },
            },
            Verb::User => Ok(Command::User(User::from_chars(params))),
            Verb::Pass => Ok(Command::Pass(Pass::from_chars(params))),
            Verb::Cwd => Ok(Command::Cwd(Cwd::from_chars(params))),
            Verb::Pwd => Ok(Command::Pwd(Pwd)),
            Verb::Type => match Type::from_chars(params) {
                Ok(t) => Ok(Command::Type(t)),
                Err(reason) => Err(argument_error_message(verb, reason)),
            },
            Verb::Pasv => Ok(Command::Pasv(Pasv)),
            Verb::List => Ok(Command::List(List)),
            Verb::Retr => Ok(Command::Retr(Retr::from_chars(params))),
            Verb::Syst => Ok(Command::Syst(Syst)),
            Verb::Stor => Ok(Command::Stor(Stor::from_chars(params))),
            Verb::Feat => Ok(Command::Feat(Feat)),
            Verb::Opts => Ok(Command::Opts(Opts::from_chars(params))),
            Verb::Utf8 => Ok(Command::Utf8(Utf8)),
            Verb::Pbsz => Ok(Command::Pbsz(Pbsz)),
            Verb::Rnfr => Ok(Command::Rnfr(Rnfr::from_chars(params))),
            Verb::Rnto => Ok(Command::Rnto(Rnto::from_chars(params))),
        }
    }

    /// The command that `line` is.
    pub fn from_chars(line: &[char]) -> (r: Result<Command, String>)
        ensures
            match r {
                Ok(c) => parse_line(line@) == Ok::<CommandModel, Seq<char>>(c@),
                Err(e) => parse_line(line@) == Err::<CommandModel, Seq<char>>(e@),
            },
    {
        let k = find_space(line);
        proof {
            lemma_first_space(line@);
        }
        let word = trim_slice(
            if k < line.len() {
                &line[0..k]
            } else {
                line
            },
        );
        let params = trim_slice(
            if k < line.len() {
                &line[k + 1..line.len()]
            } else {
                &line[0..0]
            },
        );
        assert(line@.subrange(0, 0) =~= Seq::<char>::empty());
        match recognize(word) {
            Some(verb) => Command::from_verb(verb, params),
            None => {
                let mut e = "unknown command: ".to_owned();
                push_chars(&mut e, word);
                Err(e)
            },
        }
    }

}

impl Verb {
    /// The name of the kind of command that the verb stands for.
    pub open spec fn name(self) -> Seq<char> {
        match self {
            Verb::Auth => "Auth"@,
            Verb::User => "User"@,
            Verb::Pass => "Pass"@,
            Verb::Cwd => "Cwd"@,
            Verb::Pwd => "Pwd"@,
            Verb::Type => "Type"@,
            Verb::Pasv => "Pasv"@,
            Verb::List => "List"@,
            Verb::Retr => "Retr"@,
            Verb::Syst => "Syst"@,
            Verb::Stor => "Stor"@,
            Verb::Feat => "Feat"@,
            Verb::Opts => "Opts"@,
            Verb::Utf8 => "Utf8"@,
            Verb::Pbsz => "Pbsz"@,
            Verb::Rnfr => "Rnfr"@,
            Verb::Rnto => "Rnto"@,
        }
    }
}

impl AsRef<str> for Command {
    /// The name of the kind of command that this is.
    fn as_ref(&self) -> (name: &str)
        ensures
            name@ == self@.verb().name(),
    {
        match self {
            Command::Auth(_) => "Auth",
            Command::User(_) => "User",
            Command::Pass(_) => "Pass",
            Command::Cwd(_) => "Cwd",
            Command::Pwd(_) => "Pwd",
            Command::Type(_) => "Type",
            Command::Pasv(_) => "Pasv",
            Command::List(_) => "List",
            Command::Retr(_) => "Retr",
            Command::Syst(_) => "Syst",
            Command::Stor(_) => "Stor",
            Command::Feat(_) => "Feat",
            Command::Opts(_) => "Opts",
            Command::Utf8(_) => "Utf8",
            Command::Pbsz(_) => "Pbsz",
            Command::Rnfr(_) => "Rnfr",
            Command::Rnto(_) => "Rnto",
        }
    }
}

impl FromStr for Command {
    type Err = String;

    /// The command that `s` is: one line of a client, without the end of the line.
    fn from_str(s: &str) -> (r: Result<Command, String>)
        ensures
            match r {
                Ok(c) => parse_line(s@) == Ok::<CommandModel, Seq<char>>(c@),
                Err(e) => parse_line(s@) == Err::<CommandModel, Seq<char>>(e@),
            },
    {
        let chars = chars_of(s);
        Command::from_chars(chars.as_slice())
    }
}

/// No space stands in `s`.
pub open spec fn spaceless(s: Seq<char>) -> bool {
    forall|i: int| 0 <= i < s.len() ==> s[i] != ' '
}

/// A written verb is that verb and no other. It holds no white space.
pub proof fn lemma_verb_of_keyword(verb: Verb)
    ensures
        verb_of(verb.keyword()) == Some(verb),
        trim(verb.keyword()) == verb.keyword(),
        spaceless(verb.keyword()),
        verb.keyword().len() > 0,
{
    match verb {
        Verb::Auth => {
            reveal_strlit("AUTH");
        },
        Verb::User => {
            reveal_strlit("USER");
            reveal_strlit("AUTH");
            assert(ascii_lower("USER"@[0]) != ascii_lower("AUTH"@[0]));
        },
        Verb::Pass => {
            reveal_strlit("PASS");
            reveal_strlit("AUTH");
            assert(ascii_lower("PASS"@[0]) != ascii_lower("AUTH"@[0]));
            reveal_strlit("USER");
            assert(ascii_lower("PASS"@[0]) != ascii_lower("USER"@[0]));
        },
        Verb::Cwd => {
            reveal_strlit("CWD");
            reveal_strlit("AUTH");
            reveal_strlit("USER");
            reveal_strlit("PASS");
        },
        Verb::Pwd => {
            reveal_strlit("PWD");
            reveal_strlit("AUTH");
            reveal_strlit("USER");
            reveal_strlit("PASS");
            reveal_strlit("CWD");
            assert(ascii_lower("PWD"@[0]) != ascii_lower("CWD"@[0]));
        },
        Verb::Type => {
            reveal_strlit("TYPE");
            reveal_strlit("AUTH");
            assert(ascii_lower("TYPE"@[0]) != ascii_lower("AUTH"@[0]));
            reveal_strlit("USER");
            assert(ascii_lower("TYPE"@[0]) != ascii_lower("USER"@[0]));
            reveal_strlit("PASS");
            assert(ascii_lower("TYPE"@[0]) != ascii_lower("PASS"@[0]));
            reveal_strlit("CWD");
            reveal_strlit("PWD");
        },
        Verb::Pasv => {
            reveal_strlit("PASV");
            reveal_strlit("AUTH");
            assert(ascii_lower("PASV"@[0]) != ascii_lower("AUTH"@[0]));
            reveal_strlit("USER");
            assert(ascii_lower("PASV"@[0]) != ascii_lower("USER"@[0]));
            reveal_strlit("PASS");
            assert(ascii_lower("PASV"@[3]) != ascii_lower("PASS"@[3]));
            reveal_strlit("CWD");
            reveal_strlit("PWD");
            reveal_strlit("TYPE");
            assert(ascii_lower("PASV"@[0]) != ascii_lower("TYPE"@[0]));
        },
        Verb::List => {
            reveal_strlit("LIST");
            reveal_strlit("AUTH");
            assert(ascii_lower("LIST"@[0]) != ascii_lower("AUTH"@[0]));
            reveal_strlit("USER");
            assert(ascii_lower("LIST"@[0]) != ascii_lower("USER"@[0]));
            reveal_strlit("PASS");
            assert(ascii_lower("LIST"@[0]) != ascii_lower("PASS"@[0]));
            reveal_strlit("CWD");
            reveal_strlit("PWD");
            reveal_strlit("TYPE");
            assert(ascii_lower("LIST"@[0]) != ascii_lower("TYPE"@[0]));
            reveal_strlit("PASV");
            assert(ascii_lower("LIST"@[0]) != ascii_lower("PASV"@[0]));
        },
        Verb::Retr => {
            reveal_strlit("RETR");
            reveal_strlit("AUTH");
            assert(ascii_lower("RETR"@[0]) != ascii_lower("AUTH"@[0]));
            reveal_strlit("USER");
            assert(ascii_lower("RETR"@[0]) != ascii_lower("USER"@[0]));
            reveal_strlit("PASS");
            assert(ascii_lower("RETR"@[0]) != ascii_lower("PASS"@[0]));
            reveal_strlit("CWD");
            reveal_strlit("PWD");
            reveal_strlit("TYPE");
            assert(ascii_lower("RETR"@[0]) != ascii_lower("TYPE"@[0]));
            reveal_strlit("PASV");
            assert(ascii_lower("RETR"@[0]) != ascii_lower("PASV"@[0]));
            reveal_strlit("LIST");
            assert(ascii_lower("RETR"@[0]) != ascii_lower("LIST"@[0]));
        },
        Verb::Syst => {
            reveal_strlit("SYST");
            reveal_strlit("AUTH");
            assert(ascii_lower("SYST"@[0]) != ascii_lower("AUTH"@[0]));
            reveal_strlit("USER");
            assert(ascii_lower("SYST"@[0]) != ascii_lower("USER"@[0]));
            reveal_strlit("PASS");
            assert(ascii_lower("SYST"@[0]) != ascii_lower("PASS"@[0]));
            reveal_strlit("CWD");
            reveal_strlit("PWD");
            reveal_strlit("TYPE");
            assert(ascii_lower("SYST"@[0]) != ascii_lower("TYPE"@[0]));
            reveal_strlit("PASV");
            assert(ascii_lower("SYST"@[0]) != ascii_lower("PASV"@[0]));
            reveal_strlit("LIST");
            assert(ascii_lower("SYST"@[0]) != ascii_lower("LIST"@[0]));
            reveal_strlit("RETR");
            assert(ascii_lower("SYST"@[0]) != ascii_lower("RETR"@[0]));
        },
        Verb::Stor => {
            reveal_strlit("STOR");
            reveal_strlit("AUTH");
            assert(ascii_lower("STOR"@[0]) != ascii_lower("AUTH"@[0]));
            reveal_strlit("USER");
            assert(ascii_lower("STOR"@[0]) != ascii_lower("USER"@[0]));
            reveal_strlit("PASS");
            assert(ascii_lower("STOR"@[0]) != ascii_lower("PASS"@[0]));
            reveal_strlit("CWD");
            reveal_strlit("PWD");
            reveal_strlit("TYPE");
            assert(ascii_lower("STOR"@[0]) != ascii_lower("TYPE"@[0]));
            reveal_strlit("PASV");
            assert(ascii_lower("STOR"@[0]) != ascii_lower("PASV"@[0]));
            reveal_strlit("LIST");
            assert(ascii_lower("STOR"@[0]) != ascii_lower("LIST"@[0]));
            reveal_strlit("RETR");
            assert(ascii_lower("STOR"@[0]) != ascii_lower("RETR"@[0]));
            reveal_strlit("SYST");
            assert(ascii_lower("STOR"@[1]) != ascii_lower("SYST"@[1]));
        },
        Verb::Feat => {
            reveal_strlit("FEAT");
            reveal_strlit("AUTH");
            assert(ascii_lower("FEAT"@[0]) != ascii_lower("AUTH"@[0]));
            reveal_strlit("USER");
            assert(ascii_lower("FEAT"@[0]) != ascii_lower("USER"@[0]));
            reveal_strlit("PASS");
            assert(ascii_lower("FEAT"@[0]) != ascii_lower("PASS"@[0]));
            reveal_strlit("CWD");
            reveal_strlit("PWD");
            reveal_strlit("TYPE");
            assert(ascii_lower("FEAT"@[0]) != ascii_lower("TYPE"@[0]));
            reveal_strlit("PASV");
            assert(ascii_lower("FEAT"@[0]) != ascii_lower("PASV"@[0]));
            reveal_strlit("LIST");
            assert(ascii_lower("FEAT"@[0]) != ascii_lower("LIST"@[0]));
            reveal_strlit("RETR");
            assert(ascii_lower("FEAT"@[0]) != ascii_lower("RETR"@[0]));
            reveal_strlit("SYST");
            assert(ascii_lower("FEAT"@[0]) != ascii_lower("SYST"@[0]));
            reveal_strlit("STOR");
            assert(ascii_lower("FEAT"@[0]) != ascii_lower("STOR"@[0]));
        },
        Verb::Opts => {
            reveal_strlit("OPTS");
            reveal_strlit("AUTH");
            assert(ascii_lower("OPTS"@[0]) != ascii_lower("AUTH"@[0]));
            reveal_strlit("USER");
            assert(ascii_lower("OPTS"@[0]) != ascii_lower("USER"@[0]));
            reveal_strlit("PASS");
            assert(ascii_lower("OPTS"@[0]) != ascii_lower("PASS"@[0]));
            reveal_strlit("CWD");
            reveal_strlit("PWD");
            reveal_strlit("TYPE");
            assert(ascii_lower("OPTS"@[0]) != ascii_lower("TYPE"@[0]));
            reveal_strlit("PASV");
            assert(ascii_lower("OPTS"@[0]) != ascii_lower("PASV"@[0]));
            reveal_strlit("LIST");
            assert(ascii_lower("OPTS"@[0]) != ascii_lower("LIST"@[0]));
            reveal_strlit("RETR");
            assert(ascii_lower("OPTS"@[0]) != ascii_lower("RETR"@[0]));
            reveal_strlit("SYST");
            assert(ascii_lower("OPTS"@[0]) != ascii_lower("SYST"@[0]));
            reveal_strlit("STOR");
            assert(ascii_lower("OPTS"@[0]) != ascii_lower("STOR"@[0]));
            reveal_strlit("FEAT");
            assert(ascii_lower("OPTS"@[0]) != ascii_lower("FEAT"@[0]));
        },
        Verb::Utf8 => {
            reveal_strlit("UTF8");
            reveal_strlit("AUTH");
            assert(ascii_lower("UTF8"@[0]) != ascii_lower("AUTH"@[0]));
            reveal_strlit("USER");
            assert(ascii_lower("UTF8"@[1]) != ascii_lower("USER"@[1]));
            reveal_strlit("PASS");
            assert(ascii_lower("UTF8"@[0]) != ascii_lower("PASS"@[0]));
            reveal_strlit("CWD");
            reveal_strlit("PWD");
            reveal_strlit("TYPE");
            assert(ascii_lower("UTF8"@[0]) != ascii_lower("TYPE"@[0]));
            reveal_strlit("PASV");
            assert(ascii_lower("UTF8"@[0]) != ascii_lower("PASV"@[0]));
            reveal_strlit("LIST");
            assert(ascii_lower("UTF8"@[0]) != ascii_lower("LIST"@[0]));
            reveal_strlit("RETR");
            assert(ascii_lower("UTF8"@[0]) != ascii_lower("RETR"@[0]));
            reveal_strlit("SYST");
            assert(ascii_lower("UTF8"@[0]) != ascii_lower("SYST"@[0]));
            reveal_strlit("STOR");
            assert(ascii_lower("UTF8"@[0]) != ascii_lower("STOR"@[0]));
            reveal_strlit("FEAT");
            assert(ascii_lower("UTF8"@[0]) != ascii_lower("FEAT"@[0]));
            reveal_strlit("OPTS");
            assert(ascii_lower("UTF8"@[0]) != ascii_lower("OPTS"@[0]));
        },
        Verb::Pbsz => {
            reveal_strlit("PBSZ");
            reveal_strlit("AUTH");
            assert(ascii_lower("PBSZ"@[0]) != ascii_lower("AUTH"@[0]));
            reveal_strlit("USER");
            assert(ascii_lower("PBSZ"@[0]) != ascii_lower("USER"@[0]));
            reveal_strlit("PASS");
            assert(ascii_lower("PBSZ"@[1]) != ascii_lower("PASS"@[1]));
            reveal_strlit("CWD");
            reveal_strlit("PWD");
            reveal_strlit("TYPE");
            assert(ascii_lower("PBSZ"@[0]) != ascii_lower("TYPE"@[0]));
            reveal_strlit("PASV");
            assert(ascii_lower("PBSZ"@[1]) != ascii_lower("PASV"@[1]));
            reveal_strlit("LIST");
            assert(ascii_lower("PBSZ"@[0]) != ascii_lower("LIST"@[0]));
            reveal_strlit("RETR");
            assert(ascii_lower("PBSZ"@[0]) != ascii_lower("RETR"@[0]));
            reveal_strlit("SYST");
            assert(ascii_lower("PBSZ"@[0]) != ascii_lower("SYST"@[0]));
            reveal_strlit("STOR");
            assert(ascii_lower("PBSZ"@[0]) != ascii_lower("STOR"@[0]));
            reveal_strlit("FEAT");
            assert(ascii_lower("PBSZ"@[0]) != ascii_lower("FEAT"@[0]));
            reveal_strlit("OPTS");
            assert(ascii_lower("PBSZ"@[0]) != ascii_lower("OPTS"@[0]));
            reveal_strlit("UTF8");
            assert(ascii_lower("PBSZ"@[0]) != ascii_lower("UTF8"@[0]));
        },
        Verb::Rnfr => {
            reveal_strlit("RNFR");
            reveal_strlit("AUTH");
            assert(ascii_lower("RNFR"@[0]) != ascii_lower("AUTH"@[0]));
            reveal_strlit("USER");
            assert(ascii_lower("RNFR"@[0]) != ascii_lower("USER"@[0]));
            reveal_strlit("PASS");
            assert(ascii_lower("RNFR"@[0]) != ascii_lower("PASS"@[0]));
            reveal_strlit("CWD");
            reveal_strlit("PWD");
            reveal_strlit("TYPE");
            assert(ascii_lower("RNFR"@[0]) != ascii_lower("TYPE"@[0]));
            reveal_strlit("PASV");
            assert(ascii_lower("RNFR"@[0]) != ascii_lower("PASV"@[0]));
            reveal_strlit("LIST");
            assert(ascii_lower("RNFR"@[0]) != ascii_lower("LIST"@[0]));
            reveal_strlit("RETR");
            assert(ascii_lower("RNFR"@[1]) != ascii_lower("RETR"@[1]));
            reveal_strlit("SYST");
            assert(ascii_lower("RNFR"@[0]) != ascii_lower("SYST"@[0]));
            reveal_strlit("STOR");
            assert(ascii_lower("RNFR"@[0]) != ascii_lower("STOR"@[0]));
            reveal_strlit("FEAT");
            assert(ascii_lower("RNFR"@[0]) != ascii_lower("FEAT"@[0]));
            reveal_strlit("OPTS");
            assert(ascii_lower("RNFR"@[0]) != ascii_lower("OPTS"@[0]));
            reveal_strlit("UTF8");
            assert(ascii_lower("RNFR"@[0]) != ascii_lower("UTF8"@[0]));
            reveal_strlit("PBSZ");
            assert(ascii_lower("RNFR"@[0]) != ascii_lower("PBSZ"@[0]));
        },
        Verb::Rnto => {
            reveal_strlit("RNTO");
            reveal_strlit("AUTH");
            assert(ascii_lower("RNTO"@[0]) != ascii_lower("AUTH"@[0]));
            reveal_strlit("USER");
            assert(ascii_lower("RNTO"@[0]) != ascii_lower("USER"@[0]));
            reveal_strlit("PASS");
            assert(ascii_lower("RNTO"@[0]) != ascii_lower("PASS"@[0]));
            reveal_strlit("CWD");
            reveal_strlit("PWD");
            reveal_strlit("TYPE");
            assert(ascii_lower("RNTO"@[0]) != ascii_lower("TYPE"@[0]));
            reveal_strlit("PASV");
            assert(ascii_lower("RNTO"@[0]) != ascii_lower("PASV"@[0]));
            reveal_strlit("LIST");
            assert(ascii_lower("RNTO"@[0]) != ascii_lower("LIST"@[0]));
            reveal_strlit("RETR");
            assert(ascii_lower("RNTO"@[1]) != ascii_lower("RETR"@[1]));
            reveal_strlit("SYST");
            assert(ascii_lower("RNTO"@[0]) != ascii_lower("SYST"@[0]));
            reveal_strlit("STOR");
            assert(ascii_lower("RNTO"@[0]) != ascii_lower("STOR"@[0]));
            reveal_strlit("FEAT");
            assert(ascii_lower("RNTO"@[0]) != ascii_lower("FEAT"@[0]));
            reveal_strlit("OPTS");
            assert(ascii_lower("RNTO"@[0]) != ascii_lower("OPTS"@[0]));
            reveal_strlit("UTF8");
            assert(ascii_lower("RNTO"@[0]) != ascii_lower("UTF8"@[0]));
            reveal_strlit("PBSZ");
            assert(ascii_lower("RNTO"@[0]) != ascii_lower("PBSZ"@[0]));
            reveal_strlit("RNFR");
            assert(ascii_lower("RNTO"@[2]) != ascii_lower("RNFR"@[2]));
        },
    }
}

/// A line made of a word without a space, a space, and more falls into the
/// word and what follows the space.
pub proof fn lemma_split_line(word: Seq<char>, rest: Seq<char>)
    requires
        spaceless(word),
    ensures
        split_line(word + seq![' '] + rest) == (word, rest),
{
    let line = word + seq![' '] + rest;
    lemma_first_space_is(line, word.len() as int);
    assert(line.subrange(0, word.len() as int) =~= word);
    assert(line.subrange(word.len() as int + 1, line.len() as int) =~= rest);
}

/// A line without a space is all verb: its argument is empty.
pub proof fn lemma_split_line_without_space(line: Seq<char>)
    requires
        spaceless(line),
    ensures
        split_line(line) == (line, Seq::<char>::empty()),
        parse_line(line) == match verb_of(trim(line)) {
            Some(verb) => command_of(verb, Seq::<char>::empty()),
            None => Err(unknown_command(trim(line))),
        },
{
    lemma_first_space_is(line, line.len() as int);
}

impl CommandModel {
    /// The verb of the command.
    pub open spec fn verb(self) -> Verb {
        match self {
            CommandModel::Auth(_) => Verb::Auth,
            CommandModel::User(_) => Verb::User,
            CommandModel::Pass(_) => Verb::Pass,
            CommandModel::Cwd(_) => Verb::Cwd,
            CommandModel::Pwd => Verb::Pwd,
            CommandModel::Type(_) => Verb::Type,
            CommandModel::Pasv => Verb::Pasv,
            CommandModel::List => Verb::List,
            CommandModel::Retr(_) => Verb::Retr,
            CommandModel::Syst => Verb::Syst,
            CommandModel::Stor(_) => Verb::Stor,
            CommandModel::Feat => Verb::Feat,
            CommandModel::Opts(_) => Verb::Opts,
            CommandModel::Utf8 => Verb::Utf8,
            CommandModel::Pbsz => Verb::Pbsz,
            CommandModel::Rnfr(_) => Verb::Rnfr,
            CommandModel::Rnto(_) => Verb::Rnto,
        }
    }

    /// The argument of the command as a client writes it, if the command has one.
    pub open spec fn argument(self) -> Option<Seq<char>> {
        match self {
            CommandModel::Auth(AuthType::Ssl) => Some("SSL"@),
            CommandModel::Auth(AuthType::Tls) => Some("TLS"@),
            CommandModel::User(name) => Some(name),
            CommandModel::Pass(password) => Some(password),
            CommandModel::Cwd(path) => Some(path),
            CommandModel::Type(TransferType::Ascii) => Some("A"@),
            CommandModel::Type(TransferType::Binary) => Some("I"@),
            CommandModel::Retr(path) => Some(path),
            CommandModel::Stor(path) => Some(path),
            CommandModel::Opts(options) => Some(options),
            CommandModel::Rnfr(path) => Some(path),
            CommandModel::Rnto(path) => Some(path),
            _ => None,
        }
    }

    /// The command as a client writes it: the verb, and after a space the
    /// argument, if the command has one.
    pub open spec fn line(self) -> Seq<char> {
        match self.argument() {
            Some(argument) => self.verb().keyword() + seq![' '] + argument,
            None => self.verb().keyword(),
        }
    }

    /// The command is one that reading a line can give: a text that it holds
    /// neither starts nor ends with white space, and a path is normalized: it
    /// holds no backslash.
    pub open spec fn well_formed(self) -> bool {
        match self {
            CommandModel::User(text)
            | CommandModel::Pass(text)
            | CommandModel::Cwd(text)
            | CommandModel::Opts(text) => trimmed(text),
            CommandModel::Retr(path)
            | CommandModel::Stor(path)
            | CommandModel::Rnfr(path)
            | CommandModel::Rnto(path) => trimmed(path) && normalized_path(path) == path,
            _ => true,
        }
    }
}

/// Reading the line that a command is written as gives the command back.
pub proof fn lemma_parse_line_of_command(c: CommandModel)
    requires
        c.well_formed(),
    ensures
        parse_line(c.line()) == Ok::<CommandModel, Seq<char>>(c),
{
    let verb = c.verb();
    lemma_verb_of_keyword(verb);
    match c.argument() {
        Some(argument) => {
            lemma_split_line(verb.keyword(), argument);
            reveal_strlit("SSL");
            reveal_strlit("TLS");
            reveal_strlit("A");
            reveal_strlit("I");
            reveal_strlit("ASCII");
            reveal_strlit("BINARY");
            assert(trim(argument) == argument);
            assert(normalized_path(argument).len() == argument.len());
            match c {
                CommandModel::Type(TransferType::Ascii) => {
                    assert(uppercase("A"@) =~= "A"@);
                },
                CommandModel::Type(TransferType::Binary) => {
                    assert(uppercase("I"@) =~= "I"@);
                    assert("I"@[0] != "A"@[0]);
                },
                _ => {},
            }
        },
        None => {
            lemma_split_line_without_space(verb.keyword());
        },
    }
}

/// Being the same but for the case of ASCII letters is symmetric and transitive.
pub proof fn lemma_same_ignoring_ascii_case(a: Seq<char>, b: Seq<char>, c: Seq<char>)
    ensures
        same_ignoring_ascii_case(a, a),
        same_ignoring_ascii_case(a, b) ==> same_ignoring_ascii_case(b, a),
        same_ignoring_ascii_case(a, b) && same_ignoring_ascii_case(b, c)
            ==> same_ignoring_ascii_case(a, c),
{
    if same_ignoring_ascii_case(a, b) {
        assert forall|i: int| 0 <= i < b.len() implies ascii_lower(#[trigger] b[i]) == ascii_lower(
            a[i],
        ) by {
            assert(ascii_lower(a[i]) == ascii_lower(b[i]));
        }
        if same_ignoring_ascii_case(b, c) {
            assert forall|i: int| 0 <= i < a.len() implies ascii_lower(#[trigger] a[i])
                == ascii_lower(c[i]) by {
                assert(ascii_lower(b[i]) == ascii_lower(c[i]));
            }
        }
    }
}

/// Two words that differ in the case of their letters alone name the same verbs.
proof fn lemma_names_alike(a: Seq<char>, b: Seq<char>, verb: Verb)
    requires
        same_ignoring_ascii_case(a, b),
    ensures
        names(a, verb) == names(b, verb),
{
    lemma_same_ignoring_ascii_case(a, b, verb.keyword());
    lemma_same_ignoring_ascii_case(b, a, verb.keyword());
}

/// Two words that differ in the case of their letters alone are the same verb, or none.
pub proof fn lemma_verb_of_ignores_case(a: Seq<char>, b: Seq<char>)
    requires
        same_ignoring_ascii_case(a, b),
    ensures
        verb_of(a) == verb_of(b),
{
    lemma_names_alike(a, b, Verb::Auth);
    lemma_names_alike(a, b, Verb::User);
    lemma_names_alike(a, b, Verb::Pass);
    lemma_names_alike(a, b, Verb::Cwd);
    lemma_names_alike(a, b, Verb::Pwd);
    lemma_names_alike(a, b, Verb::Type);
    lemma_names_alike(a, b, Verb::Pasv);
    lemma_names_alike(a, b, Verb::List);
    lemma_names_alike(a, b, Verb::Retr);
    lemma_names_alike(a, b, Verb::Syst);
    lemma_names_alike(a, b, Verb::Stor);
    lemma_names_alike(a, b, Verb::Feat);
    lemma_names_alike(a, b, Verb::Opts);
    lemma_names_alike(a, b, Verb::Utf8);
    lemma_names_alike(a, b, Verb::Pbsz);
    lemma_names_alike(a, b, Verb::Rnfr);
    lemma_names_alike(a, b, Verb::Rnto);
}

/// What a line says depends neither on the case of the letters of its verb nor
/// on white space around the verb or around the argument: two lines that
/// differ in these alone are the same command, or both are none.
pub proof fn lemma_parse_line_ignores_case_and_space(
    word1: Seq<char>,
    rest1: Seq<char>,
    word2: Seq<char>,
    rest2: Seq<char>,
)
    requires
        spaceless(word1),
        spaceless(word2),
        same_ignoring_ascii_case(trim(word1), trim(word2)),
        trim(rest1) == trim(rest2),
    ensures
        verb_of(trim(word1)) == verb_of(trim(word2)),
        verb_of(trim(word1)) is Some ==> parse_line(word1 + seq![' '] + rest1) == parse_line(
            word2 + seq![' '] + rest2,
        ),
        verb_of(trim(word1)) is None ==> parse_line(word1 + seq![' '] + rest1) is Err
            && parse_line(word2 + seq![' '] + rest2) is Err,
{
    lemma_split_line(word1, rest1);
    lemma_split_line(word2, rest2);
    lemma_verb_of_ignores_case(trim(word1), trim(word2));
}

} // verus!
