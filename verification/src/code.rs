//! Reply codes and replies, and how a reply is written on the control channel.

use crate::text::{
    decimal, escape_quotes, lemma_encode_utf8_concat, push_decimal, push_escaped,
};
use vstd::prelude::*;
use vstd::string::StrSliceExecFns;
use vstd::string::StringExecFns;
use vstd::utf8::{encode_utf8, is_ascii_chars_encode_utf8};

verus! {

/// A TCP port.
#[derive(Debug, Clone, Copy, PartialEq, Eq, Hash, Default)]
pub struct Port(pub u16);

impl Port {
    /// The high and the low byte of the port, as a passive-mode reply gives them.
    pub open spec fn spec_p1_p2(self) -> (u8, u8) {
        ((self.0 >> 8) as u8, (self.0 & 0xFF) as u8)
    }

    /// The high and the low byte of the port: the port is `p1 * 256 + p2`.
    #[verifier::when_used_as_spec(spec_p1_p2)]
    pub fn p1_p2(self) -> (r: (u8, u8))
        ensures
            r == self.spec_p1_p2(),
            r.0 == self.0 >> 8,
            r.1 == self.0 & 0xFF,
            r.0 == self.0 / 256,
            r.1 == self.0 % 256,
            r.0 * 256 + r.1 == self.0,
    {
        let x: u16 = self.0;
        assert((x >> 8) == x / 256 && (x & 0xFF) == x % 256 && (x >> 8) < 256 && (x & 0xFF) < 256)
            by (bit_vector);
        let p1 = (self.0 >> 8) as u8;
        let p2 = (self.0 & 0xFF) as u8;
        (p1, p2)
    }
}

/// The reply codes that carry no structure of their own.
#[derive(Debug, Clone, Copy, PartialEq, Eq, Hash)]
pub enum SimpleReturnCode {
    RestartMarker,
    ServiceReady,
    DataConnectionAlreadyOpen,
    OpeningDataConnection,
    Okay,
    Superfluous,
    SystemStatus,
    DirectoryStatus,
    FileStatus,
    HelpMessage,
    ClosingControlConnection,
    ClosingDataConnectionNoTransfer,
    ClosingDataConnectionSuccessful,
    UserLoggedIn,
    AuthenticationSuccessful,
    NeedPassword,
    NeedAccount,
    FileActionPending,
    ServiceNotAvailable,
    CantOpenDataConnection,
    TransferAborted,
    FileActionNotTaken,
    LocalError,
    InsufficientStorage,
    SyntaxError,
    CommandNotImplemented,
    BadSequence,
    ParameterNotImplemented,
    NotLoggedIn,
    NeetAccountForStoringFiles,
    FileUnavailable,
    ExceededStorageAllocation,
    FilenameNotAllowed,
}

impl SimpleReturnCode {
    /// The three-digit number of the code.
    pub open spec fn spec_code(self) -> u16 {
        match self {
            SimpleReturnCode::RestartMarker => 110,
            SimpleReturnCode::ServiceReady => 120,
            SimpleReturnCode::DataConnectionAlreadyOpen => 125,
            SimpleReturnCode::OpeningDataConnection => 150,
            SimpleReturnCode::Okay => 200,
            SimpleReturnCode::Superfluous => 202,
            SimpleReturnCode::SystemStatus => 211,
            SimpleReturnCode::DirectoryStatus => 212,
            SimpleReturnCode::FileStatus => 213,
            SimpleReturnCode::HelpMessage => 214,
            SimpleReturnCode::ClosingControlConnection => 221,
            SimpleReturnCode::ClosingDataConnectionNoTransfer => 225,
            SimpleReturnCode::ClosingDataConnectionSuccessful => 226,
            SimpleReturnCode::UserLoggedIn => 230,
            SimpleReturnCode::AuthenticationSuccessful => 234,
            SimpleReturnCode::NeedPassword => 331,
            SimpleReturnCode::NeedAccount => 332,
            SimpleReturnCode::FileActionPending => 350,
            SimpleReturnCode::ServiceNotAvailable => 421,
            SimpleReturnCode::CantOpenDataConnection => 425,
            SimpleReturnCode::TransferAborted => 426,
            SimpleReturnCode::FileActionNotTaken => 450,
            SimpleReturnCode::LocalError => 451,
            SimpleReturnCode::InsufficientStorage => 452,
            SimpleReturnCode::SyntaxError => 501,
            SimpleReturnCode::CommandNotImplemented => 502,
            SimpleReturnCode::BadSequence => 503,
            SimpleReturnCode::ParameterNotImplemented => 504,
            SimpleReturnCode::NotLoggedIn => 530,
            SimpleReturnCode::NeetAccountForStoringFiles => 532,
            SimpleReturnCode::FileUnavailable => 550,
            SimpleReturnCode::ExceededStorageAllocation => 552,
            SimpleReturnCode::FilenameNotAllowed => 553,
        }
    }

    /// The three-digit number of the code.
    #[verifier::when_used_as_spec(spec_code)]
    pub fn code(self) -> (r: u16)
        ensures
            r == self.spec_code(),
            100 <= r <= 999,
    {
        match self {
            SimpleReturnCode::RestartMarker => 110,
            SimpleReturnCode::ServiceReady => 120,
            SimpleReturnCode::DataConnectionAlreadyOpen => 125,
            SimpleReturnCode::OpeningDataConnection => 150,
            SimpleReturnCode::Okay => 200,
            SimpleReturnCode::Superfluous => 202,
            SimpleReturnCode::SystemStatus => 211,
            SimpleReturnCode::DirectoryStatus => 212,
            SimpleReturnCode::FileStatus => 213,
            SimpleReturnCode::HelpMessage => 214,
            SimpleReturnCode::ClosingControlConnection => 221,
            SimpleReturnCode::ClosingDataConnectionNoTransfer => 225,
            SimpleReturnCode::ClosingDataConnectionSuccessful => 226,
            SimpleReturnCode::UserLoggedIn => 230,
            SimpleReturnCode::AuthenticationSuccessful => 234,
            SimpleReturnCode::NeedPassword => 331,
            SimpleReturnCode::NeedAccount => 332,
            SimpleReturnCode::FileActionPending => 350,
            SimpleReturnCode::ServiceNotAvailable => 421,
            SimpleReturnCode::CantOpenDataConnection => 425,
            SimpleReturnCode::TransferAborted => 426,
            SimpleReturnCode::FileActionNotTaken => 450,
            SimpleReturnCode::LocalError => 451,
            SimpleReturnCode::InsufficientStorage => 452,
            SimpleReturnCode::SyntaxError => 501,
            SimpleReturnCode::CommandNotImplemented => 502,
            SimpleReturnCode::BadSequence => 503,
            SimpleReturnCode::ParameterNotImplemented => 504,
            SimpleReturnCode::NotLoggedIn => 530,
            SimpleReturnCode::NeetAccountForStoringFiles => 532,
            SimpleReturnCode::FileUnavailable => 550,
            SimpleReturnCode::ExceededStorageAllocation => 552,
            SimpleReturnCode::FilenameNotAllowed => 553,
        }
    }
}

/// A reply of the server.
///
/// The features of a `Features` reply form a set: no feature stands twice in
/// the list (see [`FtpResponse::well_formed`]). They are written in the order
/// of the list.
#[derive(Debug, Clone, PartialEq, Eq)]
pub enum FtpResponse {
    /// A code, and a message or none.
    Simple(SimpleReturnCode, Option<String>),
    /// The list of features, on several lines.
    Features(Vec<String>),
    /// The name of the system.
    NameSystemType(String),
    /// The greeting.
    ReadyForNewUser(String),
    /// The IPv4 address and the port on which the server listens for the data connection.
    EnteringPassiveMode([u8; 4], Port),
    /// A file action was done; the path it was done on, or none.
    FileActionOk(Option<String>),
    /// A directory, by its path.
    DirectoryCreated(String),
}

/// No text stands twice in `f`.
pub open spec fn distinct(f: Seq<String>) -> bool {
    forall|i: int, j: int| 0 <= i < j < f.len() ==> (#[trigger] f[i])@ != (#[trigger] f[j])@
}

/// The lines of a features reply that name the features: each feature after a
/// space, on a line of its own.
pub open spec fn feature_lines(f: Seq<String>) -> Seq<char>
    decreases f.len(),
{
    if f.len() == 0 {
        seq![]
    } else {
        feature_lines(f.drop_last()) + seq![' '] + f.last()@ + seq!['\r', '\n']
    }
}

/// The address part of a passive-mode reply: the four bytes of the address and
/// the two of the port, in decimal, between brackets.
pub open spec fn passive_address(ip: [u8; 4], port: Port) -> Seq<char> {
    seq!['('] + decimal(ip[0] as nat) + seq![','] + decimal(ip[1] as nat) + seq![','] + decimal(
        ip[2] as nat,
    ) + seq![','] + decimal(ip[3] as nat) + seq![','] + decimal((port.0 >> 8) as nat) + seq![',']
        + decimal((port.0 & 0xFF) as nat) + seq![')']
}

impl FtpResponse {
    /// `Features` holds no feature twice.
    pub open spec fn well_formed(&self) -> bool {
        self matches FtpResponse::Features(f) ==> distinct(f@)
    }

    /// The number of the reply.
    pub open spec fn spec_code(&self) -> u16 {
        match self {
            FtpResponse::Simple(code, _) => code.spec_code(),
            FtpResponse::Features(_) => 211,
            FtpResponse::NameSystemType(_) => 215,
            FtpResponse::ReadyForNewUser(_) => 220,
            FtpResponse::EnteringPassiveMode(_, _) => 227,
            FtpResponse::FileActionOk(_) => 250,
            FtpResponse::DirectoryCreated(_) => 257,
        }
    }

    /// What stands between the number with its space and the end of the last line.
    pub open spec fn body(&self) -> Seq<char> {
        match self {
            FtpResponse::Simple(_, Some(msg)) => escape_quotes(msg@),
            FtpResponse::Simple(_, None) => seq![],
            FtpResponse::Features(f) => "Features:\r\n"@ + feature_lines(f@) + decimal(211)
                + " End"@,
            FtpResponse::NameSystemType(msg) => escape_quotes(msg@),
            FtpResponse::ReadyForNewUser(msg) => escape_quotes(msg@),
            FtpResponse::EnteringPassiveMode(ip, port) => passive_address(*ip, *port),
            FtpResponse::FileActionOk(Some(path)) => seq!['"'] + escape_quotes(path@) + seq!['"'],
            FtpResponse::FileActionOk(None) => seq![],
            FtpResponse::DirectoryCreated(path) => seq!['"'] + escape_quotes(path@) + seq!['"'],
        }
    }

    /// The reply as text: the number, a space, the body, and the end of the line.
    pub open spec fn text(&self) -> Seq<char> {
        decimal(self.spec_code() as nat) + seq![' '] + self.body() + seq!['\r', '\n']
    }

    /// The reply as it goes over the control channel: its text in UTF-8.
    pub open spec fn wire(&self) -> Seq<u8> {
        encode_utf8(self.text())
    }

    /// A reply that is a code alone.
    pub fn simple(code: SimpleReturnCode) -> (r: FtpResponse)
        ensures
            r == FtpResponse::Simple(code, None),
    {
        FtpResponse::Simple(code, None)
    }

    /// A reply that is a code and a message.
    pub fn simple_msg(code: SimpleReturnCode, msg: &str) -> (r: FtpResponse)
        ensures
            r matches FtpResponse::Simple(c, Some(m)) && c == code && m@ == msg@,
    {
        FtpResponse::Simple(code, Some(msg.to_owned()))
    }

    /// The number of the reply.
    #[verifier::when_used_as_spec(spec_code)]
    pub fn code(&self) -> (r: u16)
        ensures
            r == self.spec_code(),
    {
        match self {
            FtpResponse::Simple(code, _) => code.code(),
            FtpResponse::Features(_) => 211,
            FtpResponse::NameSystemType(_) => 215,
            FtpResponse::ReadyForNewUser(_) => 220,
            FtpResponse::EnteringPassiveMode(_, _) => 227,
            FtpResponse::FileActionOk(_) => 250,
            FtpResponse::DirectoryCreated(_) => 257,
        }
    }

    /// The text of the reply.
    pub fn to_text(&self) -> (s: String)
        ensures
            s@ == self.text(),
    {
        let mut s = String::new();
        let code = self.code();
        push_decimal(&mut s, code as u64);
        s.push(' ');
        let ghost head = s@;
        match self {
            FtpResponse::Simple(_, Some(msg)) => {
                push_escaped(&mut s, msg.as_str());
            },
            FtpResponse::Simple(_, None) => {},
            FtpResponse::Features(f) => {
                s.append("Features:\r\n");
                push_feature_lines(&mut s, f);
                push_decimal(&mut s, code as u64);
                s.append(" End");
            },
            FtpResponse::NameSystemType(msg) => {
                push_escaped(&mut s, msg.as_str());
            },
            FtpResponse::ReadyForNewUser(msg) => {
                push_escaped(&mut s, msg.as_str());
            },
            FtpResponse::EnteringPassiveMode(ip, port) => {
                push_passive_address(&mut s, ip, *port);
            },
            FtpResponse::FileActionOk(Some(path)) => {
                s.push('"');
                push_escaped(&mut s, path.as_str());
                s.push('"');
            },
            FtpResponse::FileActionOk(None) => {},
            FtpResponse::DirectoryCreated(path) => {
                s.push('"');
                push_escaped(&mut s, path.as_str());
                s.push('"');
            },
        }
        assert(s@ =~= head + self.body());
        s.push('\r');
        s.push('\n');
        assert(s@ =~= self.text());
        s
    }

    /// The bytes to write on the control channel for this reply: its text in
    /// UTF-8. They end with a carriage return and a line feed.
    pub fn to_bytes(self) -> (bytes: Vec<u8>)
        ensures
            bytes@ == self.wire(),
            bytes@.len() >= 2,
            bytes@[bytes@.len() - 2] == 13,
            bytes@[bytes@.len() - 1] == 10,
    {
        proof {
            lemma_reply_ends_line(self);
        }
        let s = self.to_text();
        s.as_str().as_bytes_vec()
    }
}

/// Appends the lines that name the features.
fn push_feature_lines(s: &mut String, f: &Vec<String>)
    ensures
        final(s)@ == old(s)@ + feature_lines(f@),
{
    let mut i: usize = 0;
    assert(f@.take(0) =~= Seq::<String>::empty());
    while i < f.len()
        invariant
            i <= f.len(),
            s@ == old(s)@ + feature_lines(f@.take(i as int)),
        decreases f.len() - i,
    {
        assert(f@.take(i + 1).drop_last() =~= f@.take(i as int));
        s.push(' ');
        s.append(f[i].as_str());
        s.push('\r');
        s.push('\n');
        assert(s@ =~= old(s)@ + feature_lines(f@.take(i + 1)));
        i = i + 1;
    }
    assert(f@.take(f.len() as int) =~= f@);
}

/// Appends the address part of a passive-mode reply.
fn push_passive_address(s: &mut String, ip: &[u8; 4], port: Port)
    ensures
        final(s)@ == old(s)@ + passive_address(*ip, port),
{
    let (p1, p2) = port.p1_p2();
    s.push('(');
    push_decimal(s, ip[0] as u64);
    s.push(',');
    push_decimal(s, ip[1] as u64);
    s.push(',');
    push_decimal(s, ip[2] as u64);
    s.push(',');
    push_decimal(s, ip[3] as u64);
    s.push(',');
    push_decimal(s, p1 as u64);
    s.push(',');
    push_decimal(s, p2 as u64);
    s.push(')');
    assert(s@ =~= old(s)@ + passive_address(*ip, port));
}

/// Every reply ends with the end of a line: as text with a carriage return
/// and a line feed, and on the wire with the two bytes that encode them.
pub proof fn lemma_reply_ends_line(reply: FtpResponse)
    ensures
        reply.text().len() >= 2,
        reply.text()[reply.text().len() - 2] == '\r',
        reply.text()[reply.text().len() - 1] == '\n',
        reply.wire().len() >= 2,
        reply.wire()[reply.wire().len() - 2] == 13,
        reply.wire()[reply.wire().len() - 1] == 10,
{
    let head = decimal(reply.spec_code() as nat) + seq![' '] + reply.body();
    let end = seq!['\r', '\n'];
    assert(reply.text() =~= head + end);
    lemma_encode_utf8_concat(head, end);
    is_ascii_chars_encode_utf8(end);
    assert(end[0] as u8 == 13 && end[1] as u8 == 10);
}

/// The number of the passive-mode reply, in decimal.
proof fn lemma_decimal_227()
    ensures
        decimal(227) == seq!['2', '2', '7'],
{
    reveal_with_fuel(decimal, 3);
    assert(decimal(227) =~= seq!['2', '2', '7']);
}

/// The reply that tells of the address `ip` and the port `port` is, as text,
/// `227 (a,b,c,d,p1,p2)` and the end of the line, where `a` to `d` are the
/// bytes of the address and `p1` and `p2` the high and the low byte of the port.
pub proof fn lemma_passive_mode_text(ip: [u8; 4], port: Port)
    ensures
        FtpResponse::EnteringPassiveMode(ip, port).text() == "227 ("@ + decimal(ip[0] as nat)
            + ","@ + decimal(ip[1] as nat) + ","@ + decimal(ip[2] as nat) + ","@ + decimal(
            ip[3] as nat,
        ) + ","@ + decimal((port.0 >> 8) as nat) + ","@ + decimal((port.0 & 0xFF) as nat)
            + ")\r\n"@,
        (port.0 >> 8) * 256 + (port.0 & 0xFF) == port.0,
{
    reveal_strlit("227 (");
    reveal_strlit(",");
    reveal_strlit(")\r\n");
    lemma_decimal_227();
    let x: u16 = port.0;
    assert((x >> 8) * 256 + (x & 0xFF) == x) by (bit_vector);
    assert(FtpResponse::EnteringPassiveMode(ip, port).text() =~= "227 ("@ + decimal(ip[0] as nat)
        + ","@ + decimal(ip[1] as nat) + ","@ + decimal(ip[2] as nat) + ","@ + decimal(
        ip[3] as nat,
    ) + ","@ + decimal((port.0 >> 8) as nat) + ","@ + decimal((port.0 & 0xFF) as nat)
        + ")\r\n"@);
}

} // verus!
