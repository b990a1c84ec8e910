//! One session on the control channel.
//!
//! The session does no input or output itself. It is told what has happened
//! and says what is to be done next: [`Ftp::handle`] takes an [`Event`] and
//! gives an [`Action`]. Whoever runs the session performs the action and comes
//! back with the event that it ended in. It is also whoever runs the session
//! that looks at the clock: the time that a listing is taken at comes with
//! the listing.

pub mod features;
pub mod invariants;

use crate::builder::{FtpBuilder, Security};
use crate::code::{FtpResponse, SimpleReturnCode};
use crate::ftp::features::{merge_features, merged_features, texts};
use crate::command::auth::AuthType;
use crate::command::{parse_line, Command};
use crate::handler::{
    listable, listing_payload, listing_text, FileListing, PassiveConn,
};
use crate::text::{chars_of, normalize_path, normalized_path, trim, trim_slice};
use crate::tls::{MaybeTls, TlsUpgradeError, Upgrade};
use vstd::prelude::*;
use vstd::utf8::{decode_utf8, encode_utf8, valid_utf8};

verus! {

/// `std::string::FromUtf8Error`: why bytes are no UTF-8. It is carried along
/// as it is; nothing here looks into it.
#[verifier::external_type_specification]
#[verifier::external_body]
pub struct ExFromUtf8Error(std::string::FromUtf8Error);

/// `String::from_utf8` gives the text that the bytes encode, and fails if and
/// only if they are no UTF-8.
pub assume_specification[ String::from_utf8 ](vec: Vec<u8>) -> (r: Result<
    String,
    std::string::FromUtf8Error,
>)
    ensures
        match r {
            Ok(text) => valid_utf8(vec@) && text@ == decode_utf8(vec@),
            Err(_) => !valid_utf8(vec@),
        },
;

/// `std::io::Error::new`: the error of the kind `InvalidData` that wraps `e`.
/// Nothing is claimed of it.
#[verifier::external_body]
fn invalid_data(e: std::string::FromUtf8Error) -> (error: std::io::Error) {
    std::io::Error::new(std::io::ErrorKind::InvalidData, e)
}

/// Why a session ended in failure.
#[derive(Debug)]
pub enum HandleError<HandleErr> {
    /// Writing to the control channel failed.
    Io(std::io::Error),
    /// The handler failed where the session cannot go on without it.
    Handler(HandleErr),
    /// Reading from the control channel failed.
    Read(ReadError),
    /// The control channel could not be upgraded to TLS.
    TlsUpgrade(TlsUpgradeError),
}

/// Why no command could be read.
#[derive(Debug)]
pub enum ReadError {
    /// The control channel failed, or what came over it was no UTF-8.
    Io(std::io::Error),
    /// The line is no command; the message says why.
    Parse(String),
}

/// What was read from the control channel.
#[derive(Debug)]
pub enum CommandRead {
    /// A command.
    Command(Command),
    /// Nothing but white space, or nothing at all: the client has gone.
    Disconnect,
}

/// Whether `byte` ends the line of which `before` has been read: it is a line
/// feed and follows a carriage return.
pub open spec fn ends_line(before: Seq<u8>, byte: u8) -> bool {
    byte == 10 && before.len() > 0 && before.last() == 13
}

/// The bytes of a line of the control channel, as far as they have been read.
#[derive(Debug)]
pub struct LineBuffer {
    pub bytes: Vec<u8>,
}

impl LineBuffer {
    /// Nothing has been read.
    pub fn new() -> (buffer: LineBuffer)
        ensures
            buffer.bytes@ == Seq::<u8>::empty(),
    {
        LineBuffer { bytes: Vec::new() }
    }

    /// Takes the next byte that was read, and says whether the line is
    /// complete with it. A line is complete with the line feed that follows a
    /// carriage return; the two are then dropped from it.
    pub fn push(&mut self, byte: u8) -> (complete: bool)
        ensures
            complete == ends_line(old(self).bytes@, byte),
            final(self).bytes@ == if complete {
                old(self).bytes@.drop_last()
            } else {
                old(self).bytes@.push(byte)
            },
    {
        let len = self.bytes.len();
        if byte == 10 && len > 0 && self.bytes[len - 1] == 13 {
            self.bytes.truncate(len - 1);
            assert(self.bytes@ =~= old(self).bytes@.drop_last());
            true
        } else {
            self.bytes.push(byte);
            false
        }
    }

    /// The line: what has been read, without the end of the line.
    pub fn into_line(self) -> (line: Vec<u8>)
        ensures
            line == self.bytes,
    {
        self.bytes
    }
}

/// `read` is what the bytes `line` are read as.
///
/// Bytes that are no UTF-8 are an error of the channel. A line of nothing
/// but white space means that the client has gone. Any other line is a
/// command, or a message that says why it is none.
pub open spec fn reads_as(line: Seq<u8>, read: Result<CommandRead, ReadError>) -> bool {
    if !valid_utf8(line) {
        read matches Err(ReadError::Io(_))
    } else if trim(decode_utf8(line)).len() == 0 {
        read matches Ok(CommandRead::Disconnect)
    } else {
        match parse_line(decode_utf8(line)) {
            Ok(command) => read matches Ok(CommandRead::Command(c)) && c@ == command,
            Err(message) => read matches Err(ReadError::Parse(m)) && m@ == message,
        }
    }
}

/// What the line `line` of the control channel is read as. The line is what
/// was read up to the end of a line, or up to the end of the stream.
pub fn read_command(line: Vec<u8>) -> (read: Result<CommandRead, ReadError>)
    ensures
        reads_as(line@, read),
{
    let text = match String::from_utf8(line) {
        Ok(text) => text,
        Err(e) => {
            return Err(ReadError::Io(invalid_data(e)));
        },
    };
    let chars = chars_of(text.as_str());
    if trim_slice(chars.as_slice()).len() == 0 {
        return Ok(CommandRead::Disconnect);
    }
    match Command::from_chars(chars.as_slice()) {
        Ok(command) => Ok(CommandRead::Command(command)),
        Err(message) => Err(ReadError::Parse(message)),
    }
}

/// What is sent over a data connection, and in which direction.
#[derive(Debug)]
pub enum Transfer {
    /// The listing of the current directory, to the client.
    List,
    /// The file with this path, to the client.
    Retrieve(String),
    /// The file with this path, from the client.
    Store(String),
}

/// How far a client has come in logging in.
#[derive(Debug)]
pub enum Phase {
    /// The client has not said who it is.
    AwaitingUser,
    /// The client has given this user name, and no password yet.
    AwaitingPass(String),
    /// The client is logged in.
    Authenticated,
}

/// When a handshake takes place.
#[derive(Debug, Clone, Copy, PartialEq, Eq)]
pub enum Handshake {
    /// Before anything else, because the setup says so.
    Implicit,
    /// When the client has asked for it.
    Explicit,
}

/// What follows a reply once it is written.
#[derive(Debug)]
pub enum AfterSend<Factory, HandleErr> {
    /// The next command is read.
    Read,
    /// The control channel is upgraded to TLS.
    Upgrade,
    /// The data connection for this transfer is accepted.
    Accept(Transfer),
    /// This listener becomes the one for the next transfer; then the next
    /// command is read.
    Install(Factory),
    /// The session ends, with this result.
    Finish(Result<(), HandleError<HandleErr>>),
}

/// What a session waits for: the event that the action it gave last ends in.
#[derive(Debug)]
pub enum Waiting<Factory, HandleErr> {
    Handshake(Handshake),
    Welcome,
    Sent(AfterSend<Factory, HandleErr>),
    Command,
    Authentication,
    WorkingDirectory,
    DirectoryChange,
    Passive,
    DataStream(Transfer),
    Listing,
    DataWritten,
    DataClosed,
    Transferred,
    SystemName,
    Features,
    Renamed,
    /// Nothing: the session has ended.
    Closed,
}

/// What whoever runs a session is to do next. Each action ends in an event;
/// the documentation of each says in which.
#[derive(Debug)]
pub enum Action<Stream, Factory, HandleErr> {
    /// Run the handshake of a TLS server on this stream: `Event::Handshake`.
    Handshake(Stream),
    /// Ask the handler for its greeting: `Event::Welcome`.
    Welcome,
    /// Write this reply to the control channel and flush it: `Event::Sent`,
    /// or `Event::WriteFailed`.
    Send(FtpResponse),
    /// Read a line from the control channel and see what it is read as:
    /// `Event::Read`.
    Read,
    /// Ask the handler whether this user may log in with this password:
    /// `Event::Authenticated`.
    Authenticate { username: String, password: String },
    /// Ask the handler for the current directory: `Event::WorkingDirectory`.
    WorkingDirectory,
    /// Ask the handler to change to this directory: `Event::DirectoryChanged`.
    ChangeDirectory(String),
    /// Ask the handler for a listener for a data connection:
    /// `Event::PassiveOpened`.
    OpenPassive,
    /// Accept one data connection with this listener and keep it for the
    /// transfer; the listener has done its work: `Event::DataStream`.
    AcceptData(Factory),
    /// Ask the handler for the listing of the current directory, and see
    /// what time it is: `Event::Listing`.
    List,
    /// Write these bytes to the data connection and close it:
    /// `Event::DataWritten`.
    SendData(Vec<u8>),
    /// Close the data connection: `Event::DataClosed`.
    CloseData,
    /// Let the handler write the file with this path to the data connection,
    /// and close the connection: `Event::Transferred`.
    Retrieve(String),
    /// Let the handler read the file with this path from the data connection,
    /// and close the connection: `Event::Transferred`.
    Store(String),
    /// Ask the handler for the name of the system: `Event::SystemName`.
    SystemName,
    /// Ask the handler for its features: `Event::Features`.
    Features,
    /// Ask the handler to rename a file: `Event::Renamed`.
    Rename { from: String, to: String },
    /// Nothing more: the session has ended, with this result.
    Finish(Result<(), HandleError<HandleErr>>),
}

/// What an action of a session has ended in.
#[derive(Debug)]
pub enum Event<Secured, Factory, HandleErr> {
    /// The handshake gave this TLS session, or failed.
    Handshake(Result<Secured, std::io::Error>),
    /// The greeting of the handler.
    Welcome(String),
    /// The reply is written.
    Sent,
    /// The reply could not be written.
    WriteFailed(std::io::Error),
    /// What was read from the control channel.
    Read(Result<CommandRead, ReadError>),
    /// Whether the user may log in, or why the handler cannot say.
    Authenticated(Result<bool, HandleErr>),
    /// The current directory, if there is one.
    WorkingDirectory(Option<String>),
    /// Whether the directory was changed.
    DirectoryChanged(bool),
    /// The listener, or `None` if the handler has none to give.
    PassiveOpened(Option<PassiveConn<Factory>>),
    /// Whether a data connection was accepted.
    DataStream(bool),
    /// The listing, or `None` if the handler has none to give, and the time
    /// at which it was taken, in seconds since the start of 1970.
    Listing(Option<Vec<FileListing>>, i64),
    /// Whether the bytes were written to the data connection.
    DataWritten(bool),
    /// The data connection is closed.
    DataClosed,
    /// Whether the handler has transferred the file.
    Transferred(bool),
    /// The name of the system.
    SystemName(String),
    /// The features of the handler.
    Features(Vec<String>),
    /// The file is renamed, or the reply that says why it is not.
    Renamed(Result<(), FtpResponse>),
}

/// `reply` is the well-formed reply that tells of the features of a session
/// whose handler has the features `host`.
pub open spec fn tells_features(reply: FtpResponse, host: Seq<String>) -> bool {
    &&& reply.well_formed()
    &&& reply matches FtpResponse::Features(all) && texts(all@) == merged_features(texts(host))
}

/// `reply` is the code `code` with the message `text`.
pub open spec fn says(reply: FtpResponse, code: SimpleReturnCode, text: Seq<char>) -> bool {
    reply matches FtpResponse::Simple(c, Some(m)) && c == code && m@ == text
}

/// A session: what the server knows of one client.
#[derive(Debug)]
pub struct Ftp<Stream, Secured, Factory, HandleErr> {
    /// The control channel.
    pub reader: MaybeTls<Stream, Secured>,
    /// Whether the server can run the handshake of TLS.
    pub tls_configured: bool,
    /// The listener for the next data transfer, if the client has asked for one.
    pub io_factory: Option<Factory>,
    /// Whether the client may log in without TLS.
    pub allow_plaintext: bool,
    /// How far the client has come in logging in.
    pub phase: Phase,
    /// The file that the client has asked to rename, while no new name has come.
    pub to_rename: Option<String>,
    /// What the session waits for.
    pub waiting: Waiting<Factory, HandleErr>,
}

impl<Stream, Secured, Factory, HandleErr> Ftp<Stream, Secured, Factory, HandleErr> {
    // ----- how one step is described ------------------------------------

    /// The step leaves everything but `waiting` as it was and asks for `action`.
    pub open spec fn asks(
        self,
        post: Self,
        action: Option<Action<Stream, Factory, HandleErr>>,
        waiting: Waiting<Factory, HandleErr>,
        asked: Action<Stream, Factory, HandleErr>,
    ) -> bool {
        post == (Ftp { waiting, ..self }) && action == Some(asked)
    }

    /// The step sends `reply`; the next command is read after it.
    pub open spec fn replies(
        self,
        post: Self,
        action: Option<Action<Stream, Factory, HandleErr>>,
        reply: FtpResponse,
    ) -> bool {
        self.asks(post, action, Waiting::Sent(AfterSend::Read), Action::Send(reply))
    }

    /// The step sends the code `code` alone; the next command is read after it.
    pub open spec fn replies_code(
        self,
        post: Self,
        action: Option<Action<Stream, Factory, HandleErr>>,
        code: SimpleReturnCode,
    ) -> bool {
        self.replies(post, action, FtpResponse::Simple(code, None))
    }

    /// The step sends the code `code` with the message `text`; `next` follows.
    pub open spec fn replies_text(
        self,
        post: Self,
        action: Option<Action<Stream, Factory, HandleErr>>,
        code: SimpleReturnCode,
        text: Seq<char>,
        next: AfterSend<Factory, HandleErr>,
    ) -> bool {
        &&& post == (Ftp { waiting: Waiting::Sent(next), ..self })
        &&& action matches Some(Action::Send(reply)) && says(reply, code, text)
    }

    /// The step sends the code `code` alone; the session ends after it, with `result`.
    pub open spec fn replies_last(
        self,
        post: Self,
        action: Option<Action<Stream, Factory, HandleErr>>,
        code: SimpleReturnCode,
        result: Result<(), HandleError<HandleErr>>,
    ) -> bool {
        self.asks(
            post,
            action,
            Waiting::Sent(AfterSend::Finish(result)),
            Action::Send(FtpResponse::Simple(code, None)),
        )
    }

    /// The step ends the session with `result`.
    pub open spec fn finishes(
        self,
        post: Self,
        action: Option<Action<Stream, Factory, HandleErr>>,
        result: Result<(), HandleError<HandleErr>>,
    ) -> bool {
        self.asks(post, action, Waiting::Closed, Action::Finish(result))
    }

    /// The step does nothing: the event is not what the session waits for.
    pub open spec fn ignores(
        self,
        post: Self,
        action: Option<Action<Stream, Factory, HandleErr>>,
    ) -> bool {
        post == self && action is None
    }

    // ----- the steps -----------------------------------------------------

    /// The step that a command takes while nobody is logged in.
    pub open spec fn before_login(
        self,
        command: Command,
        post: Self,
        action: Option<Action<Stream, Factory, HandleErr>>,
    ) -> bool {
        match command {
            Command::Auth(auth) => if !self.tls_configured {
                self.replies_text(
                    post,
                    action,
                    SimpleReturnCode::CommandNotImplemented,
                    "TLS not supported"@,
                    AfterSend::Read,
                )
            } else if auth.auth_type is Tls {
                self.replies_text(
                    post,
                    action,
                    SimpleReturnCode::AuthenticationSuccessful,
                    "Starting TLS negotiation."@,
                    AfterSend::Upgrade,
                )
            } else {
                self.replies_text(
                    post,
                    action,
                    SimpleReturnCode::CommandNotImplemented,
                    "unsupported AUTH type"@,
                    AfterSend::Read,
                )
            },
            Command::User(user) => if !(self.reader is Tls) && !self.allow_plaintext {
                self.replies_text(
                    post,
                    action,
                    SimpleReturnCode::NotLoggedIn,
                    "Please use AUTH TLS before sending USER command."@,
                    AfterSend::Read,
                )
            } else {
                (Ftp { phase: Phase::AwaitingPass(user.username), ..self }).replies_code(
                    post,
                    action,
                    SimpleReturnCode::NeedPassword,
                )
            },
            Command::Opts(_) => self.replies_code(post, action, SimpleReturnCode::Okay),
            _ => self.replies_last(post, action, SimpleReturnCode::BadSequence, Ok(())),
        }
    }

    /// The step that a data transfer starts with: if the client has asked for
    /// a listener, it is told that the connection is being opened.
    pub open spec fn opens_data(
        self,
        transfer: Transfer,
        post: Self,
        action: Option<Action<Stream, Factory, HandleErr>>,
    ) -> bool {
        if self.io_factory is None {
            self.replies_code(post, action, SimpleReturnCode::CommandNotImplemented)
        } else {
            self.asks(
                post,
                action,
                Waiting::Sent(AfterSend::Accept(transfer)),
                Action::Send(FtpResponse::Simple(SimpleReturnCode::OpeningDataConnection, None)),
            )
        }
    }

    /// The step that a command takes once the client is logged in.
    pub open spec fn after_login(
        self,
        command: Command,
        post: Self,
        action: Option<Action<Stream, Factory, HandleErr>>,
    ) -> bool {
        match command {
            Command::Pwd(_) => self.asks(
                post,
                action,
                Waiting::WorkingDirectory,
                Action::WorkingDirectory,
            ),
            Command::Cwd(cwd) => self.asks(
                post,
                action,
                Waiting::DirectoryChange,
                Action::ChangeDirectory(cwd.path),
            ),
            Command::Pasv(_) => self.asks(post, action, Waiting::Passive, Action::OpenPassive),
            Command::List(_) => self.opens_data(Transfer::List, post, action),
            Command::Retr(retr) => self.opens_data(Transfer::Retrieve(retr.file), post, action),
            Command::Stor(stor) => self.opens_data(Transfer::Store(stor.file), post, action),
            Command::Syst(_) => self.asks(post, action, Waiting::SystemName, Action::SystemName),
            Command::Feat(_) => self.asks(post, action, Waiting::Features, Action::Features),
            Command::Type(_) | Command::Opts(_) | Command::Utf8(_) | Command::Pbsz(_) => {
                self.replies_code(post, action, SimpleReturnCode::Okay)
            },
            Command::Auth(_) | Command::User(_) | Command::Pass(_) => self.replies_code(
                post,
                action,
                SimpleReturnCode::BadSequence,
            ),
            Command::Rnfr(rnfr) => (Ftp { to_rename: Some(rnfr.path), ..self }).replies_code(
                post,
                action,
                SimpleReturnCode::FileActionPending,
            ),
            Command::Rnto(rnto) => match self.to_rename {
                Some(from) => (Ftp { to_rename: None, ..self }).asks(
                    post,
                    action,
                    Waiting::Renamed,
                    Action::Rename { from, to: rnto.to },
                ),
                None => self.replies_code(post, action, SimpleReturnCode::BadSequence),
            },
        }
    }

    /// The step that follows what was read from the control channel.
    pub open spec fn on_read(
        self,
        read: Result<CommandRead, ReadError>,
        post: Self,
        action: Option<Action<Stream, Factory, HandleErr>>,
    ) -> bool {
        match read {
            Err(ReadError::Io(e)) => self.finishes(
                post,
                action,
                Err(HandleError::Read(ReadError::Io(e))),
            ),
            _ => match self.phase {
                Phase::AwaitingUser => match read {
                    Ok(CommandRead::Command(command)) => self.before_login(command, post, action),
                    Ok(CommandRead::Disconnect) => self.finishes(post, action, Ok(())),
                    Err(_) => self.replies_last(
                        post,
                        action,
                        SimpleReturnCode::BadSequence,
                        Ok(()),
                    ),
                },
                Phase::AwaitingPass(username) => match read {
                    Ok(CommandRead::Command(Command::Pass(pass))) => self.asks(
                        post,
                        action,
                        Waiting::Authentication,
                        Action::Authenticate { username, password: pass.password },
                    ),
                    _ => self.replies_last(post, action, SimpleReturnCode::BadSequence, Ok(())),
                },
                Phase::Authenticated => match read {
                    Ok(CommandRead::Command(command)) => self.after_login(command, post, action),
                    Ok(CommandRead::Disconnect) => self.finishes(post, action, Ok(())),
                    Err(ReadError::Parse(message)) => self.replies(
                        post,
                        action,
                        FtpResponse::Simple(SimpleReturnCode::CommandNotImplemented, Some(message)),
                    ),
                    Err(ReadError::Io(e)) => self.finishes(
                        post,
                        action,
                        Err(HandleError::Read(ReadError::Io(e))),
                    ),
                },
            },
        }
    }

    /// The step that follows a reply that was written, where `next` is to follow it.
    pub open spec fn on_sent(
        self,
        next: AfterSend<Factory, HandleErr>,
        post: Self,
        action: Option<Action<Stream, Factory, HandleErr>>,
    ) -> bool {
        match next {
            AfterSend::Read => self.asks(post, action, Waiting::Command, Action::Read),
            AfterSend::Upgrade => match self.reader {
                MaybeTls::Plain(stream) => if self.tls_configured {
                    (Ftp { reader: MaybeTls::UpgradeBroken, ..self }).asks(
                        post,
                        action,
                        Waiting::Handshake(Handshake::Explicit),
                        Action::Handshake(stream),
                    )
                } else {
                    (Ftp { reader: MaybeTls::UpgradeBroken, ..self }).finishes(
                        post,
                        action,
                        Err(HandleError::TlsUpgrade(TlsUpgradeError::Unconfigured)),
                    )
                },
                MaybeTls::Tls(_) => self.asks(post, action, Waiting::Command, Action::Read),
                MaybeTls::UpgradeBroken => self.finishes(
                    post,
                    action,
                    Err(HandleError::TlsUpgrade(TlsUpgradeError::PreviousFailure)),
                ),
            },
            AfterSend::Accept(transfer) => match self.io_factory {
                Some(factory) => (Ftp { io_factory: None, ..self }).asks(
                    post,
                    action,
                    Waiting::DataStream(transfer),
                    Action::AcceptData(factory),
                ),
                None => self.replies_code(post, action, SimpleReturnCode::CommandNotImplemented),
            },
            AfterSend::Install(factory) => (Ftp { io_factory: Some(factory), ..self }).asks(
                post,
                action,
                Waiting::Command,
                Action::Read,
            ),
            AfterSend::Finish(result) => self.finishes(post, action, result),
        }
    }

    /// The step that follows a handshake. One that has succeeded makes the
    /// control channel the TLS session, and the session goes on: with the
    /// greeting if the handshake was the first thing to do, and with the next
    /// command if the client had asked for it. One that has failed ends the
    /// session.
    pub open spec fn on_handshake(
        self,
        when: Handshake,
        outcome: Result<Secured, std::io::Error>,
        post: Self,
        action: Option<Action<Stream, Factory, HandleErr>>,
    ) -> bool {
        match (outcome, when) {
            (Ok(session), Handshake::Implicit) => (Ftp {
                reader: MaybeTls::Tls(Box::new(session)),
                ..self
            }).asks(post, action, Waiting::Welcome, Action::Welcome),
            (Ok(session), Handshake::Explicit) => (Ftp {
                reader: MaybeTls::Tls(Box::new(session)),
                ..self
            }).asks(post, action, Waiting::Command, Action::Read),
            (Err(e), Handshake::Implicit) => self.finishes(post, action, Err(HandleError::Io(e))),
            (Err(e), Handshake::Explicit) => self.finishes(
                post,
                action,
                Err(HandleError::TlsUpgrade(TlsUpgradeError::Io(e))),
            ),
        }
    }

    /// The step that follows the answer of the handler to a request for a listener.
    pub open spec fn on_passive(
        self,
        opened: Option<PassiveConn<Factory>>,
        post: Self,
        action: Option<Action<Stream, Factory, HandleErr>>,
    ) -> bool {
        match opened {
            Some(conn) => match conn.reply() {
                Some(reply) => self.asks(
                    post,
                    action,
                    Waiting::Sent(AfterSend::Install(conn.factory())),
                    Action::Send(reply),
                ),
                None => self.replies_code(post, action, SimpleReturnCode::CommandNotImplemented),
            },
            None => self.replies_code(post, action, SimpleReturnCode::CommandNotImplemented),
        }
    }

    /// The step that follows the listing of the handler, taken at the time
    /// `now`. A listing with an entry that the calendar does not reach is
    /// no listing.
    pub open spec fn on_listing(
        self,
        listing: Option<Vec<FileListing>>,
        now: i64,
        post: Self,
        action: Option<Action<Stream, Factory, HandleErr>>,
    ) -> bool {
        match listing {
            Some(entries) if listable(entries@) => {
                &&& post == (Ftp { waiting: Waiting::DataWritten, ..self })
                &&& action matches Some(Action::SendData(bytes)) && bytes@ == encode_utf8(
                    listing_text(entries@, now),
                )
            },
            _ => self.asks(post, action, Waiting::DataClosed, Action::CloseData),
        }
    }

    /// `post` and `action` are what the session and its next action are after
    /// `event`.
    ///
    /// An event that is not the one that the session waits for changes nothing.
    pub open spec fn steps(
        self,
        event: Event<Secured, Factory, HandleErr>,
        post: Self,
        action: Option<Action<Stream, Factory, HandleErr>>,
    ) -> bool {
        match (self.waiting, event) {
            (Waiting::Handshake(when), Event::Handshake(outcome)) => self.on_handshake(
                when,
                outcome,
                post,
                action,
            ),
            (Waiting::Welcome, Event::Welcome(text)) => self.replies(
                post,
                action,
                FtpResponse::ReadyForNewUser(text),
            ),
            (Waiting::Sent(next), Event::Sent) => self.on_sent(next, post, action),
            (Waiting::Sent(_), Event::WriteFailed(e)) => self.finishes(
                post,
                action,
                Err(HandleError::Io(e)),
            ),
            (Waiting::Command, Event::Read(read)) => self.on_read(read, post, action),
            (Waiting::Authentication, Event::Authenticated(Ok(true))) => (Ftp {
                phase: Phase::Authenticated,
                ..self
            }).replies_code(post, action, SimpleReturnCode::UserLoggedIn),
            (Waiting::Authentication, Event::Authenticated(Ok(false))) => self.replies_last(
                post,
                action,
                SimpleReturnCode::NotLoggedIn,
                Ok(()),
            ),
            (Waiting::Authentication, Event::Authenticated(Err(e))) => self.replies_last(
                post,
                action,
                SimpleReturnCode::NotLoggedIn,
                Err(HandleError::Handler(e)),
            ),
            (Waiting::WorkingDirectory, Event::WorkingDirectory(Some(path))) => {
                &&& post == (Ftp { waiting: Waiting::Sent(AfterSend::Read), ..self })
                &&& action matches Some(Action::Send(FtpResponse::DirectoryCreated(shown)))
                    && shown@ == normalized_path(path@)
            },
            (Waiting::WorkingDirectory, Event::WorkingDirectory(None)) => self.replies_code(
                post,
                action,
                SimpleReturnCode::FileUnavailable,
            ),
            (Waiting::DirectoryChange, Event::DirectoryChanged(changed)) => self.replies_code(
                post,
                action,
                if changed {
                    SimpleReturnCode::Okay
                } else {
                    SimpleReturnCode::FileUnavailable
                },
            ),
            (Waiting::Passive, Event::PassiveOpened(opened)) => self.on_passive(
                opened,
                post,
                action,
            ),
            (Waiting::DataStream(transfer), Event::DataStream(true)) => match transfer {
                Transfer::List => self.asks(post, action, Waiting::Listing, Action::List),
                Transfer::Retrieve(path) => self.asks(
                    post,
                    action,
                    Waiting::Transferred,
                    Action::Retrieve(path),
                ),
                Transfer::Store(path) => self.asks(
                    post,
                    action,
                    Waiting::Transferred,
                    Action::Store(path),
                ),
            },
            (Waiting::DataStream(_), Event::DataStream(false)) => self.replies_code(
                post,
                action,
                SimpleReturnCode::CommandNotImplemented,
            ),
            (Waiting::Listing, Event::Listing(listing, now)) => self.on_listing(
                listing,
                now,
                post,
                action,
            ),
            (Waiting::DataWritten, Event::DataWritten(written)) => self.replies_code(
                post,
                action,
                if written {
                    SimpleReturnCode::ClosingDataConnectionSuccessful
                } else {
                    SimpleReturnCode::ClosingDataConnectionNoTransfer
                },
            ),
            (Waiting::DataClosed, Event::DataClosed) => self.replies_code(
                post,
                action,
                SimpleReturnCode::ClosingDataConnectionNoTransfer,
            ),
            (Waiting::Transferred, Event::Transferred(done)) => self.replies_code(
                post,
                action,
                if done {
                    SimpleReturnCode::ClosingDataConnectionSuccessful
                } else {
                    SimpleReturnCode::FileUnavailable
                },
            ),
            (Waiting::SystemName, Event::SystemName(name)) => self.replies(
                post,
                action,
                FtpResponse::NameSystemType(name),
            ),
            (Waiting::Features, Event::Features(host)) => {
                &&& post == (Ftp { waiting: Waiting::Sent(AfterSend::Read), ..self })
                &&& action matches Some(Action::Send(reply)) && tells_features(reply, host@)
            },
            (Waiting::Renamed, Event::Renamed(Ok(()))) => self.replies_code(
                post,
                action,
                SimpleReturnCode::Okay,
            ),
            (Waiting::Renamed, Event::Renamed(Err(reply))) => self.replies(post, action, reply),
            _ => self.ignores(post, action),
        }
    }

    /// `session` and `first` are the session over `stream` that is set up as
    /// `security` says, and the first thing to do for it.
    ///
    /// Without TLS, and with TLS on request, the session starts with the
    /// greeting over the plain stream. With TLS from the start it starts
    /// with the handshake. Only a session with TLS can forbid to log in
    /// without it.
    pub open spec fn starts<Config>(
        stream: Stream,
        security: Security<Config>,
        session: Self,
        first: Action<Stream, Factory, HandleErr>,
    ) -> bool {
        &&& session.phase is AwaitingUser
        &&& session.io_factory is None
        &&& session.to_rename is None
        &&& match security {
            Security::NoEncryption => {
                &&& session.reader == MaybeTls::<Stream, Secured>::Plain(stream)
                &&& !session.tls_configured
                &&& session.allow_plaintext
                &&& session.waiting is Welcome
                &&& first is Welcome
            },
            Security::Encryption(info) => {
                &&& session.tls_configured
                &&& session.allow_plaintext == info.allow_plaintext
                &&& if info.implicit {
                    &&& session.reader is UpgradeBroken
                    &&& session.waiting == Waiting::<Factory, HandleErr>::Handshake(
                        Handshake::Implicit,
                    )
                    &&& first == Action::<Stream, Factory, HandleErr>::Handshake(stream)
                } else {
                    &&& session.reader == MaybeTls::<Stream, Secured>::Plain(stream)
                    &&& session.waiting is Welcome
                    &&& first is Welcome
                }
            },
        }
    }
}


impl<Stream, Secured, Factory, HandleErr> Ftp<Stream, Secured, Factory, HandleErr> {
    /// The setup of a session without TLS, to build on.
    pub fn builder<Config>() -> (builder: FtpBuilder<Config>)
        ensures
            builder.security is NoEncryption,
    {
        FtpBuilder::default()
    }

    /// A session over `stream` that is set up as `builder` says, and the
    /// first thing to do for it.
    pub fn new_from_builder<Config>(stream: Stream, builder: &FtpBuilder<Config>) -> (r: (
        Self,
        Action<Stream, Factory, HandleErr>,
    ))
        ensures
            Self::starts(stream, builder.security, r.0, r.1),
    {
        match &builder.security {
            Security::NoEncryption => Self::new_insecure(stream),
            Security::Encryption(info) => {
                if info.implicit {
                    (
                        Ftp {
                            reader: MaybeTls::UpgradeBroken,
                            tls_configured: true,
                            io_factory: None,
                            allow_plaintext: info.allow_plaintext,
                            phase: Phase::AwaitingUser,
                            to_rename: None,
                            waiting: Waiting::Handshake(Handshake::Implicit),
                        },
                        Action::Handshake(stream),
                    )
                } else {
                    (
                        Ftp {
                            reader: MaybeTls::Plain(stream),
                            tls_configured: true,
                            io_factory: None,
                            allow_plaintext: info.allow_plaintext,
                            phase: Phase::AwaitingUser,
                            to_rename: None,
                            waiting: Waiting::Welcome,
                        },
                        Action::Welcome,
                    )
                }
            },
        }
    }

    /// A session over `stream` without TLS, and the first thing to do for
    /// it: to ask for the greeting.
    pub fn new_insecure(stream: Stream) -> (r: (Self, Action<Stream, Factory, HandleErr>))
        ensures
            Self::starts(stream, Security::<()>::NoEncryption, r.0, r.1),
    {
        (
            Ftp {
                reader: MaybeTls::Plain(stream),
                tls_configured: false,
                io_factory: None,
                allow_plaintext: true,
                phase: Phase::AwaitingUser,
                to_rename: None,
                waiting: Waiting::Welcome,
            },
            Action::Welcome,
        )
    }

    /// Asks for `asked` and waits for what it ends in.
    fn ask(
        &mut self,
        waiting: Waiting<Factory, HandleErr>,
        asked: Action<Stream, Factory, HandleErr>,
    ) -> (action: Option<Action<Stream, Factory, HandleErr>>)
        ensures
            old(self).asks(*final(self), action, waiting, asked),
    {
        self.waiting = waiting;
        Some(asked)
    }

    /// Sends `reply`; the next command is read after it.
    fn reply(&mut self, reply: FtpResponse) -> (action: Option<Action<Stream, Factory, HandleErr>>)
        ensures
            old(self).replies(*final(self), action, reply),
    {
        self.ask(Waiting::Sent(AfterSend::Read), Action::Send(reply))
    }

    /// Sends the code `code` alone; the next command is read after it.
    fn reply_code(&mut self, code: SimpleReturnCode) -> (action: Option<Action<Stream, Factory, HandleErr>>)
        ensures
            old(self).replies_code(*final(self), action, code),
    {
        self.reply(FtpResponse::simple(code))
    }

    /// Sends the code `code` with the message `text`; `next` follows.
    fn reply_text(
        &mut self,
        code: SimpleReturnCode,
        text: &str,
        next: AfterSend<Factory, HandleErr>,
    ) -> (action: Option<Action<Stream, Factory, HandleErr>>)
        ensures
            old(self).replies_text(*final(self), action, code, text@, next),
    {
        self.waiting = Waiting::Sent(next);
        Some(Action::Send(FtpResponse::simple_msg(code, text)))
    }

    /// Sends the code `code` alone; the session ends after it, with `result`.
    fn reply_last(
        &mut self,
        code: SimpleReturnCode,
        result: Result<(), HandleError<HandleErr>>,
    ) -> (action: Option<Action<Stream, Factory, HandleErr>>)
        ensures
            old(self).replies_last(*final(self), action, code, result),
    {
        self.ask(Waiting::Sent(AfterSend::Finish(result)), Action::Send(FtpResponse::simple(code)))
    }

    /// Ends the session with `result`.
    fn finish(&mut self, result: Result<(), HandleError<HandleErr>>) -> (action: Option<Action<Stream, Factory, HandleErr>>)
        ensures
            old(self).finishes(*final(self), action, result),
    {
        self.ask(Waiting::Closed, Action::Finish(result))
    }

    /// The step that a command takes while nobody is logged in.
    fn command_before_login(&mut self, command: Command) -> (action: Option<Action<Stream, Factory, HandleErr>>)
        ensures
            old(self).before_login(command, *final(self), action),
    {
        match command {
            Command::Auth(auth) => {
                if !self.tls_configured {
                    self.reply_text(
                        SimpleReturnCode::CommandNotImplemented,
                        "TLS not supported",
                        AfterSend::Read,
                    )
                } else {
                    match auth.auth_type {
                        AuthType::Tls => self.reply_text(
                            SimpleReturnCode::AuthenticationSuccessful,
                            "Starting TLS negotiation.",
                            AfterSend::Upgrade,
                        ),
                        AuthType::Ssl => self.reply_text(
                            SimpleReturnCode::CommandNotImplemented,
                            "unsupported AUTH type",
                            AfterSend::Read,
                        ),
                    }
                }
            },
            Command::User(user) => {
                if !self.reader.is_tls() && !self.allow_plaintext {
                    self.reply_text(
                        SimpleReturnCode::NotLoggedIn,
                        "Please use AUTH TLS before sending USER command.",
                        AfterSend::Read,
                    )
                } else {
                    self.phase = Phase::AwaitingPass(user.username);
                    self.reply_code(SimpleReturnCode::NeedPassword)
                }
            },
            Command::Opts(_) => self.reply_code(SimpleReturnCode::Okay),
            _ => self.reply_last(SimpleReturnCode::BadSequence, Ok(())),
        }
    }

    /// The step that a data transfer starts with.
    fn open_data(&mut self, transfer: Transfer) -> (action: Option<Action<Stream, Factory, HandleErr>>)
        ensures
            old(self).opens_data(transfer, *final(self), action),
    {
        if self.io_factory.is_none() {
            self.reply_code(SimpleReturnCode::CommandNotImplemented)
        } else {
            self.ask(
                Waiting::Sent(AfterSend::Accept(transfer)),
                Action::Send(FtpResponse::simple(SimpleReturnCode::OpeningDataConnection)),
            )
        }
    }

    /// The step that a command takes once the client is logged in.
    fn command_after_login(&mut self, command: Command) -> (action: Option<Action<Stream, Factory, HandleErr>>)
        ensures
            old(self).after_login(command, *final(self), action),
    {
        match command {
            Command::Pwd(_) => self.ask(Waiting::WorkingDirectory, Action::WorkingDirectory),
            Command::Cwd(cwd) => self.ask(
                Waiting::DirectoryChange,
                Action::ChangeDirectory(cwd.path),
            ),
            Command::Pasv(_) => self.ask(Waiting::Passive, Action::OpenPassive),
            Command::List(_) => self.open_data(Transfer::List),
            Command::Retr(retr) => self.open_data(Transfer::Retrieve(retr.file)),
            Command::Stor(stor) => self.open_data(Transfer::Store(stor.file)),
            Command::Syst(_) => self.ask(Waiting::SystemName, Action::SystemName),
            Command::Feat(_) => self.ask(Waiting::Features, Action::Features),
            Command::Type(_) => self.reply_code(SimpleReturnCode::Okay),
            Command::Opts(_) => self.reply_code(SimpleReturnCode::Okay),
            Command::Utf8(_) => self.reply_code(SimpleReturnCode::Okay),
            Command::Pbsz(_) => self.reply_code(SimpleReturnCode::Okay),
            Command::Auth(_) => self.reply_code(SimpleReturnCode::BadSequence),
            Command::User(_) => self.reply_code(SimpleReturnCode::BadSequence),
            Command::Pass(_) => self.reply_code(SimpleReturnCode::BadSequence),
            Command::Rnfr(rnfr) => {
                self.to_rename = Some(rnfr.path);
                self.reply_code(SimpleReturnCode::FileActionPending)
            },
            Command::Rnto(rnto) => match self.to_rename.take() {
                Some(from) => self.ask(Waiting::Renamed, Action::Rename { from, to: rnto.to }),
                None => self.reply_code(SimpleReturnCode::BadSequence),
            },
        }
    }

    /// The step that follows what was read from the control channel.
    fn after_read(&mut self, read: Result<CommandRead, ReadError>) -> (action: Option<Action<Stream, Factory, HandleErr>>)
        ensures
            old(self).on_read(read, *final(self), action),
    {
        match read {
            Err(ReadError::Io(e)) => self.finish(Err(HandleError::Read(ReadError::Io(e)))),
            Err(ReadError::Parse(message)) => match &self.phase {
                Phase::Authenticated => self.reply(
                    FtpResponse::Simple(SimpleReturnCode::CommandNotImplemented, Some(message)),
                ),
                _ => self.reply_last(SimpleReturnCode::BadSequence, Ok(())),
            },
            Ok(CommandRead::Disconnect) => match &self.phase {
                Phase::AwaitingPass(_) => self.reply_last(SimpleReturnCode::BadSequence, Ok(())),
                _ => self.finish(Ok(())),
            },
            Ok(CommandRead::Command(command)) => match &self.phase {
                Phase::AwaitingUser => self.command_before_login(command),
                Phase::AwaitingPass(username) => match command {
                    Command::Pass(pass) => {
                        let username = username.clone();
                        self.ask(
                            Waiting::Authentication,
                            Action::Authenticate { username, password: pass.password },
                        )
                    },
                    _ => self.reply_last(SimpleReturnCode::BadSequence, Ok(())),
                },
                Phase::Authenticated => self.command_after_login(command),
            },
        }
    }

    /// The step that follows a reply that was written.
    fn after_sent(&mut self, next: AfterSend<Factory, HandleErr>) -> (action: Option<Action<Stream, Factory, HandleErr>>)
        ensures
            old(self).on_sent(next, *final(self), action),
    {
        match next {
            AfterSend::Read => self.ask(Waiting::Command, Action::Read),
            AfterSend::Upgrade => match self.reader.begin_upgrade(self.tls_configured) {
                Ok(Upgrade::Handshake(stream)) => self.ask(
                    Waiting::Handshake(Handshake::Explicit),
                    Action::Handshake(stream),
                ),
                Ok(Upgrade::AlreadyTls) => self.ask(Waiting::Command, Action::Read),
                Err(e) => self.finish(Err(HandleError::TlsUpgrade(e))),
            },
            AfterSend::Accept(transfer) => match self.io_factory.take() {
                Some(factory) => self.ask(
                    Waiting::DataStream(transfer),
                    Action::AcceptData(factory),
                ),
                None => self.reply_code(SimpleReturnCode::CommandNotImplemented),
            },
            AfterSend::Install(factory) => {
                self.io_factory = Some(factory);
                self.ask(Waiting::Command, Action::Read)
            },
            AfterSend::Finish(result) => self.finish(result),
        }
    }

    /// The step that follows a handshake.
    fn after_handshake(&mut self, when: Handshake, outcome: Result<Secured, std::io::Error>) -> (action:
        Option<Action<Stream, Factory, HandleErr>>)
        ensures
            old(self).on_handshake(when, outcome, *final(self), action),
    {
        match outcome {
            Ok(session) => {
                let _ = self.reader.finish_upgrade(Ok(session));
                match when {
                    Handshake::Implicit => self.ask(Waiting::Welcome, Action::Welcome),
                    Handshake::Explicit => self.ask(Waiting::Command, Action::Read),
                }
            },
            Err(e) => match when {
                Handshake::Implicit => self.finish(Err(HandleError::Io(e))),
                Handshake::Explicit => self.finish(
                    Err(HandleError::TlsUpgrade(TlsUpgradeError::Io(e))),
                ),
            },
        }
    }

    /// The step that follows the answer of the handler to a request for a listener.
    fn after_passive(&mut self, opened: Option<PassiveConn<Factory>>) -> (action: Option<Action<Stream, Factory, HandleErr>>)
        ensures
            old(self).on_passive(opened, *final(self), action),
    {
        match opened {
            Some(conn) => match conn.to_reply() {
                Some(reply) => self.ask(
                    Waiting::Sent(AfterSend::Install(conn.into_inner())),
                    Action::Send(reply),
                ),
                None => self.reply_code(SimpleReturnCode::CommandNotImplemented),
            },
            None => self.reply_code(SimpleReturnCode::CommandNotImplemented),
        }
    }

    /// The step that follows the listing of the handler.
    fn after_listing(&mut self, listing: Option<Vec<FileListing>>, now: i64) -> (action: Option<Action<Stream, Factory, HandleErr>>)
        ensures
            old(self).on_listing(listing, now, *final(self), action),
    {
        let payload = match &listing {
            Some(entries) => listing_payload(entries, now),
            None => None,
        };
        match payload {
            Some(bytes) => self.ask(Waiting::DataWritten, Action::SendData(bytes)),
            None => self.ask(Waiting::DataClosed, Action::CloseData),
        }
    }

    /// Takes `event`, which has taken place, and says what is to be done
    /// next; `None` if `event` is not what the session waits for, which
    /// changes nothing.
    pub fn handle(&mut self, event: Event<Secured, Factory, HandleErr>) -> (action:
        Option<Action<Stream, Factory, HandleErr>>)
        ensures
            old(self).steps(event, *final(self), action),
            old(self).consistent() ==> final(self).consistent(),
    {
        let waiting = core::mem::replace(&mut self.waiting, Waiting::Closed);
        match (waiting, event) {
            (Waiting::Handshake(when), Event::Handshake(outcome)) => self.after_handshake(
                when,
                outcome,
            ),
            (Waiting::Welcome, Event::Welcome(text)) => self.reply(
                FtpResponse::ReadyForNewUser(text),
            ),
            (Waiting::Sent(next), Event::Sent) => self.after_sent(next),
            (Waiting::Sent(_), Event::WriteFailed(e)) => self.finish(Err(HandleError::Io(e))),
            (Waiting::Command, Event::Read(read)) => self.after_read(read),
            (Waiting::Authentication, Event::Authenticated(Ok(true))) => {
                self.phase = Phase::Authenticated;
                self.reply_code(SimpleReturnCode::UserLoggedIn)
            },
            (Waiting::Authentication, Event::Authenticated(Ok(false))) => self.reply_last(
                SimpleReturnCode::NotLoggedIn,
                Ok(()),
            ),
            (Waiting::Authentication, Event::Authenticated(Err(e))) => self.reply_last(
                SimpleReturnCode::NotLoggedIn,
                Err(HandleError::Handler(e)),
            ),
            (Waiting::WorkingDirectory, Event::WorkingDirectory(Some(path))) => {
                let chars = chars_of(path.as_str());
                self.reply(FtpResponse::DirectoryCreated(normalize_path(chars.as_slice())))
            },
            (Waiting::WorkingDirectory, Event::WorkingDirectory(None)) => self.reply_code(
                SimpleReturnCode::FileUnavailable,
            ),
            (Waiting::DirectoryChange, Event::DirectoryChanged(changed)) => self.reply_code(
                if changed {
                    SimpleReturnCode::Okay
                } else {
                    SimpleReturnCode::FileUnavailable
                },
            ),
            (Waiting::Passive, Event::PassiveOpened(opened)) => self.after_passive(opened),
            (Waiting::DataStream(transfer), Event::DataStream(true)) => match transfer {
                Transfer::List => self.ask(Waiting::Listing, Action::List),
                Transfer::Retrieve(path) => self.ask(Waiting::Transferred, Action::Retrieve(path)),
                Transfer::Store(path) => self.ask(Waiting::Transferred, Action::Store(path)),
            },
            (Waiting::DataStream(_), Event::DataStream(false)) => self.reply_code(
                SimpleReturnCode::CommandNotImplemented,
            ),
            (Waiting::Listing, Event::Listing(listing, now)) => self.after_listing(listing, now),
            (Waiting::DataWritten, Event::DataWritten(written)) => self.reply_code(
                if written {
                    SimpleReturnCode::ClosingDataConnectionSuccessful
                } else {
                    SimpleReturnCode::ClosingDataConnectionNoTransfer
                },
            ),
            (Waiting::DataClosed, Event::DataClosed) => self.reply_code(
                SimpleReturnCode::ClosingDataConnectionNoTransfer,
            ),
            (Waiting::Transferred, Event::Transferred(done)) => self.reply_code(
                if done {
                    SimpleReturnCode::ClosingDataConnectionSuccessful
                } else {
                    SimpleReturnCode::FileUnavailable
                },
            ),
            (Waiting::SystemName, Event::SystemName(name)) => self.reply(
                FtpResponse::NameSystemType(name),
            ),
            (Waiting::Features, Event::Features(host)) => self.reply(
                FtpResponse::Features(merge_features(host)),
            ),
            (Waiting::Renamed, Event::Renamed(Ok(()))) => self.reply_code(SimpleReturnCode::Okay),
            (Waiting::Renamed, Event::Renamed(Err(reply))) => self.reply(reply),
            (waiting, _) => {
                self.waiting = waiting;
                None
            },
        }
    }
}


impl<Stream, Secured, Factory, HandleErr> Ftp<Stream, Secured, Factory, HandleErr> {
    /// The control channel is being upgraded: the reply that announces the
    /// handshake is being written, or the handshake is under way.
    pub open spec fn upgrading(self) -> bool {
        match self.waiting {
            Waiting::Handshake(_) => true,
            Waiting::Sent(AfterSend::Upgrade) => true,
            _ => false,
        }
    }

    /// The session is at work for a command that only a client that is logged
    /// in may give: it waits for the handler or for the data connection, or
    /// for the reply that announces a data connection or tells of a listener
    /// to be written.
    pub open spec fn serving(self) -> bool {
        match self.waiting {
            Waiting::WorkingDirectory => true,
            Waiting::DirectoryChange => true,
            Waiting::Passive => true,
            Waiting::DataStream(_) => true,
            Waiting::Listing => true,
            Waiting::DataWritten => true,
            Waiting::DataClosed => true,
            Waiting::Transferred => true,
            Waiting::SystemName => true,
            Waiting::Features => true,
            Waiting::Renamed => true,
            Waiting::Sent(AfterSend::Accept(_)) => true,
            Waiting::Sent(AfterSend::Install(_)) => true,
            _ => false,
        }
    }

    /// What holds of a session at all times (see `lemma_sessions_are_consistent`).
    ///
    /// A client has given a user name only over TLS, or where it may log in
    /// without. The control channel is upgraded only while nobody has given
    /// a user name. A broken control channel is not used: the session waits
    /// for the handshake, or has ended. While the session waits for the
    /// handshake, the control channel is broken: the stream is with the
    /// handshake. The handler is asked whether a client may log in only when
    /// the client has given a user name. And only for a client that is logged
    /// in is the session at work for a command, or does it hold a listener or
    /// the name of a file to rename.
    pub open spec fn consistent(self) -> bool {
        &&& !(self.phase is AwaitingUser) || self.waiting is Authentication ==> self.reader is Tls
            || self.allow_plaintext
        &&& self.upgrading() ==> self.phase is AwaitingUser
        &&& self.reader is UpgradeBroken ==> self.waiting is Handshake || self.waiting is Closed
        &&& self.waiting is Handshake ==> self.reader is UpgradeBroken
        &&& self.waiting is Authentication ==> self.phase is AwaitingPass
        &&& self.serving() ==> self.phase is Authenticated
        &&& self.io_factory is Some || self.to_rename is Some ==> self.phase is Authenticated
    }
}


} // verus!
