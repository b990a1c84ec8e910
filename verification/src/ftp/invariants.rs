//! What holds of every session, whatever happens to it.

use crate::builder::Security;
use crate::code::{FtpResponse, SimpleReturnCode};
use crate::command::Command;
use crate::ftp::{
    reads_as, Action, AfterSend, CommandRead, Event, Ftp, ReadError, Waiting,
};
use crate::handler::PassiveConn;
use crate::text::{blank, lemma_trim_blank};
use vstd::prelude::*;
use vstd::utf8::{decode_utf8, valid_utf8};

verus! {

impl<Stream, Secured, Factory, HandleErr> Ftp<Stream, Secured, Factory, HandleErr> {
    /// The file that the command that `event` brings names as the one to
    /// rename, if `event` brings such a command.
    pub open spec fn names_source(event: Event<Secured, Factory, HandleErr>) -> Option<String> {
        match event {
            Event::Read(Ok(CommandRead::Command(Command::Rnfr(rnfr)))) => Some(rnfr.path),
            _ => None,
        }
    }

    /// `event` brings the command that gives a file its new name.
    pub open spec fn names_target(event: Event<Secured, Factory, HandleErr>) -> bool {
        event matches Event::Read(Ok(CommandRead::Command(Command::Rnto(_))))
    }

    /// The reply that announces a data connection is being written; the
    /// connection is accepted next.
    pub open spec fn accepts_next(self) -> bool {
        self.waiting matches Waiting::Sent(AfterSend::Accept(_))
    }

    /// `event` brings a command that transfers data.
    pub open spec fn asks_for_transfer(event: Event<Secured, Factory, HandleErr>) -> bool {
        match event {
            Event::Read(Ok(CommandRead::Command(Command::List(_)))) => true,
            Event::Read(Ok(CommandRead::Command(Command::Retr(_)))) => true,
            Event::Read(Ok(CommandRead::Command(Command::Stor(_)))) => true,
            _ => false,
        }
    }

    /// `event` is one of those that `action` ends in.
    pub open spec fn answers(
        action: Action<Stream, Factory, HandleErr>,
        event: Event<Secured, Factory, HandleErr>,
    ) -> bool {
        match action {
            Action::Handshake(_) => event is Handshake,
            Action::Welcome => event is Welcome,
            Action::Send(_) => event is Sent || event is WriteFailed,
            Action::Read => event is Read,
            Action::Authenticate { .. } => event is Authenticated,
            Action::WorkingDirectory => event is WorkingDirectory,
            Action::ChangeDirectory(_) => event is DirectoryChanged,
            Action::OpenPassive => event is PassiveOpened,
            Action::AcceptData(_) => event is DataStream,
            Action::List => event is Listing,
            Action::SendData(_) => event is DataWritten,
            Action::CloseData => event is DataClosed,
            Action::Retrieve(_) => event is Transferred,
            Action::Store(_) => event is Transferred,
            Action::SystemName => event is SystemName,
            Action::Features => event is Features,
            Action::Rename { .. } => event is Renamed,
            Action::Finish(_) => false,
        }
    }

    /// A session takes the event that its action ends in: what it waits for
    /// after a step is what the action of that step ends in, and after its
    /// last action it waits for nothing.
    pub proof fn lemma_answers_are_taken(
        pre: Self,
        event: Event<Secured, Factory, HandleErr>,
        post: Self,
        action: Action<Stream, Factory, HandleErr>,
        answer: Event<Secured, Factory, HandleErr>,
        last: Self,
        next: Option<Action<Stream, Factory, HandleErr>>,
    )
        requires
            pre.steps(event, post, Some(action)),
            post.steps(answer, last, next),
        ensures
            Self::answers(action, answer) ==> next is Some,
            action is Finish <==> post.waiting is Closed,
            post.waiting is Closed ==> next is None,
    {
    }

    /// A session takes the event that its first action ends in.
    pub proof fn lemma_first_answer_is_taken<Config>(
        stream: Stream,
        security: Security<Config>,
        session: Self,
        first: Action<Stream, Factory, HandleErr>,
        answer: Event<Secured, Factory, HandleErr>,
        last: Self,
        next: Option<Action<Stream, Factory, HandleErr>>,
    )
        requires
            Self::starts(stream, security, session, first),
            session.steps(answer, last, next),
        ensures
            Self::answers(first, answer) ==> next is Some,
    {
    }

    /// `action` asks the handler for something other than its greeting or
    /// whether a client may log in, or has to do with a data connection.
    pub open spec fn serves(action: Action<Stream, Factory, HandleErr>) -> bool {
        match action {
            Action::WorkingDirectory => true,
            Action::ChangeDirectory(_) => true,
            Action::OpenPassive => true,
            Action::AcceptData(_) => true,
            Action::List => true,
            Action::SendData(_) => true,
            Action::CloseData => true,
            Action::Retrieve(_) => true,
            Action::Store(_) => true,
            Action::SystemName => true,
            Action::Features => true,
            Action::Rename { .. } => true,
            _ => false,
        }
    }

    /// Nothing is served to a client that is not logged in: a consistent
    /// session asks the handler for files, directories, listeners and the
    /// like, and opens or uses a data connection, only for a client that is
    /// logged in. And a client that is logged in stays so.
    pub proof fn lemma_serves_after_login(
        pre: Self,
        event: Event<Secured, Factory, HandleErr>,
        post: Self,
        action: Action<Stream, Factory, HandleErr>,
    )
        requires
            pre.consistent(),
            pre.steps(event, post, Some(action)),
        ensures
            Self::serves(action) ==> pre.phase is Authenticated && post.phase is Authenticated,
            pre.phase is Authenticated ==> post.phase is Authenticated,
            post.phase is Authenticated && !(pre.phase is Authenticated) ==> pre.waiting
                is Authentication && event == Event::<Secured, Factory, HandleErr>::Authenticated(
                Ok(true),
            ),
    {
    }

    /// A session is consistent when it starts.
    pub proof fn lemma_start_consistent<Config>(
        stream: Stream,
        security: Security<Config>,
        session: Self,
        first: Action<Stream, Factory, HandleErr>,
    )
        requires
            Self::starts(stream, security, session, first),
        ensures
            session.consistent(),
    {
    }

    /// A step of a consistent session leaves it consistent.
    pub proof fn lemma_step_consistent(
        pre: Self,
        event: Event<Secured, Factory, HandleErr>,
        post: Self,
        action: Option<Action<Stream, Factory, HandleErr>>,
    )
        requires
            pre.consistent(),
            pre.steps(event, post, action),
        ensures
            post.consistent(),
    {
    }

    /// `post` is what one step makes of `pre`.
    pub open spec fn step_between(pre: Self, post: Self) -> bool {
        exists|event: Event<Secured, Factory, HandleErr>, action: Option<Action<Stream, Factory, HandleErr>>|
            #[trigger] pre.steps(event, post, action)
    }

    /// `trace` holds the states that a session goes through, one step after the other.
    pub open spec fn run(trace: Seq<Self>) -> bool {
        forall|i: int|
            0 <= i < trace.len() - 1 ==> Self::step_between(#[trigger] trace[i], trace[i + 1])
    }

    /// A session is consistent from its start on, whatever happens. So no
    /// client is ever logged in over a plain control channel where that is
    /// forbidden, and no traffic is ever asked for over a broken one.
    pub proof fn lemma_sessions_are_consistent<Config>(
        stream: Stream,
        security: Security<Config>,
        first: Action<Stream, Factory, HandleErr>,
        trace: Seq<Self>,
    )
        requires
            trace.len() > 0,
            Self::starts(stream, security, trace[0], first),
            Self::run(trace),
        ensures
            forall|i: int| 0 <= i < trace.len() ==> (#[trigger] trace[i]).consistent(),
            forall|i: int|
                0 <= i < trace.len() && !trace[i].allow_plaintext && !((#[trigger] trace[i]).reader
                    is Tls) ==> !(trace[i].phase is Authenticated),
            forall|i: int|
                0 <= i < trace.len() && (#[trigger] trace[i]).reader is UpgradeBroken
                    ==> trace[i].waiting is Handshake || trace[i].waiting is Closed,
    {
        assert forall|i: int| 0 <= i < trace.len() implies (#[trigger] trace[i]).consistent() by {
            Self::lemma_run_consistent(trace, i);
        }
    }

    /// The state with the index `i` of a run from a consistent state is consistent.
    proof fn lemma_run_consistent(trace: Seq<Self>, i: int)
        requires
            0 <= i < trace.len(),
            trace[0].consistent(),
            Self::run(trace),
        ensures
            trace[i].consistent(),
        decreases i,
    {
        if i > 0 {
            Self::lemma_run_consistent(trace, i - 1);
            let pre = trace[i - 1];
            let post = trace[i];
            assert(Self::step_between(trace[i - 1], trace[i - 1 + 1]));
            let (event, action) = choose|
                event: Event<Secured, Factory, HandleErr>,
                action: Option<Action<Stream, Factory, HandleErr>>,
            | #[trigger] pre.steps(event, post, action);
            Self::lemma_step_consistent(pre, event, post, action);
        }
    }

    /// A session that has ended stays as it is, whatever happens: no event
    /// is taken. In particular a control channel that a failed handshake has
    /// left broken stays broken.
    pub proof fn lemma_closed_is_final(trace: Seq<Self>, i: int, j: int)
        requires
            0 <= i <= j < trace.len(),
            Self::run(trace),
            trace[i].waiting is Closed,
        ensures
            trace[j] == trace[i],
        decreases j - i,
    {
        if i < j {
            Self::lemma_closed_is_final(trace, i, j - 1);
            assert(Self::step_between(trace[j - 1], trace[j - 1 + 1]));
        }
    }

    /// A handshake that fails ends the session and leaves the control
    /// channel as the handshake found it: broken, in a consistent session.
    pub proof fn lemma_failed_handshake(
        pre: Self,
        error: std::io::Error,
        post: Self,
        action: Option<Action<Stream, Factory, HandleErr>>,
    )
        requires
            pre.waiting is Handshake,
            pre.steps(Event::Handshake(Err(error)), post, action),
        ensures
            post.waiting is Closed,
            post.reader == pre.reader,
            action matches Some(Action::Finish(Err(_))),
            pre.consistent() ==> !post.reader.usable(),
    {
    }

    /// The file to rename is set by `RNFR` alone, and what is set is its
    /// argument. Any other step leaves the file as it is or, where it is
    /// the step of `RNTO`, takes it.
    pub proof fn lemma_rename_source(
        pre: Self,
        event: Event<Secured, Factory, HandleErr>,
        post: Self,
        action: Option<Action<Stream, Factory, HandleErr>>,
    )
        requires
            pre.steps(event, post, action),
        ensures
            post.to_rename == pre.to_rename || post.to_rename is None || (pre.waiting is Command
                && pre.phase is Authenticated && Self::names_source(event) is Some
                && post.to_rename == Self::names_source(event)),
            post.to_rename != pre.to_rename && post.to_rename is None ==> pre.waiting is Command
                && pre.phase is Authenticated && Self::names_target(event),
    {
    }

    /// `OPTS` and `UTF8` change nothing for a client that is logged in, and
    /// `OPTS` changes nothing for a client that has not given a user name:
    /// the reply is the code 200 alone, and when it is written, the session
    /// is as it was before the command and reads the next one.
    pub proof fn lemma_opts_and_utf8_change_nothing(
        pre: Self,
        command: Command,
        replied: Self,
        reply: Option<Action<Stream, Factory, HandleErr>>,
        post: Self,
        next: Option<Action<Stream, Factory, HandleErr>>,
    )
        requires
            pre.waiting is Command,
            match command {
                Command::Opts(_) => pre.phase is Authenticated || pre.phase is AwaitingUser,
                Command::Utf8(_) => pre.phase is Authenticated,
                _ => false,
            },
            pre.steps(Event::Read(Ok(CommandRead::Command(command))), replied, reply),
            replied.steps(Event::Sent, post, next),
        ensures
            reply == Some(
                Action::<Stream, Factory, HandleErr>::Send(
                    FtpResponse::Simple(SimpleReturnCode::Okay, None),
                ),
            ),
            replied == (Ftp { waiting: Waiting::Sent(AfterSend::Read), ..pre }),
            next == Some(Action::<Stream, Factory, HandleErr>::Read),
            post == pre,
    {
    }

    /// A line of nothing but white space ends the session without an error,
    /// unless the session waits for a password. So does an empty line.
    pub proof fn lemma_blank_line_disconnects(
        pre: Self,
        line: Seq<u8>,
        read: Result<CommandRead, ReadError>,
        post: Self,
        action: Option<Action<Stream, Factory, HandleErr>>,
    )
        requires
            valid_utf8(line),
            blank(decode_utf8(line)),
            reads_as(line, read),
            pre.waiting is Command,
            !(pre.phase is AwaitingPass),
            pre.steps(Event::Read(read), post, action),
        ensures
            valid_utf8(Seq::<u8>::empty()) && blank(decode_utf8(Seq::<u8>::empty())),
            read is Ok,
            action == Some(Action::<Stream, Factory, HandleErr>::Finish(Ok(()))),
            post.waiting is Closed,
    {
        lemma_trim_blank(decode_utf8(line));
    }

    /// A data connection is accepted only when the reply that announces it is
    /// written, and a reply announces one only where there is a listener to
    /// accept it with.
    pub proof fn lemma_data_follows_reply(
        pre: Self,
        event: Event<Secured, Factory, HandleErr>,
        post: Self,
        action: Option<Action<Stream, Factory, HandleErr>>,
    )
        requires
            pre.steps(event, post, action),
        ensures
            action matches Some(Action::AcceptData(_)) ==> event is Sent && pre.accepts_next(),
            post.accepts_next() && !pre.accepts_next() ==> pre.waiting is Command
                && pre.phase is Authenticated && pre.io_factory is Some && action == Some(
                Action::<Stream, Factory, HandleErr>::Send(
                    FtpResponse::Simple(SimpleReturnCode::OpeningDataConnection, None),
                ),
            ),
    {
    }

    /// A listener serves one transfer: the step that hands it out to accept
    /// the data connection leaves the session without a listener, and a
    /// session without a listener turns down the commands that transfer data
    /// with the code 502.
    pub proof fn lemma_listener_serves_once(
        pre: Self,
        event: Event<Secured, Factory, HandleErr>,
        post: Self,
        action: Option<Action<Stream, Factory, HandleErr>>,
    )
        requires
            pre.steps(event, post, action),
        ensures
            action matches Some(Action::AcceptData(factory)) ==> pre.io_factory == Some(factory)
                && post.io_factory is None,
            pre.waiting is Command && pre.phase is Authenticated && pre.io_factory is None
                && Self::asks_for_transfer(event) ==> pre.replies_code(
                post,
                action,
                SimpleReturnCode::CommandNotImplemented,
            ),
            post.io_factory is Some && post.io_factory != pre.io_factory ==> event is Sent
                && pre.waiting == Waiting::<Factory, HandleErr>::Sent(
                AfterSend::Install(post.io_factory->0),
            ),
    {
    }

    /// A listener that is not bound to an IPv4 address is turned down with
    /// the code 502, and the session keeps the listener that it had, or none.
    pub proof fn lemma_passive_needs_ipv4(
        pre: Self,
        conn: PassiveConn<Factory>,
        post: Self,
        action: Option<Action<Stream, Factory, HandleErr>>,
    )
        requires
            pre.waiting is Passive,
            conn.address().ip is V6,
            pre.steps(Event::PassiveOpened(Some(conn)), post, action),
        ensures
            pre.replies_code(post, action, SimpleReturnCode::CommandNotImplemented),
            post.io_factory == pre.io_factory,
    {
    }
}

} // verus!
