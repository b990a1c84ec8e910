//! What the server has from its host: the listener for a data connection and
//! the entries of a directory listing, with the line that each one is sent as.
//!
//! A line has the shape of a line of `ls -l`:
//!
//! ```text
//! <type><rwxrwxrwx> <links> <owner> <group> <size> <Mon> <day> <HH:MM|YYYY> <name>
//! ```
//!
//! The calendar comes from `chrono`: the year, the month and the day of a time
//! are what `chrono` says they are. The clock is not looked at here: the time
//! at which an entry is listed is given.

use crate::code::{FtpResponse, Port};
use crate::text::{
    decimal, decimal_string, pad_left, push_padded, signed_decimal, signed_decimal_string,
};
use chrono::{Datelike, Timelike};
use vstd::prelude::*;
use vstd::string::StrSliceExecFns;
use vstd::string::StringExecFns;
use vstd::utf8::encode_utf8;

verus! {

/// The greeting of a handler that has none of its own.
pub open spec fn default_welcome() -> Seq<char> {
    "cftp by nullptr"@
}

/// The name of the system of a handler that has none of its own.
pub open spec fn default_os_info() -> Seq<char> {
    "UNIX Type: L8"@
}

/// The greeting of a handler that has none of its own.
pub fn welcome() -> (text: String)
    ensures
        text@ == default_welcome(),
{
    "cftp by nullptr".to_owned()
}

/// The name of the system of a handler that has none of its own.
pub fn os_info() -> (text: String)
    ensures
        text@ == default_os_info(),
{
    "UNIX Type: L8".to_owned()
}

/// An IP address.
#[derive(Debug, Clone, Copy, PartialEq, Eq, Hash)]
pub enum IpAddress {
    /// The four bytes of an IPv4 address.
    V4([u8; 4]),
    /// The sixteen bytes of an IPv6 address.
    V6([u8; 16]),
}

/// An IP address and a port.
#[derive(Debug, Clone, Copy, PartialEq, Eq, Hash)]
pub struct SocketAddress {
    pub ip: IpAddress,
    pub port: u16,
}

/// A listener for one data connection in passive mode: the address it is
/// bound to, and `Factory`, which accepts the connection.
#[derive(Debug)]
pub struct PassiveConn<Factory> {
    io_factory: Factory,
    addr: SocketAddress,
}

impl<Factory> PassiveConn<Factory> {
    /// What accepts the connection.
    pub closed spec fn factory(self) -> Factory {
        self.io_factory
    }

    /// The address that the listener is bound to.
    pub closed spec fn address(self) -> SocketAddress {
        self.addr
    }

    /// The reply that tells a client of the address, if the address is one
    /// that passive mode can tell of: an IPv4 address.
    pub open spec fn reply(self) -> Option<FtpResponse> {
        match self.address().ip {
            IpAddress::V4(octets) => Some(
                FtpResponse::EnteringPassiveMode(octets, Port(self.address().port)),
            ),
            IpAddress::V6(_) => None,
        }
    }

    /// The listener that is bound to `addr` and accepts with `io_factory`.
    pub fn new(addr: SocketAddress, io_factory: Factory) -> (conn: Self)
        ensures
            conn.address() == addr,
            conn.factory() == io_factory,
    {
        PassiveConn { addr, io_factory }
    }

    /// What accepts the connection.
    pub fn into_inner(self) -> (io_factory: Factory)
        ensures
            io_factory == self.factory(),
    {
        self.io_factory
    }

    /// The reply that tells a client where to connect to; `None` if the
    /// listener is not bound to an IPv4 address.
    pub fn to_reply(&self) -> (r: Option<FtpResponse>)
        ensures
            r == self.reply(),
    {
        match self.addr.ip {
            IpAddress::V4(octets) => Some(
                FtpResponse::EnteringPassiveMode(octets, Port(self.addr.port)),
            ),
            IpAddress::V6(_) => None,
        }
    }
}

/// The first second that has a date in the calendar of `chrono`: the start of
/// the year -262143.
pub const MIN_TIMESTAMP: i64 = -8_334_601_228_800;

/// The last second that has a date in the calendar of `chrono`: the end of
/// the year 262142.
pub const MAX_TIMESTAMP: i64 = 8_210_266_876_799;

/// A file that was changed less than this many seconds ago, or will be within
/// as many, is listed with the time of day of the change, and any other with
/// the year: six months of thirty days.
pub const RECENT_SECONDS: i64 = 6 * 30 * 24 * 60 * 60;

/// The time, in seconds since the start of 1970 in UTC, has a date in the calendar.
pub open spec fn representable(timestamp: i64) -> bool {
    MIN_TIMESTAMP <= timestamp <= MAX_TIMESTAMP
}

/// The year of the date that a time falls on in UTC. Before the year 1 it is
/// zero or negative.
pub uninterp spec fn calendar_year(timestamp: i64) -> i32;

/// The English name, shortened to three letters, of the month that a time falls in in UTC.
pub uninterp spec fn calendar_month(timestamp: i64) -> Seq<char>;

/// The day of the month that a time falls on in UTC.
pub uninterp spec fn calendar_day(timestamp: i64) -> u32;

/// The seconds that have passed since midnight in UTC.
pub open spec fn seconds_of_day(timestamp: i64) -> int {
    timestamp as int % 86_400
}

/// The hour of the day in UTC, from 0 to 23.
pub open spec fn hour_of_day(timestamp: i64) -> u32 {
    (seconds_of_day(timestamp) / 3600) as u32
}

/// The minute of the hour in UTC, from 0 to 59.
pub open spec fn minute_of_hour(timestamp: i64) -> u32 {
    ((seconds_of_day(timestamp) / 60) % 60) as u32
}

/// `DateTime::from_timestamp` and `Datelike::year` of `chrono`: the year of
/// the date that `timestamp` falls on. `chrono` has a date for the times from
/// `MIN_TIMESTAMP` to `MAX_TIMESTAMP` and gives `None` for any other. Of the
/// year only this is claimed, that it depends on `timestamp` alone.
#[verifier::external_body]
fn utc_year(timestamp: i64) -> (year: Option<i32>)
    ensures
        year == if representable(timestamp) {
            Some(calendar_year(timestamp))
        } else {
            None
        },
{
    match chrono::DateTime::from_timestamp(timestamp, 0) {
        Some(time) => Some(time.year()),
        None => None,
    }
}

/// `DateTime::from_timestamp` and `DateTime::format` with `%b` of `chrono`:
/// the short name of the month that `timestamp` falls in. `chrono` has a date
/// for the times from `MIN_TIMESTAMP` to `MAX_TIMESTAMP` and gives `None` for
/// any other. Of the name only this is claimed, that it depends on
/// `timestamp` alone.
#[verifier::external_body]
fn utc_month(timestamp: i64) -> (month: Option<String>)
    ensures
        match month {
            Some(name) => representable(timestamp) && name@ == calendar_month(timestamp),
            None => !representable(timestamp),
        },
{
    match chrono::DateTime::from_timestamp(timestamp, 0) {
        Some(time) => Some(time.format("%b").to_string()),
        None => None,
    }
}

/// `DateTime::from_timestamp` and `Datelike::day` of `chrono`: the day of the
/// month that `timestamp` falls on. `chrono` has a date for the times from
/// `MIN_TIMESTAMP` to `MAX_TIMESTAMP` and gives `None` for any other. Of the
/// day only this is claimed, that it depends on `timestamp` alone.
#[verifier::external_body]
fn utc_day(timestamp: i64) -> (day: Option<u32>)
    ensures
        day == if representable(timestamp) {
            Some(calendar_day(timestamp))
        } else {
            None
        },
{
    match chrono::DateTime::from_timestamp(timestamp, 0) {
        Some(time) => Some(time.day()),
        None => None,
    }
}

/// `DateTime::from_timestamp` and `Timelike::hour` of `chrono`: the hour of
/// the day of `timestamp`. `chrono` has a date for the times from
/// `MIN_TIMESTAMP` to `MAX_TIMESTAMP` and gives `None` for any other. For the
/// hour it divides the seconds since midnight by 3600.
#[verifier::external_body]
fn utc_hour(timestamp: i64) -> (hour: Option<u32>)
    ensures
        hour == if representable(timestamp) {
            Some(hour_of_day(timestamp))
        } else {
            None
        },
{
    match chrono::DateTime::from_timestamp(timestamp, 0) {
        Some(time) => Some(time.hour()),
        None => None,
    }
}

/// `DateTime::from_timestamp` and `Timelike::minute` of `chrono`: the minute
/// of the hour of `timestamp`. `chrono` has a date for the times from
/// `MIN_TIMESTAMP` to `MAX_TIMESTAMP` and gives `None` for any other. For the
/// minute it counts the full minutes since midnight and takes what is left
/// of them after the full hours.
#[verifier::external_body]
fn utc_minute(timestamp: i64) -> (minute: Option<u32>)
    ensures
        minute == if representable(timestamp) {
            Some(minute_of_hour(timestamp))
        } else {
            None
        },
{
    match chrono::DateTime::from_timestamp(timestamp, 0) {
        Some(time) => Some(time.minute()),
        None => None,
    }
}

/// The time of day, as `HH:MM`.
pub open spec fn clock_text(hour: u32, minute: u32) -> Seq<char> {
    pad_left(decimal(hour as nat), 2, '0') + seq![':'] + pad_left(decimal(minute as nat), 2, '0')
}

/// The year, in four columns or more.
pub open spec fn year_text(year: i32) -> Seq<char> {
    pad_left(signed_decimal(year as int), 4, ' ')
}

/// A time as the calendar and the clock show it in UTC.
#[derive(Debug, Clone, PartialEq, Eq)]
pub struct CalendarTime {
    pub year: i32,
    /// The short name of the month.
    pub month: String,
    pub day: u32,
    pub hour: u32,
    pub minute: u32,
}

impl CalendarTime {
    /// This is the time `timestamp` as the calendar and the clock show it.
    pub open spec fn shows(&self, timestamp: i64) -> bool {
        &&& self.year == calendar_year(timestamp)
        &&& self.month@ == calendar_month(timestamp)
        &&& self.day == calendar_day(timestamp)
        &&& self.hour == hour_of_day(timestamp)
        &&& self.minute == minute_of_hour(timestamp)
    }

    /// The time `timestamp`, in seconds since the start of 1970, as the
    /// calendar and the clock show it; `None` if the calendar does not reach
    /// that far.
    pub fn from_timestamp(timestamp: i64) -> (r: Option<CalendarTime>)
        ensures
            match r {
                Some(time) => representable(timestamp) && time.shows(timestamp),
                None => !representable(timestamp),
            },
    {
        let year = utc_year(timestamp);
        let month = utc_month(timestamp);
        let day = utc_day(timestamp);
        let hour = utc_hour(timestamp);
        let minute = utc_minute(timestamp);
        match (year, month, day, hour, minute) {
            (Some(year), Some(month), Some(day), Some(hour), Some(minute)) => Some(
                CalendarTime { year, month, day, hour, minute },
            ),
            _ => None,
        }
    }

    /// The time as a listing shows it: the time of day if `recent`, the year if not.
    pub open spec fn stamp(&self, recent: bool) -> Seq<char> {
        if recent {
            clock_text(self.hour, self.minute)
        } else {
            year_text(self.year)
        }
    }
}

/// One entry of a directory listing.
#[derive(Debug, Clone)]
pub struct FileListing {
    pub name: String,
    pub is_dir: bool,
    /// The permission bits; the lowest nine are shown.
    pub permissions: u16,
    pub size: u64,
    /// When the file was last changed, in seconds since the start of 1970 in UTC.
    pub modified: i64,
    pub owner: String,
    pub group: String,
}

/// `yes` if one of the bits of `mask` is set in `permissions`, a dash if none is.
pub open spec fn permission(permissions: u16, mask: u16, yes: char) -> char {
    if permissions & mask != 0 {
        yes
    } else {
        '-'
    }
}

/// Whether a file that was changed at `modified` is listed at `now` with the
/// time of day of the change: the two are less than six months apart.
pub open spec fn recent(now: i64, modified: i64) -> bool {
    -RECENT_SECONDS < now - modified < RECENT_SECONDS
}

/// Whether `now` and `modified` are less than six months apart.
pub fn is_recent(now: i64, modified: i64) -> (r: bool)
    ensures
        r == recent(now, modified),
{
    let apart: i128 = now as i128 - modified as i128;
    -(RECENT_SECONDS as i128) < apart && apart < RECENT_SECONDS as i128
}

impl FileListing {
    /// The first column: the kind of the entry and who may read, write and
    /// run it.
    pub open spec fn mode(&self) -> Seq<char> {
        seq![
            if self.is_dir {
                'd'
            } else {
                '-'
            },
            permission(self.permissions, 0o400, 'r'),
            permission(self.permissions, 0o200, 'w'),
            permission(self.permissions, 0o100, 'x'),
            permission(self.permissions, 0o040, 'r'),
            permission(self.permissions, 0o020, 'w'),
            permission(self.permissions, 0o010, 'x'),
            permission(self.permissions, 0o004, 'r'),
            permission(self.permissions, 0o002, 'w'),
            permission(self.permissions, 0o001, 'x'),
        ]
    }

    /// The line of the entry, given the short name of the month and the day
    /// of its last change, and `stamp`, the time of day or the year of that
    /// change. The number of links is always given as 1.
    pub open spec fn line_from(&self, month: Seq<char>, day: u32, stamp: Seq<char>) -> Seq<char> {
        self.mode() + seq![' '] + pad_left(decimal(1), 2, ' ') + seq![' '] + self.owner@ + seq![' ']
            + self.group@ + seq![' '] + pad_left(decimal(self.size as nat), 8, ' ') + seq![' ']
            + month + seq![' '] + pad_left(decimal(day as nat), 2, ' ') + seq![' '] + stamp + seq![
            ' ',
        ] + self.name@
    }

    /// The line of the entry as it is listed at the time `now`: with the time
    /// of day of its last change if that is less than six months from `now`,
    /// and with the year if not.
    pub open spec fn line_at(&self, now: i64) -> Seq<char> {
        self.line_from(
            calendar_month(self.modified),
            calendar_day(self.modified),
            if recent(now, self.modified) {
                clock_text(hour_of_day(self.modified), minute_of_hour(self.modified))
            } else {
                year_text(calendar_year(self.modified))
            },
        )
    }

    /// Appends the first column.
    fn push_mode(&self, line: &mut String)
        ensures
            final(line)@ == old(line)@ + self.mode(),
    {
        let p: u16 = self.permissions;
        line.push(if self.is_dir { 'd' } else { '-' });
        line.push(if p & 0o400 != 0 { 'r' } else { '-' });
        line.push(if p & 0o200 != 0 { 'w' } else { '-' });
        line.push(if p & 0o100 != 0 { 'x' } else { '-' });
        line.push(if p & 0o040 != 0 { 'r' } else { '-' });
        line.push(if p & 0o020 != 0 { 'w' } else { '-' });
        line.push(if p & 0o010 != 0 { 'x' } else { '-' });
        line.push(if p & 0o004 != 0 { 'r' } else { '-' });
        line.push(if p & 0o002 != 0 { 'w' } else { '-' });
        line.push(if p & 0o001 != 0 { 'x' } else { '-' });
        assert(line@ =~= old(line)@ + self.mode());
    }

    /// The line of the entry, with `time` as the time of its last change, and
    /// with the time of day in it if `recent`, the year if not.
    pub fn to_line_with(&self, time: &CalendarTime, recent: bool) -> (line: String)
        ensures
            line@ == self.line_from(time.month@, time.day, time.stamp(recent)),
    {
        let mut line = String::new();
        self.push_mode(&mut line);
        line.push(' ');
        push_padded(&mut line, decimal_string(1).as_str(), 2, ' ');
        line.push(' ');
        line.append(self.owner.as_str());
        line.push(' ');
        line.append(self.group.as_str());
        line.push(' ');
        push_padded(&mut line, decimal_string(self.size).as_str(), 8, ' ');
        line.push(' ');
        line.append(time.month.as_str());
        line.push(' ');
        push_padded(&mut line, decimal_string(time.day as u64).as_str(), 2, ' ');
        line.push(' ');
        if recent {
            push_padded(&mut line, decimal_string(time.hour as u64).as_str(), 2, '0');
            line.push(':');
            push_padded(&mut line, decimal_string(time.minute as u64).as_str(), 2, '0');
        } else {
            push_padded(&mut line, signed_decimal_string(time.year as i64).as_str(), 4, ' ');
        }
        line.push(' ');
        line.append(self.name.as_str());
        assert(line@ =~= self.line_from(time.month@, time.day, time.stamp(recent)));
        line
    }

    /// The line of the entry as it is listed at the time `now`, in seconds
    /// since the start of 1970; `None` if the calendar does not reach as far
    /// as the time of the last change.
    pub fn to_line_at(&self, now: i64) -> (r: Option<String>)
        ensures
            match r {
                Some(line) => representable(self.modified) && line@ == self.line_at(now),
                None => !representable(self.modified),
            },
    {
        match CalendarTime::from_timestamp(self.modified) {
            Some(time) => {
                let line = self.to_line_with(&time, is_recent(now, self.modified));
                Some(line)
            },
            None => None,
        }
    }
}

/// The calendar reaches as far as the last change of each of `entries`.
pub open spec fn listable(entries: Seq<FileListing>) -> bool {
    forall|i: int| 0 <= i < entries.len() ==> representable(#[trigger] entries[i].modified)
}

/// The listing of `entries` at the time `now`: the line of each, each with the
/// end of a line after it.
pub open spec fn listing_text(entries: Seq<FileListing>, now: i64) -> Seq<char>
    decreases entries.len(),
{
    if entries.len() == 0 {
        seq![]
    } else {
        listing_text(entries.drop_last(), now) + entries.last().line_at(now) + seq!['\r', '\n']
    }
}

/// The bytes to send over the data connection for the listing of `entries` at
/// the time `now`: the listing in UTF-8. `None` if the calendar does not
/// reach as far as the last change of one of them.
pub fn listing_payload(entries: &Vec<FileListing>, now: i64) -> (r: Option<Vec<u8>>)
    ensures
        match r {
            Some(bytes) => listable(entries@) && bytes@ == encode_utf8(
                listing_text(entries@, now),
            ),
            None => !listable(entries@),
        },
{
    let mut text = String::new();
    let mut i: usize = 0;
    assert(entries@.take(0) =~= Seq::<FileListing>::empty());
    while i < entries.len()
        invariant
            i <= entries.len(),
            listable(entries@.take(i as int)),
            text@ == listing_text(entries@.take(i as int), now),
        decreases entries.len() - i,
    {
        assert(entries@.take(i + 1).drop_last() =~= entries@.take(i as int));
        match entries[i].to_line_at(now) {
            Some(line) => {
                text.append(line.as_str());
                text.push('\r');
                text.push('\n');
                assert(text@ =~= listing_text(entries@.take(i + 1), now));
                assert forall|k: int| 0 <= k < i + 1 implies representable(
                    #[trigger] entries@.take(i + 1)[k].modified,
                ) by {
                    if k < i {
                        assert(entries@.take(i + 1)[k] == entries@.take(i as int)[k]);
                    }
                }
            },
            None => {
                return None;
            },
        }
        i = i + 1;
    }
    assert(entries@.take(entries.len() as int) =~= entries@);
    Some(text.as_str().as_bytes_vec())
}

} // verus!
