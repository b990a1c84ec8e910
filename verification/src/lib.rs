//! The core of a pluggable FTP server: the protocol of the control channel,
//! kept apart from the sockets, the TLS library and the storage behind it.
//!
//! - [`code`]: the replies, and how they are written.
//! - [`command`]: the commands, and how a line is read as one.
//! - [`tls`]: the control channel, plain or TLS, and the upgrade from the one
//!   to the other.
//! - [`handler`]: what a host provides: listeners for data connections, and
//!   directory listings.
//! - [`builder`]: how a session is set up.
//! - [`ftp`]: the session. It takes events and gives actions; it performs
//!   none of them.
//! - [`text`]: what the others need of characters and text.

pub mod builder;
pub mod code;
pub mod command;
pub mod ftp;
pub mod handler;
pub mod text;
pub mod tls;
