//! How a session is set up: with or without TLS, and with which rules for it.
//!
//! The configuration of the TLS library is carried along as `Config`; nothing
//! here looks into it.

use crate::ftp::{Action, Ftp};
use vstd::prelude::*;

verus! {

/// TLS for a session: the configuration, and the rules.
pub struct EncryptionInfo<Config> {
    /// The handshake takes place before anything is sent or read.
    pub implicit: bool,
    /// A client may log in without TLS.
    pub allow_plaintext: bool,
    pub config: Config,
}

impl<Config> EncryptionInfo<Config> {
    /// Starts to set up TLS with `config`; see [`EncryptionBuilder::new`].
    pub fn builder(config: Config) -> (builder: EncryptionBuilder<Config>)
        ensures
            builder.config == config,
            !builder.implicit,
            !builder.allow_plaintext,
    {
        EncryptionBuilder::new(config)
    }
}

/// Whether a session has TLS.
pub enum Security<Config> {
    NoEncryption,
    Encryption(EncryptionInfo<Config>),
}

/// The setup of a session.
pub struct FtpBuilder<Config> {
    pub security: Security<Config>,
}

impl<Config> Default for FtpBuilder<Config> {
    /// A session without TLS.
    fn default() -> (builder: Self)
        ensures
            builder.security is NoEncryption,
    {
        FtpBuilder { security: Security::NoEncryption }
    }
}

impl<Config> FtpBuilder<Config> {
    /// A session over `stream` with this setup, and the first thing to do
    /// for it; see [`Ftp::new_from_builder`].
    pub fn build<Stream, Secured, Factory, HandleErr>(&self, stream: Stream) -> (r: (
        Ftp<Stream, Secured, Factory, HandleErr>,
        Action<Stream, Factory, HandleErr>,
    ))
        ensures
            Ftp::starts(stream, self.security, r.0, r.1),
    {
        Ftp::new_from_builder(stream, self)
    }

    /// The same setup, with TLS as `info` says.
    pub fn encryption(self, info: EncryptionInfo<Config>) -> (builder: Self)
        ensures
            builder.security == Security::Encryption(info),
    {
        FtpBuilder { security: Security::Encryption(info) }
    }
}

/// The setup of TLS for a session.
pub struct EncryptionBuilder<Config> {
    pub implicit: bool,
    pub allow_plaintext: bool,
    pub config: Config,
}

impl<Config> EncryptionBuilder<Config> {
    /// TLS with `config`. The handshake takes place when the client asks for
    /// it, and no client may log in without it.
    pub fn new(config: Config) -> (builder: Self)
        ensures
            builder.config == config,
            !builder.implicit,
            !builder.allow_plaintext,
    {
        EncryptionBuilder { implicit: false, allow_plaintext: false, config }
    }

    /// The same setup, with the handshake before anything else if `implicit`.
    pub fn implicit(self, implicit: bool) -> (builder: Self)
        ensures
            builder == (EncryptionBuilder { implicit, ..self }),
    {
        EncryptionBuilder { implicit, allow_plaintext: self.allow_plaintext, config: self.config }
    }

    /// The same setup; a client may log in without TLS if `allow`.
    pub fn allow_plaintext(self, allow: bool) -> (builder: Self)
        ensures
            builder == (EncryptionBuilder { allow_plaintext: allow, ..self }),
    {
        EncryptionBuilder { implicit: self.implicit, allow_plaintext: allow, config: self.config }
    }

    /// TLS as it was set up.
    pub fn build(self) -> (info: EncryptionInfo<Config>)
        ensures
            info.implicit == self.implicit,
            info.allow_plaintext == self.allow_plaintext,
            info.config == self.config,
    {
        EncryptionInfo {
            implicit: self.implicit,
            allow_plaintext: self.allow_plaintext,
            config: self.config,
        }
    }
}

} // verus!
