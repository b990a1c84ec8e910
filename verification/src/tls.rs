//! The control channel, which is plain at first and may become a TLS session,
//! and the way from the one to the other.
//!
//! The channel is upgraded in two steps. The plain stream is taken out of the
//! channel first, which leaves the channel broken; only a handshake that
//! succeeds puts a stream back. So no stream is ever held twice, and a
//! handshake that fails leaves a channel that refuses all traffic instead of
//! one that goes on in the clear.

use vstd::prelude::*;

verus! {

/// `std::io::Error`: an error of input or output. It is carried along as it
/// is; nothing here looks into it.
#[verifier::external_type_specification]
#[verifier::external_body]
pub struct ExIoError(std::io::Error);

/// `core::mem::replace` puts `src` in the place of `dest` and gives back what
/// was there.
pub assume_specification<T>[ core::mem::replace::<T> ](dest: &mut T, src: T) -> (was: T)
    ensures
        *final(dest) == src,
        was == *old(dest),
;

/// A control channel over a plain stream `Stream` that can be upgraded to a
/// TLS session `Secured` over that stream.
#[derive(Debug)]
pub enum MaybeTls<Stream, Secured> {
    /// Nothing is encrypted.
    Plain(Stream),
    /// A TLS session is established.
    Tls(Box<Secured>),
    /// The stream was taken out for a handshake that has not succeeded.
    UpgradeBroken,
}

/// Why the channel could not be upgraded.
#[derive(Debug)]
pub enum TlsUpgradeError {
    /// The server has no TLS configuration.
    Unconfigured,
    /// An earlier upgrade has failed and left the channel broken.
    PreviousFailure,
    /// The handshake failed.
    Io(std::io::Error),
}

/// What is to be done to upgrade a channel.
#[derive(Debug)]
pub enum Upgrade<Stream> {
    /// Run the handshake of a TLS server on this stream.
    Handshake(Stream),
    /// Nothing: the channel is a TLS session already.
    AlreadyTls,
}

/// That a channel is broken and carries no traffic.
#[derive(Debug, Clone, Copy, PartialEq, Eq)]
pub struct UpgradeFailed;

impl UpgradeFailed {
    /// The error in words.
    pub open spec fn message() -> Seq<char> {
        "TLS upgrade failed"@
    }

    /// The error in words.
    pub fn to_string(&self) -> (s: String)
        ensures
            s@ == UpgradeFailed::message(),
    {
        "TLS upgrade failed".to_owned()
    }
}

impl<Stream, Secured> MaybeTls<Stream, Secured> {
    /// The channel carries traffic: it is plain or a TLS session.
    pub open spec fn usable(&self) -> bool {
        !(self is UpgradeBroken)
    }

    /// Whether the channel may be read from and written to. A broken channel
    /// never may.
    pub fn check(&self) -> (r: Result<(), UpgradeFailed>)
        ensures
            r is Ok <==> self.usable(),
    {
        match self {
            MaybeTls::Plain(_) => Ok(()),
            MaybeTls::Tls(_) => Ok(()),
            MaybeTls::UpgradeBroken => Err(UpgradeFailed),
        }
    }

    /// Whether the channel is a TLS session.
    pub fn is_tls(&self) -> (r: bool)
        ensures
            r == (self is Tls),
    {
        match self {
            MaybeTls::Tls(_) => true,
            _ => false,
        }
    }

    /// The first step of an upgrade, given whether the server has a TLS
    /// configuration.
    ///
    /// A plain channel gives up its stream and is broken from then on, whether
    /// or not there is a configuration to run the handshake with. A TLS
    /// session stays as it is. A broken channel stays broken.
    pub fn begin_upgrade(&mut self, configured: bool) -> (r: Result<
        Upgrade<Stream>,
        TlsUpgradeError,
    >)
        ensures
            match *old(self) {
                MaybeTls::Plain(stream) => *final(self) == MaybeTls::<
                    Stream,
                    Secured,
                >::UpgradeBroken && if configured {
                    r == Ok::<Upgrade<Stream>, TlsUpgradeError>(Upgrade::Handshake(stream))
                } else {
                    r == Err::<Upgrade<Stream>, TlsUpgradeError>(TlsUpgradeError::Unconfigured)
                },
                MaybeTls::Tls(_) => *final(self) == *old(self) && r == Ok::<
                    Upgrade<Stream>,
                    TlsUpgradeError,
                >(Upgrade::AlreadyTls),
                MaybeTls::UpgradeBroken => *final(self) == *old(self) && r == Err::<
                    Upgrade<Stream>,
                    TlsUpgradeError,
                >(TlsUpgradeError::PreviousFailure),
            },
    {
        match core::mem::replace(self, MaybeTls::UpgradeBroken) {
            MaybeTls::Plain(stream) => {
                if configured {
                    Ok(Upgrade::Handshake(stream))
                } else {
                    Err(TlsUpgradeError::Unconfigured)
                }
            },
            MaybeTls::Tls(session) => {
                *self = MaybeTls::Tls(session);
                Ok(Upgrade::AlreadyTls)
            },
            MaybeTls::UpgradeBroken => Err(TlsUpgradeError::PreviousFailure),
        }
    }

    /// The second step of an upgrade, given how the handshake that
    /// `begin_upgrade` asked for has ended.
    ///
    /// After a handshake that succeeded the channel is the TLS session. After
    /// one that failed the channel stays as it is: broken.
    pub fn finish_upgrade(&mut self, handshake: Result<Secured, std::io::Error>) -> (r: Result<
        (),
        TlsUpgradeError,
    >)
        ensures
            match handshake {
                Ok(session) => *final(self) == MaybeTls::<Stream, Secured>::Tls(Box::new(session))
                    && r is Ok,
                Err(e) => *final(self) == *old(self) && r == Err::<(), TlsUpgradeError>(
                    TlsUpgradeError::Io(e),
                ),
            },
    {
        match handshake {
            Ok(session) => {
                *self = MaybeTls::Tls(Box::new(session));
                Ok(())
            },
            Err(e) => Err(TlsUpgradeError::Io(e)),
        }
    }
}

} // verus!
