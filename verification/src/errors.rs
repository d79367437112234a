//! Error taxonomy and small wire enums shared by the codec and the session.

use vstd::prelude::*;

verus! {

/// Classification of a low-level socket failure.  The I/O layer that
/// implements [`crate::transport::Transport`] maps the operating system's
/// error kinds onto these before handing them to the engine; a read timeout
/// is the distinguished `TimedOut` value, never folded into `Other`.
#[derive(Clone, Copy, Debug, PartialEq, Eq, Structural)]
pub enum IoErrorKind {
    TimedOut,
    WouldBlock,
    ConnectionRefused,
    ConnectionReset,
    BrokenPipe,
    NotFound,
    PermissionDenied,
    Other,
}

/// Errors surfaced by the engine.  Each operation's contract says exactly
/// which of these it can return and on which inputs.
#[derive(Clone, Copy, Debug, PartialEq, Eq, Structural)]
pub enum RCONError {
    /// Operation attempted before `connect` or after `close`.
    NotConnected,
    /// Operation invalid for the configured transport kind.
    DisabledMode,
    /// Challenge mode is enabled but no token has been obtained yet.
    NoChallengeToken,
    /// Received bytes do not match the expected framing.
    MalforedRead,
    /// A challenge grant arrived where a command response was expected;
    /// the stored token was refreshed and the command should be re-sent.
    RecieveAuth,
    /// The TCP authentication exchange was rejected or broke down.
    TCPAuth,
    /// The UDP challenge handshake did not yield a grant.
    ChallengeFailed,
    /// The socket could not be bound or connected.
    ConnectFailed,
    /// A low-level I/O failure, with the underlying classification.
    ErrorKind(IoErrorKind),
}

/// Authentication progress of a session.
#[derive(Clone, Copy, Debug, PartialEq, Eq, Structural)]
pub enum AuthState {
    Unauthenticated,
    ChallengePending,
    Authenticated,
    Failed,
}

/// Kind of a packet in the TCP framing.
#[derive(Clone, Copy, Debug, PartialEq, Eq, Structural)]
pub enum PacketType {
    CommandR,
    Auth,
    ResponseValue,
}

impl PacketType {
    /// Wire code of this packet type in the TCP framing.
    pub open spec fn spec_code(self) -> u32 {
        match self {
            PacketType::ResponseValue => 0,
            PacketType::CommandR => 2,
            PacketType::Auth => 3,
        }
    }

    /// The 32-bit code written into a TCP packet's type field.
    pub fn code(self) -> (c: u32)
        ensures
            c == self.spec_code(),
    {
        match self {
            PacketType::ResponseValue => 0,
            PacketType::CommandR => 2,
            PacketType::Auth => 3,
        }
    }

    /// The packet type a TCP type field denotes, if any.
    pub fn from_code(c: u32) -> (r: Option<PacketType>)
        ensures
            r matches Some(t) ==> t.spec_code() == c,
            r is None <==> c != 0 && c != 2 && c != 3,
    {
        if c == 0 {
            Some(PacketType::ResponseValue)
        } else if c == 2 {
            Some(PacketType::CommandR)
        } else if c == 3 {
            Some(PacketType::Auth)
        } else {
            None
        }
    }
}

} // verus!
