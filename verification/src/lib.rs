//! Client engine for the RCON remote-console protocol.
//!
//! The crate covers the two wire variants of the protocol: a connectionless
//! UDP form with an out-of-band challenge handshake, and a connection-oriented
//! TCP form with length-framed binary packets.  The packet codec is pure and
//! fully specified down to the byte; the session drives connection state, the
//! authentication handshake and command/response correlation through a
//! transport capability, so that the engine itself performs no I/O.

pub mod codec;
pub mod errors;
pub mod session;
pub mod transport;

pub use codec::{CommandResult, ParsedResponse, TcpPacket};
pub use errors::{AuthState, IoErrorKind, PacketType, RCONError};
pub use session::RCON;
pub use transport::Transport;
