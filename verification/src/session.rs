//! The session: connection state, the authentication handshake, and
//! command/response correlation, driven over a [`Transport`].
//!
//! A session owns at most one live connection and assumes at most one
//! outstanding request at a time.  Its methods never perform I/O themselves:
//! every byte that leaves or enters the engine goes through the transport
//! capability, and the decisions taken on those bytes are specified exactly.

use vstd::prelude::*;
use vstd::utf8::*;

use crate::codec::{
    decode_tcp_packet, decode_udp_response, encode_challenge_probe, encode_empty_probe,
    encode_tcp_packet,
    encode_udp_command, spec_grant_token_bytes, spec_is_challenge_grant,
    spec_rbuf_frame, spec_rbuf_frame_ready, spec_tcp_body_bytes, spec_tcp_frame_ok, spec_tcp_id,
    spec_tcp_size_ok, spec_udp_decode_is_malformed, spec_udp_response_text, sub_bytes,
    tcp_frame_total_len, CommandResult, ParsedResponse,
};
use crate::errors::{AuthState, IoErrorKind, PacketType, RCONError};
use crate::transport::Transport;

verus! {

/// How many bytes one receive call may hand back.
const RECV_BUF_LEN: usize = 65536;

/// How many receive calls a framed TCP read may make before giving up.
const MAX_RECV_CALLS: usize = 32;

/// One logical connection to an RCON server.
///
/// The configuration fields (`host`, `port`, `password`, `tcp`, `challenge`)
/// are set by the caller before `connect` and are never changed by the
/// engine; the state fields (`id`, `challenge_token`, `auth`, `transport`,
/// `rbuf`) are mutated only by the session itself.
pub struct RCON<T: Transport> {
    /// Hostname of the server.
    pub host: String,
    /// Port of the server.
    pub port: u16,
    /// Password proving the right to run commands.
    pub password: String,
    /// Correlation id for the next TCP request.
    pub id: u32,
    /// Whether the session speaks the TCP variant rather than UDP.
    pub tcp: bool,
    /// Whether the UDP variant runs the challenge handshake.
    pub challenge: bool,
    /// The server-issued token echoed with each authenticated UDP command.
    pub challenge_token: Option<String>,
    /// Authentication progress.
    pub auth: AuthState,
    /// The open socket, if any.
    pub transport: Option<T>,
    /// Stream bytes received but not yet consumed as a TCP frame.
    pub rbuf: Vec<u8>,
}

/// The caller-set configuration of `a` and `b` is the same.
pub open spec fn config_eq<T: Transport>(a: RCON<T>, b: RCON<T>) -> bool {
    &&& a.host == b.host
    &&& a.port == b.port
    &&& a.password == b.password
    &&& a.tcp == b.tcp
    &&& a.challenge == b.challenge
}

impl<T: Transport> RCON<T> {
    /// A fresh, unconnected session with the protocol's default settings.
    pub fn default() -> (r: RCON<T>)
        ensures
            r.host@ == Seq::<char>::empty(),
            r.port == 27017,
            r.password@ == Seq::<char>::empty(),
            r.id == 0x0012D4A6,
            r.tcp == false,
            r.challenge == false,
            r.challenge_token is None,
            r.auth == AuthState::Unauthenticated,
            r.transport is None,
            r.rbuf@ == Seq::<u8>::empty(),
    {
        RCON {
            host: String::new(),
            port: 27017,
            password: String::new(),
            id: 0x0012D4A6,
            tcp: false,
            challenge: false,
            challenge_token: None,
            auth: AuthState::Unauthenticated,
            transport: None,
            rbuf: Vec::new(),
        }
    }

    /// A non-empty challenge token is stored; an authenticated UDP command
    /// may only be sent while one is.
    pub open spec fn spec_has_token(&self) -> bool {
        self.challenge_token matches Some(t) && t@.len() > 0
    }

    /// Releases the connection.  Fails with `NotConnected` when no
    /// connection is open; afterwards every operation fails that way until
    /// the next `connect`.
    pub fn close(&mut self) -> (r: Result<(), RCONError>)
        ensures
            config_eq(*old(self), *final(self)),
            final(self).id == old(self).id,
            final(self).challenge_token == old(self).challenge_token,
            old(self).transport is None ==> r == Err::<(), RCONError>(RCONError::NotConnected)
                && *final(self) == *old(self),
            old(self).transport is Some ==> r is Ok && final(self).transport is None
                && final(self).auth == AuthState::Unauthenticated && final(self).rbuf@
                == Seq::<u8>::empty(),
    {
        if self.transport.is_none() {
            return Err(RCONError::NotConnected);
        }
        self.transport = None;
        self.rbuf = Vec::new();
        self.auth = AuthState::Unauthenticated;
        Ok(())
    }

    /// Sends one raw buffer over the open transport.
    pub fn send(&mut self, data: &Vec<u8>) -> (r: Result<(), RCONError>)
        ensures
            config_eq(*old(self), *final(self)),
            final(self).id == old(self).id,
            final(self).challenge_token == old(self).challenge_token,
            final(self).auth == old(self).auth,
            final(self).rbuf == old(self).rbuf,
            final(self).transport is Some <==> old(self).transport is Some,
            old(self).transport is None <==> r == Err::<(), RCONError>(RCONError::NotConnected),
            old(self).transport is Some ==> (r is Ok || r matches Err(RCONError::ErrorKind(_))),
    {
        match &mut self.transport {
            None => Err(RCONError::NotConnected),
            Some(t) => match t.send_bytes(data) {
                Ok(()) => Ok(()),
                Err(k) => Err(RCONError::ErrorKind(k)),
            },
        }
    }

    /// Encodes and sends one UDP command: `rcon `, the challenge token when
    /// challenge mode is on, the password and the command.
    ///
    /// Rejected with `DisabledMode` on a TCP session, and with
    /// `NoChallengeToken` when challenge mode is on but no token is stored.
    pub fn send_command_udp(&mut self, data: &str) -> (r: Result<(), RCONError>)
        ensures
            config_eq(*old(self), *final(self)),
            final(self).id == old(self).id,
            final(self).challenge_token == old(self).challenge_token,
            final(self).auth == old(self).auth,
            final(self).rbuf == old(self).rbuf,
            final(self).transport is Some <==> old(self).transport is Some,
            old(self).tcp ==> r == Err::<(), RCONError>(RCONError::DisabledMode) && *final(self)
                == *old(self),
            !old(self).tcp && old(self).challenge && !old(self).spec_has_token() ==> r
                == Err::<(), RCONError>(RCONError::NoChallengeToken) && *final(self) == *old(self),
            !old(self).tcp && !(old(self).challenge && !old(self).spec_has_token()) ==> (
            old(self).transport is None <==> r == Err::<(), RCONError>(RCONError::NotConnected)),
            !old(self).tcp && !(old(self).challenge && !old(self).spec_has_token()) && old(self).transport is Some ==> (r is Ok || r matches Err(RCONError::ErrorKind(_))),
    {
        if self.tcp {
            return Err(RCONError::DisabledMode);
        }
        let buf = if self.challenge {
            match &self.challenge_token {
                None => {
                    return Err(RCONError::NoChallengeToken);
                },
                Some(t) => {
                    if t.as_str().is_empty() {
                        return Err(RCONError::NoChallengeToken);
                    }
                    encode_udp_command(self.password.as_str(), Some(t), data)
                },
            }
        } else {
            encode_udp_command(self.password.as_str(), None, data)
        };
        self.send(&buf)
    }

    /// Encodes and sends one TCP packet, filling in the session's
    /// correlation id and the `CommandR` type when none are given.
    ///
    /// Rejected with `DisabledMode` on a UDP session.
    pub fn send_command_tcp(
        &mut self,
        data: &str,
        command_type: Option<PacketType>,
        id: Option<u32>,
    ) -> (r: Result<(), RCONError>)
        requires
            encode_utf8(data@).len() + 10 <= u32::MAX,
        ensures
            config_eq(*old(self), *final(self)),
            final(self).id == old(self).id,
            final(self).challenge_token == old(self).challenge_token,
            final(self).auth == old(self).auth,
            final(self).rbuf == old(self).rbuf,
            final(self).transport is Some <==> old(self).transport is Some,
            !old(self).tcp ==> r == Err::<(), RCONError>(RCONError::DisabledMode) && *final(self)
                == *old(self),
            old(self).tcp ==> (old(self).transport is None <==> r == Err::<(), RCONError>(
                RCONError::NotConnected,
            )),
            old(self).tcp && old(self).transport is Some ==> (r is Ok || r matches Err(
                RCONError::ErrorKind(_),
            )),
    {
        if !self.tcp {
            return Err(RCONError::DisabledMode);
        }
        let use_id = match id {
            Some(i) => i,
            None => self.id,
        };
        let use_type = match command_type {
            Some(t) => t,
            None => PacketType::CommandR,
        };
        let buf = encode_tcp_packet(use_id, use_type, data);
        self.send(&buf)
    }

    /// Applies one received UDP datagram to the session.
    ///
    /// A challenge grant stores the granted token and surfaces
    /// `RecieveAuth`: the caller should re-send its command, which will now
    /// carry the fresh token.  Ordinary response text is returned as is,
    /// and a malformed datagram is rejected with the session unchanged.
    pub fn apply_udp_frame(&mut self, data: &Vec<u8>) -> (r: Result<String, RCONError>)
        ensures
            config_eq(*old(self), *final(self)),
            final(self).id == old(self).id,
            final(self).transport == old(self).transport,
            final(self).rbuf == old(self).rbuf,
            spec_udp_decode_is_malformed(data@) ==> r == Err::<String, RCONError>(
                RCONError::MalforedRead,
            ) && *final(self) == *old(self),
            !spec_udp_decode_is_malformed(data@) && spec_is_challenge_grant(data@.skip(4)) ==> {
                &&& r == Err::<String, RCONError>(RCONError::RecieveAuth)
                &&& final(self).challenge_token matches Some(t) && t@ == decode_utf8(
                    spec_grant_token_bytes(data@.skip(4)),
                )
                &&& final(self).auth == (if old(self).auth == AuthState::Authenticated {
                    AuthState::Authenticated
                } else {
                    AuthState::ChallengePending
                })
            },
            !spec_udp_decode_is_malformed(data@) && !spec_is_challenge_grant(data@.skip(4)) ==> {
                &&& r matches Ok(s) && s@ == spec_udp_response_text(data@)
                &&& final(self).challenge_token == old(self).challenge_token
                &&& final(self).auth == old(self).auth
            },
    {
        match decode_udp_response(data) {
            Err(e) => Err(e),
            Ok(ParsedResponse::ChallengeGrant(t)) => {
                self.challenge_token = Some(t);
                if self.auth != AuthState::Authenticated {
                    self.auth = AuthState::ChallengePending;
                }
                Err(RCONError::RecieveAuth)
            },
            Ok(ParsedResponse::Text(s)) => Ok(s),
        }
    }

    /// Receives one UDP datagram and applies it to the session.
    pub fn read_udp(&mut self) -> (r: Result<String, RCONError>)
        ensures
            config_eq(*old(self), *final(self)),
            final(self).id == old(self).id,
            final(self).rbuf == old(self).rbuf,
            final(self).transport is Some <==> old(self).transport is Some,
            old(self).tcp ==> r == Err::<String, RCONError>(RCONError::DisabledMode) && *final(self) == *old(self),
            !old(self).tcp ==> (old(self).transport is None <==> r == Err::<String, RCONError>(
                RCONError::NotConnected,
            )),
            old(self).transport is None ==> *final(self) == *old(self),
            !old(self).tcp ==> r != Err::<String, RCONError>(RCONError::DisabledMode),
            r == Err::<String, RCONError>(RCONError::RecieveAuth) ==> final(self).challenge_token is Some,
            (r is Ok || r == Err::<String, RCONError>(RCONError::MalforedRead) || r matches Err(
                RCONError::ErrorKind(_),
            )) ==> final(self).challenge_token == old(self).challenge_token && final(self).auth
                == old(self).auth,
            r is Err ==> (r == Err::<String, RCONError>(RCONError::DisabledMode) || r
                == Err::<String, RCONError>(RCONError::NotConnected) || r == Err::<
                String,
                RCONError,
            >(RCONError::MalforedRead) || r == Err::<String, RCONError>(RCONError::RecieveAuth)
                || r matches Err(RCONError::ErrorKind(_))),
    {
        if self.tcp {
            return Err(RCONError::DisabledMode);
        }
        let chunk = match &mut self.transport {
            None => {
                return Err(RCONError::NotConnected);
            },
            Some(t) => match t.receive_bytes(RECV_BUF_LEN) {
                Err(k) => {
                    return Err(RCONError::ErrorKind(k));
                },
                Ok(c) => c,
            },
        };
        self.apply_udp_frame(&chunk)
    }

    /// Removes the first complete frame from the stream buffer, if one is
    /// fully present.
    pub fn take_tcp_frame(&mut self) -> (r: Option<Vec<u8>>)
        ensures
            config_eq(*old(self), *final(self)),
            final(self).id == old(self).id,
            final(self).challenge_token == old(self).challenge_token,
            final(self).auth == old(self).auth,
            final(self).transport == old(self).transport,
            !spec_rbuf_frame_ready(old(self).rbuf@) ==> r is None && *final(self) == *old(self),
            spec_rbuf_frame_ready(old(self).rbuf@) ==> {
                &&& r matches Some(f)
                &&& f@ == spec_rbuf_frame(old(self).rbuf@)
                &&& spec_tcp_size_ok(f@)
                &&& final(self).rbuf@ == old(self).rbuf@.skip(f@.len() as int)
            },
    {
        if self.rbuf.len() < 4 {
            return None;
        }
        let total = match tcp_frame_total_len(&self.rbuf) {
            None => {
                return None;
            },
            Some(n) => n,
        };
        if self.rbuf.len() < total {
            return None;
        }
        let frame = sub_bytes(&self.rbuf, 0, total);
        let rest = sub_bytes(&self.rbuf, total, self.rbuf.len());
        proof {
            assert(frame@ =~= spec_rbuf_frame(old(self).rbuf@));
            assert(frame@.take(4) =~= old(self).rbuf@.take(4));
            assert(rest@ =~= old(self).rbuf@.skip(frame@.len() as int));
        }
        self.rbuf = rest;
        Some(frame)
    }

    /// Reads from the stream until one complete frame is buffered, and
    /// returns it.  A bounded number of receive calls is made before the
    /// wait is reported as timed out; a read that returns no bytes means
    /// the stream is gone.
    pub fn read_tcp_frame(&mut self) -> (r: Result<Vec<u8>, RCONError>)
        ensures
            config_eq(*old(self), *final(self)),
            final(self).id == old(self).id,
            final(self).challenge_token == old(self).challenge_token,
            final(self).auth == old(self).auth,
            final(self).transport is Some <==> old(self).transport is Some,
            old(self).transport is None <==> r == Err::<Vec<u8>, RCONError>(
                RCONError::NotConnected,
            ),
            r matches Ok(f) ==> spec_tcp_size_ok(f@),
            r is Err ==> (r == Err::<Vec<u8>, RCONError>(RCONError::NotConnected) || r matches Err(
                RCONError::ErrorKind(_),
            )),
    {
        if self.transport.is_none() {
            return Err(RCONError::NotConnected);
        }
        let mut attempts: usize = 0;
        while attempts < MAX_RECV_CALLS
            invariant
                config_eq(*old(self), *self),
                self.id == old(self).id,
                self.challenge_token == old(self).challenge_token,
                self.auth == old(self).auth,
                self.transport is Some,
                old(self).transport is Some,
                attempts <= MAX_RECV_CALLS,
            decreases MAX_RECV_CALLS - attempts,
        {
            match self.take_tcp_frame() {
                Some(f) => {
                    return Ok(f);
                },
                None => {},
            }
            let chunk = match &mut self.transport {
                None => {
                    return Err(RCONError::NotConnected);
                },
                Some(t) => match t.receive_bytes(RECV_BUF_LEN) {
                    Err(k) => {
                        return Err(RCONError::ErrorKind(k));
                    },
                    Ok(c) => c,
                },
            };
            if chunk.len() == 0 {
                return Err(RCONError::ErrorKind(IoErrorKind::ConnectionReset));
            }
            let mut c = chunk;
            self.rbuf.append(&mut c);
            attempts = attempts + 1;
        }
        Err(RCONError::ErrorKind(IoErrorKind::TimedOut))
    }

    /// Decodes one frame and correlates it with the session's current
    /// request id: a well-formed frame whose id differs is a protocol
    /// violation and is rejected as `MalforedRead`.
    pub fn handle_tcp_frame(&self, frame: &Vec<u8>) -> (r: Result<String, RCONError>)
        ensures
            !spec_tcp_frame_ok(frame@) ==> r == Err::<String, RCONError>(RCONError::MalforedRead),
            spec_tcp_frame_ok(frame@) && spec_tcp_id(frame@) != self.id ==> r == Err::<
                String,
                RCONError,
            >(RCONError::MalforedRead),
            spec_tcp_frame_ok(frame@) && spec_tcp_id(frame@) == self.id ==> (r matches Ok(s)
                && s@ == decode_utf8(spec_tcp_body_bytes(frame@))),
    {
        match decode_tcp_packet(frame) {
            Err(e) => Err(e),
            Ok(p) => {
                if p.id != self.id {
                    Err(RCONError::MalforedRead)
                } else {
                    Ok(p.body)
                }
            },
        }
    }

    /// Reads one framed TCP response, correlated with the current request.
    pub fn read_tcp(&mut self) -> (r: Result<String, RCONError>)
        ensures
            config_eq(*old(self), *final(self)),
            final(self).id == old(self).id,
            final(self).challenge_token == old(self).challenge_token,
            final(self).auth == old(self).auth,
            final(self).transport is Some <==> old(self).transport is Some,
            !old(self).tcp ==> r == Err::<String, RCONError>(RCONError::DisabledMode) && *final(self) == *old(self),
            old(self).tcp ==> (old(self).transport is None <==> r == Err::<String, RCONError>(
                RCONError::NotConnected,
            )),
            old(self).tcp ==> r != Err::<String, RCONError>(RCONError::DisabledMode),
            r is Err ==> (r == Err::<String, RCONError>(RCONError::DisabledMode) || r == Err::<
                String,
                RCONError,
            >(RCONError::NotConnected) || r == Err::<String, RCONError>(RCONError::MalforedRead)
                || r matches Err(RCONError::ErrorKind(_))),
    {
        if !self.tcp {
            return Err(RCONError::DisabledMode);
        }
        let frame = match self.read_tcp_frame() {
            Err(e) => {
                return Err(e);
            },
            Ok(f) => f,
        };
        self.handle_tcp_frame(&frame)
    }

    /// Reads one response over whichever variant the session is configured
    /// for.
    pub fn read(&mut self) -> (r: Result<String, RCONError>)
        ensures
            config_eq(*old(self), *final(self)),
            final(self).id == old(self).id,
            final(self).transport is Some <==> old(self).transport is Some,
            old(self).transport is None <==> r == Err::<String, RCONError>(
                RCONError::NotConnected,
            ),
            !old(self).tcp ==> final(self).rbuf == old(self).rbuf,
            old(self).tcp ==> final(self).challenge_token == old(self).challenge_token && final(self).auth == old(self).auth,
            (r is Ok || r == Err::<String, RCONError>(RCONError::MalforedRead) || r matches Err(
                RCONError::ErrorKind(_),
            )) ==> final(self).challenge_token == old(self).challenge_token && final(self).auth
                == old(self).auth,
            r == Err::<String, RCONError>(RCONError::RecieveAuth) ==> final(self).challenge_token is Some,
            old(self).tcp ==> r != Err::<String, RCONError>(RCONError::RecieveAuth),
            r != Err::<String, RCONError>(RCONError::DisabledMode),
            r is Err ==> (r == Err::<String, RCONError>(RCONError::NotConnected) || r == Err::<
                String,
                RCONError,
            >(RCONError::MalforedRead) || r == Err::<String, RCONError>(RCONError::RecieveAuth)
                || r matches Err(RCONError::ErrorKind(_))),
    {
        if self.tcp {
            self.read_tcp()
        } else {
            self.read_udp()
        }
    }

    /// Whether a received frame is a well-formed acknowledgement that
    /// echoes the session's current request id, as a successful
    /// authentication exchange must.
    pub fn is_auth_ack(&self, frame: &Vec<u8>) -> (b: bool)
        ensures
            b == (spec_tcp_frame_ok(frame@) && spec_tcp_id(frame@) == self.id),
    {
        match decode_tcp_packet(frame) {
            Err(_) => false,
            Ok(p) => p.id == self.id,
        }
    }

    /// Opens the transport and runs the handshake of the configured
    /// variant.
    ///
    /// For TCP: sends an `Auth` packet carrying the password and awaits the
    /// server's two-packet acknowledgement; an acknowledgement that does not
    /// echo the request id, or any socket failure after the connect, is
    /// `TCPAuth` and leaves the session `Failed`.  For UDP: when challenge
    /// mode is on, sends the challenge probe and awaits the grant
    /// (`ChallengeFailed` otherwise), then sends the initial empty-command
    /// probe and marks the session authenticated.  A failure to open the
    /// socket is `ConnectFailed`.  On any failure the transport is
    /// released and the session never ends up authenticated.
    pub fn connect(&mut self) -> (r: Result<(), RCONError>)
        requires
            old(self).tcp ==> encode_utf8(old(self).password@).len() + 10 <= u32::MAX,
        ensures
            config_eq(*old(self), *final(self)),
            final(self).id == old(self).id,
            r is Ok ==> final(self).auth == AuthState::Authenticated && final(self).transport is Some,
            r is Ok && !old(self).tcp && old(self).challenge ==> final(self).challenge_token is Some,
            r is Err ==> final(self).transport is None && final(self).auth
                != AuthState::Authenticated,
            r is Err ==> (r == Err::<(), RCONError>(RCONError::ConnectFailed) || r == Err::<
                (),
                RCONError,
            >(RCONError::ChallengeFailed) || r == Err::<(), RCONError>(RCONError::TCPAuth)),
            old(self).tcp ==> r != Err::<(), RCONError>(RCONError::ChallengeFailed),
            !old(self).tcp ==> r != Err::<(), RCONError>(RCONError::TCPAuth),
            !old(self).challenge ==> r != Err::<(), RCONError>(RCONError::ChallengeFailed),
            r == Err::<(), RCONError>(RCONError::TCPAuth) ==> final(self).auth
                == AuthState::Failed,
            r == Err::<(), RCONError>(RCONError::ChallengeFailed) ==> final(self).auth
                == AuthState::Failed,
    {
        self.auth = AuthState::Unauthenticated;
        self.transport = None;
        self.rbuf = Vec::new();
        let t = match T::open(&self.host, self.port) {
            Err(_) => {
                return Err(RCONError::ConnectFailed);
            },
            Ok(t) => t,
        };
        self.transport = Some(t);
        if self.tcp {
            let password = self.password.clone();
            match self.send_command_tcp(password.as_str(), Some(PacketType::Auth), None) {
                Err(_) => {
                    self.transport = None;
                    self.auth = AuthState::Failed;
                    return Err(RCONError::TCPAuth);
                },
                Ok(()) => {},
            }
            let frame = match self.read_tcp_frame() {
                Err(_) => {
                    self.transport = None;
                    self.auth = AuthState::Failed;
                    return Err(RCONError::TCPAuth);
                },
                Ok(f) => f,
            };
            if !self.is_auth_ack(&frame) {
                self.transport = None;
                self.auth = AuthState::Failed;
                return Err(RCONError::TCPAuth);
            }
            match self.read_tcp_frame() {
                Err(_) => {
                    self.transport = None;
                    self.auth = AuthState::Failed;
                    return Err(RCONError::TCPAuth);
                },
                Ok(_) => {},
            }
            self.auth = AuthState::Authenticated;
            Ok(())
        } else {
            if self.challenge {
                let probe = encode_challenge_probe();
                match self.send(&probe) {
                    Err(_) => {
                        self.transport = None;
                        self.auth = AuthState::Failed;
                        return Err(RCONError::ChallengeFailed);
                    },
                    Ok(()) => {},
                }
                match self.read_udp() {
                    Err(RCONError::RecieveAuth) => {},
                    _ => {
                        self.transport = None;
                        self.auth = AuthState::Failed;
                        return Err(RCONError::ChallengeFailed);
                    },
                }
            }
            let probe = encode_empty_probe();
            match self.send(&probe) {
                Err(_) => {
                    self.transport = None;
                    self.auth = AuthState::Failed;
                    return Err(RCONError::ConnectFailed);
                },
                Ok(()) => {},
            }
            self.auth = AuthState::Authenticated;
            Ok(())
        }
    }

    /// Sends one command and reads its one response.
    ///
    /// Over UDP, a challenge grant arriving in place of the response
    /// refreshes the stored token and surfaces `RecieveAuth`, a signal to
    /// re-send the command.  Over TCP, the response must echo the request's
    /// correlation id; after a correlated exchange the id moves forward.
    pub fn execute(&mut self, command: &str) -> (r: Result<CommandResult, RCONError>)
        requires
            old(self).tcp ==> encode_utf8(command@).len() + 10 <= u32::MAX,
        ensures
            config_eq(*old(self), *final(self)),
            final(self).transport is Some <==> old(self).transport is Some,
            !old(self).tcp ==> final(self).id == old(self).id,
            old(self).tcp && r is Ok ==> final(self).id == (if old(self).id == u32::MAX {
                0u32
            } else {
                (old(self).id + 1) as u32
            }),
            old(self).tcp && r is Err ==> final(self).id == old(self).id,
            !old(self).tcp && old(self).challenge && !old(self).spec_has_token() ==> r
                == Err::<CommandResult, RCONError>(RCONError::NoChallengeToken),
            !(!old(self).tcp && old(self).challenge && !old(self).spec_has_token()) && old(self).transport is None ==> r == Err::<CommandResult, RCONError>(RCONError::NotConnected),
            !(!old(self).tcp && old(self).challenge && !old(self).spec_has_token()) ==> r
                != Err::<CommandResult, RCONError>(RCONError::NoChallengeToken),
            r == Err::<CommandResult, RCONError>(RCONError::RecieveAuth) ==> final(self).challenge_token is Some,
            r != Err::<CommandResult, RCONError>(RCONError::DisabledMode),
            r is Err ==> !(r == Err::<CommandResult, RCONError>(RCONError::TCPAuth) || r == Err::<
                CommandResult,
                RCONError,
            >(RCONError::ChallengeFailed) || r == Err::<CommandResult, RCONError>(
                RCONError::ConnectFailed,
            )),
    {
        if self.tcp {
            match self.send_command_tcp(command, Some(PacketType::CommandR), None) {
                Err(e) => {
                    return Err(e);
                },
                Ok(()) => {},
            }
            let frame = match self.read_tcp_frame() {
                Err(e) => {
                    return Err(e);
                },
                Ok(f) => f,
            };
            match self.handle_tcp_frame(&frame) {
                Err(e) => Err(e),
                Ok(text) => {
                    if self.id == u32::MAX {
                        self.id = 0;
                    } else {
                        self.id = self.id + 1;
                    }
                    Ok(CommandResult { text })
                },
            }
        } else {
            match self.send_command_udp(command) {
                Err(e) => {
                    return Err(e);
                },
                Ok(()) => {},
            }
            match self.read_udp() {
                Err(e) => Err(e),
                Ok(text) => Ok(CommandResult { text }),
            }
        }
    }

    /// Encodes and sends one command over whichever variant the session is
    /// configured for.
    pub fn send_command(
        &mut self,
        data: &str,
        command_type: Option<PacketType>,
        id: Option<u32>,
    ) -> (r: Result<(), RCONError>)
        requires
            old(self).tcp ==> encode_utf8(data@).len() + 10 <= u32::MAX,
        ensures
            config_eq(*old(self), *final(self)),
            final(self).id == old(self).id,
            final(self).challenge_token == old(self).challenge_token,
            final(self).auth == old(self).auth,
            final(self).rbuf == old(self).rbuf,
            final(self).transport is Some <==> old(self).transport is Some,
            r != Err::<(), RCONError>(RCONError::DisabledMode),
            !old(self).tcp && old(self).challenge && !old(self).spec_has_token() ==> r
                == Err::<(), RCONError>(RCONError::NoChallengeToken),
            !(!old(self).tcp && old(self).challenge && !old(self).spec_has_token()) ==> (old(self).transport is None <==> r == Err::<(), RCONError>(RCONError::NotConnected)),
            !(!old(self).tcp && old(self).challenge && !old(self).spec_has_token()) && old(self).transport is Some ==> (r is Ok || r matches Err(RCONError::ErrorKind(_))),
    {
        if self.tcp {
            self.send_command_tcp(data, command_type, id)
        } else {
            self.send_command_udp(data)
        }
    }
}

} // verus!
