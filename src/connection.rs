//! One connection to an ADB server: its address, the socket it holds, and
//! the host-protocol steps that need that socket to be live.

use vstd::prelude::*;
use vstd::slice::slice_subrange;

use crate::error::AdbError;
use crate::host::{
    body_outcome, encode_request, parse_response, read_body, request_bytes, response_outcome,
    MAX_REQUEST_LEN,
};
use crate::sync::{tag_bytes, SyncCommand};
use crate::wire::{decode_hex4, le_u32, parse_hex4, read_le_u32};

verus! {

/// The port an ADB server listens on unless told otherwise.
pub const DEFAULT_SERVER_PORT: u16 = 5037;

/// Whether two errors are of the same kind; the text or bytes that some
/// kinds carry are not compared.
pub open spec fn same_kind(a: AdbError, b: AdbError) -> bool {
    match (a, b) {
        (AdbError::RequestFailed(_), AdbError::RequestFailed(_)) => true,
        (AdbError::UnknownResponseType(_), AdbError::UnknownResponseType(_)) => true,
        _ => a == b,
    }
}

/// A connection to an ADB server. The socket itself belongs to the caller,
/// who names each one it opens by a handle; the connection records which
/// handle is live, so that a replaced socket is never used again.
#[derive(Debug)]
pub struct AdbTcpConnection {
    /// IPv4 address of the server.
    pub address: [u8; 4],
    /// TCP port of the server.
    pub port: u16,
    /// Handle of the live socket, if any.
    pub socket: Option<u64>,
}

impl AdbTcpConnection {
    /// The handle of the live socket, if any.
    pub open spec fn live_socket(&self) -> Option<u64> {
        self.socket
    }

    /// This connection after switching to socket `s`.
    pub open spec fn reconnected(&self, s: u64) -> AdbTcpConnection {
        AdbTcpConnection { address: self.address, port: self.port, socket: Some(s) }
    }

    /// A connection to `address:port`, with no socket yet.
    pub fn new(address: [u8; 4], port: u16) -> (r: AdbTcpConnection)
        ensures
            r.address == address,
            r.port == port,
            r.live_socket() is None,
    {
        AdbTcpConnection { address, port, socket: None }
    }

    /// Switches to the freshly opened socket `socket` and returns the handle
    /// it replaces, which the caller shuts down.
    pub fn new_connection(&mut self, socket: u64) -> (stale: Option<u64>)
        ensures
            *final(self) == old(self).reconnected(socket),
            final(self).address == old(self).address,
            final(self).port == old(self).port,
            final(self).live_socket() == Some(socket),
            stale == old(self).live_socket(),
    {
        let stale = self.socket;
        self.socket = Some(socket);
        stale
    }

    /// The live socket, or `NotConnected`.
    pub fn get_connection(&self) -> (r: Result<u64, AdbError>)
        ensures
            match self.live_socket() {
                Some(s) => r == Ok::<u64, AdbError>(s),
                None => r == Err::<u64, AdbError>(AdbError::NotConnected),
            },
    {
        match self.socket {
            Some(s) => Ok(s),
            None => Err(AdbError::NotConnected),
        }
    }

    /// The bytes of a host request for `verb`, to be written to the live
    /// socket. Fails before encoding anything when no socket is live.
    pub fn send_adb_request(&self, verb: &[u8]) -> (r: Result<Vec<u8>, AdbError>)
        ensures
            self.live_socket() is None ==> r == Err::<Vec<u8>, AdbError>(AdbError::NotConnected),
            self.live_socket() is Some && verb@.len() <= MAX_REQUEST_LEN ==> r is Ok
                && r->Ok_0@ == request_bytes(verb@),
            self.live_socket() is Some && verb@.len() > MAX_REQUEST_LEN ==> r == Err::<
                Vec<u8>,
                AdbError,
            >(AdbError::ConversionError),
    {
        if self.socket.is_none() {
            return Err(AdbError::NotConnected);
        }
        encode_request(verb)
    }

    /// The four tag bytes that open a sync request.
    pub fn send_sync_request(&self, command: SyncCommand) -> (r: Result<Vec<u8>, AdbError>)
        ensures
            self.live_socket() is None ==> r == Err::<Vec<u8>, AdbError>(AdbError::NotConnected),
            self.live_socket() is Some ==> r is Ok && r->Ok_0@ == tag_bytes(command),
    {
        if self.socket.is_none() {
            return Err(AdbError::NotConnected);
        }
        Ok(command.tag())
    }

    /// Interprets the server's response to a request. On `OKAY`, when
    /// `with_response`, also reads the hex-length-prefixed body that follows.
    /// Returns the body (empty without one) and the number of bytes taken.
    pub fn proxy_connection(&self, response: &[u8], with_response: bool) -> (r: Result<
        (Vec<u8>, usize),
        AdbError,
    >)
        ensures
            self.live_socket() is None ==> r == Err::<(Vec<u8>, usize), AdbError>(
                AdbError::NotConnected,
            ),
            self.live_socket() is Some ==> match response_outcome(response@) {
                Err(e) => r is Err && same_kind(r->Err_0, e),
                Ok(_) => if with_response {
                    match body_outcome(response@.subrange(4, response@.len() as int), true) {
                        Ok((p, n)) => r is Ok && r->Ok_0.0@ == p && r->Ok_0.1 == 4 + n,
                        Err(e) => r == Err::<(Vec<u8>, usize), AdbError>(e),
                    }
                } else {
                    r is Ok && r->Ok_0.0@.len() == 0 && r->Ok_0.1 == 4
                },
            },
    {
        if self.socket.is_none() {
            return Err(AdbError::NotConnected);
        }
        let taken = match parse_response(response) {
            Ok(n) => n,
            Err(e) => {
                return Err(e);
            },
        };
        if !with_response {
            return Ok((Vec::new(), taken));
        }
        match read_body(slice_subrange(response, taken, response.len()), true) {
            Ok((body, n)) => Ok((body, taken + n)),
            Err(e) => Err(e),
        }
    }

    /// Reads a body length written as four hexadecimal digits.
    pub fn get_hex_body_length(&self, b: &[u8]) -> (r: Result<u32, AdbError>)
        ensures
            b@.len() < 4 ==> r == Err::<u32, AdbError>(AdbError::IOError),
            b@.len() >= 4 ==> match parse_hex4(b@) {
                Some(n) => r == Ok::<u32, AdbError>(n as u32),
                None => r == Err::<u32, AdbError>(AdbError::ProtocolViolation),
            },
    {
        if b.len() < 4 {
            return Err(AdbError::IOError);
        }
        match decode_hex4(b) {
            Some(n) => Ok(n),
            None => Err(AdbError::ProtocolViolation),
        }
    }

    /// Reads a body length written as a little-endian 32-bit integer.
    pub fn get_body_length(&self, b: &[u8]) -> (r: Result<u32, AdbError>)
        ensures
            b@.len() < 4 ==> r == Err::<u32, AdbError>(AdbError::IOError),
            b@.len() >= 4 ==> r is Ok && r->Ok_0 as nat == le_u32(b@),
    {
        if b.len() < 4 {
            return Err(AdbError::IOError);
        }
        Ok(read_le_u32(b))
    }
}

impl Default for AdbTcpConnection {
    /// The server on the local machine, at its usual port.
    fn default() -> (r: AdbTcpConnection)
        ensures
            r.address == [127u8, 0u8, 0u8, 1u8],
            r.port == DEFAULT_SERVER_PORT,
            r.live_socket() is None,
    {
        AdbTcpConnection::new([127, 0, 0, 1], DEFAULT_SERVER_PORT)
    }
}

/// Connecting twice never leaves the first socket in use: the second call
/// hands back the first socket's handle for shutdown, and only the second
/// socket is live afterwards.
pub proof fn lemma_reconnect_supersedes(c: AdbTcpConnection, first: u64, second: u64)
    ensures
        c.reconnected(first).live_socket() == Some(first),
        c.reconnected(first).reconnected(second).live_socket() == Some(second),
{
}

} // verus!
