//! The two ways of reaching a device: through an ADB server with the host
//! protocol, or directly with the message protocol.

use vstd::prelude::*;

use crate::connection::AdbTcpConnection;
use crate::error::AdbError;
use crate::list_command::{decimal, resolved_user, PackageListType};
use crate::message::{Message, A_OPEN};
use crate::session::{Multiplexer, Session, SessionState};
use crate::sync::{
    encode_frame, entry_views, frame_bytes, list_outcome, parse_list, SyncCommand, SyncEntry,
};
use crate::wire::append_bytes;

verus! {

/// Ten to the power `k`.
pub open spec fn pow10(k: nat) -> nat
    decreases k,
{
    if k == 0 {
        1
    } else {
        10 * pow10((k - 1) as nat)
    }
}

proof fn lemma_decimal_len(n: nat, k: nat)
    requires
        k >= 1,
        n < pow10(k),
    ensures
        decimal(n).len() <= k,
    decreases n,
{
    if n >= 10 {
        lemma_decimal_len(n / 10, (k - 1) as nat);
    }
}

/// Every command text fits comfortably in a frame.
proof fn lemma_command_len(t: PackageListType, user: Option<u32>)
    ensures
        t.command_text(user).len() <= 64,
{
    reveal_with_fuel(pow10, 11);
    if let Some(u) = user {
        lemma_decimal_len(u as nat, 10);
    }
}

/// `exec:cmd package ` in ASCII.
pub open spec fn exec_prefix() -> Seq<u8> {
    seq![101u8, 120u8, 101u8, 99u8, 58u8, 99u8, 109u8, 100u8, 32u8, 112u8, 97u8, 99u8, 107u8, 97u8, 103u8, 101u8, 32u8]
}

/// The destination of a session that runs the package manager with `cmd`:
/// the service name, the command, and a terminating zero byte.
pub open spec fn exec_destination(cmd: Seq<u8>) -> Seq<u8> {
    exec_prefix() + cmd + seq![0u8]
}

/// A device reached through an ADB server.
#[derive(Debug)]
pub struct ADBServerDevice {
    pub transport: AdbTcpConnection,
}

impl ADBServerDevice {
    pub fn new(transport: AdbTcpConnection) -> (r: ADBServerDevice)
        ensures
            r.transport == transport,
    {
        ADBServerDevice { transport }
    }

    /// The `LIST` frame that asks, once the connection is in sync mode, for
    /// the packages that `package_list` selects. Where it asks for the current
    /// user, `current_user` is the outcome of the caller's query for it, and
    /// its failure fails the listing.
    pub fn list_packages(
        &self,
        package_list: &PackageListType,
        current_user: Result<u32, AdbError>,
    ) -> (r: Result<Vec<u8>, AdbError>)
        ensures
            self.transport.live_socket() is None ==> r == Err::<Vec<u8>, AdbError>(
                AdbError::NotConnected,
            ),
            self.transport.live_socket() is Some ==> match resolved_user(
                package_list.filter_of(),
                current_user,
            ) {
                Ok(user) => r is Ok && r->Ok_0@ == frame_bytes(
                    SyncCommand::List,
                    package_list.command_text(user),
                ),
                Err(e) => r == Err::<Vec<u8>, AdbError>(e),
            },
    {
        if self.transport.socket.is_none() {
            return Err(AdbError::NotConnected);
        }
        let ghost user = resolved_user(package_list.filter_of(), current_user);
        let cmd = match package_list.command_bytes(current_user) {
            Ok(c) => c,
            Err(e) => {
                return Err(e);
            },
        };
        proof {
            lemma_command_len(*package_list, user->Ok_0);
        }
        Ok(encode_frame(SyncCommand::List, cmd.as_slice()))
    }

    /// Reads the server's answer to a package listing, as the response to a
    /// `LIST`: the entries, and the number of bytes up to the closing `DONE`.
    pub fn handle_list_packages(&self, response: &[u8]) -> (r: Result<
        (Vec<SyncEntry>, usize),
        AdbError,
    >)
        ensures
            match list_outcome(response@) {
                Ok((es, n)) => r is Ok && entry_views(r->Ok_0.0@) == es && r->Ok_0.1 == n,
                Err(AdbError::UnknownResponseType(_)) => r is Err && r->Err_0 is UnknownResponseType,
                Err(e) => r == Err::<(Vec<SyncEntry>, usize), AdbError>(e),
            },
    {
        parse_list(response)
    }
}

/// A device reached directly with the message protocol.
pub struct ADBMessageDevice {
    pub sessions: Multiplexer,
}

impl ADBMessageDevice {
    pub open spec fn well_formed(&self) -> bool {
        self.sessions.well_formed()
    }

    pub fn new() -> (r: ADBMessageDevice)
        ensures
            r.well_formed(),
            r.sessions@ == Seq::<Session>::empty(),
    {
        ADBMessageDevice { sessions: Multiplexer::new() }
    }

    /// Opens a session that runs the package manager's listing for
    /// `package_list`, and returns its local id with the `OPEN` message to
    /// send. Where the current user is asked for, `current_user` is the
    /// outcome of the caller's query for it, and its failure fails the call.
    pub fn list_packages(
        &mut self,
        package_list: &PackageListType,
        current_user: Result<u32, AdbError>,
    ) -> (r: Result<(u32, Message), AdbError>)
        requires
            old(self).well_formed(),
        ensures
            final(self).well_formed(),
            match resolved_user(package_list.filter_of(), current_user) {
                Err(e) => r == Err::<(u32, Message), AdbError>(e) && final(self).sessions@ == old(self).sessions@,
                Ok(user) => if old(self).sessions@.len() + 1 >= u32::MAX {
                    r == Err::<(u32, Message), AdbError>(AdbError::ConversionError) && final(self).sessions@ == old(self).sessions@
                } else {
                    &&& r is Ok
                    &&& r->Ok_0.0 == old(self).sessions@.len() + 1
                    &&& final(self).sessions@ == old(self).sessions@.push(
                        Session { local_id: r->Ok_0.0, remote_id: 0, state: SessionState::Opening },
                    )
                    &&& r->Ok_0.1@.well_formed()
                    &&& r->Ok_0.1.command == A_OPEN
                    &&& r->Ok_0.1.arg0 == r->Ok_0.0
                    &&& r->Ok_0.1.arg1 == 0
                    &&& r->Ok_0.1.payload@ == exec_destination(package_list.command_text(user))
                },
            },
    {
        let ghost user = resolved_user(package_list.filter_of(), current_user);
        let cmd = match package_list.command_bytes(current_user) {
            Ok(c) => c,
            Err(e) => {
                return Err(e);
            },
        };
        proof {
            lemma_command_len(*package_list, user->Ok_0);
        }
        let mut destination: Vec<u8> = vec![101u8, 120u8, 101u8, 99u8, 58u8, 99u8, 109u8, 100u8, 32u8, 112u8, 97u8, 99u8, 107u8, 97u8, 103u8, 101u8, 32u8];
        assert(destination@ =~= exec_prefix());
        append_bytes(&mut destination, cmd.as_slice());
        destination.push(0u8);
        assert(destination@ =~= exec_destination(cmd@));
        self.sessions.open_session(destination.as_slice())
    }
}

} // verus!
