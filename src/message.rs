//! The device-direct message protocol: a 24-byte little-endian header
//! `(command, arg0, arg1, data_length, data_checksum, magic)` followed by
//! `data_length` payload bytes, with `magic == command ^ 0xffffffff` and the
//! checksum the sum of the payload bytes modulo 2^32.

use vstd::prelude::*;
use vstd::slice::{slice_subrange, slice_to_vec};

use crate::error::AdbError;
use crate::wire::{append_bytes, le_bytes, le_u32, lemma_le_round_trip, read_le_u32, write_le_u32};

verus! {

pub const A_CNXN: u32 = 0x4e584e43;
pub const A_OPEN: u32 = 0x4e45504f;
pub const A_OKAY: u32 = 0x59414b4f;
pub const A_WRTE: u32 = 0x45545257;
pub const A_CLSE: u32 = 0x45534c43;
pub const A_AUTH: u32 = 0x48545541;

/// Size of a message header on the wire.
pub const HEADER_LEN: usize = 24;

/// One message of the device-direct protocol.
#[derive(Debug, Clone, PartialEq, Eq)]
pub struct Message {
    pub command: u32,
    pub arg0: u32,
    pub arg1: u32,
    pub data_length: u32,
    pub data_checksum: u32,
    pub magic: u32,
    pub payload: Vec<u8>,
}

/// A message as a mathematical value.
pub struct MessageView {
    pub command: u32,
    pub arg0: u32,
    pub arg1: u32,
    pub data_length: u32,
    pub data_checksum: u32,
    pub magic: u32,
    pub payload: Seq<u8>,
}

impl View for Message {
    type V = MessageView;

    open spec fn view(&self) -> MessageView {
        MessageView {
            command: self.command,
            arg0: self.arg0,
            arg1: self.arg1,
            data_length: self.data_length,
            data_checksum: self.data_checksum,
            magic: self.magic,
            payload: self.payload@,
        }
    }
}

/// The sum of the bytes.
pub open spec fn byte_sum(p: Seq<u8>) -> nat
    decreases p.len(),
{
    if p.len() == 0 {
        0
    } else {
        byte_sum(p.drop_last()) + p.last() as nat
    }
}

/// The checksum of a payload: its byte sum modulo 2^32.
pub open spec fn checksum(p: Seq<u8>) -> nat {
    byte_sum(p) % 0x1_0000_0000
}

impl MessageView {
    /// Magic, length and checksum agree with the command and payload.
    pub open spec fn well_formed(self) -> bool {
        &&& self.magic == self.command ^ 0xffff_ffff
        &&& self.data_length as nat == self.payload.len()
        &&& self.data_checksum as nat == checksum(self.payload)
    }

    /// The message's bytes on the wire.
    pub open spec fn encoding(self) -> Seq<u8> {
        le_bytes(self.command) + le_bytes(self.arg0) + le_bytes(self.arg1) + le_bytes(
            self.data_length,
        ) + le_bytes(self.data_checksum) + le_bytes(self.magic) + self.payload
    }
}

/// The header field at `4 * i` of `b`.
pub open spec fn field(b: Seq<u8>, i: int) -> u32 {
    le_u32(b.subrange(4 * i, 4 * i + 4)) as u32
}

/// What decoding the start of `b` gives: the message and the number of bytes
/// it took, or why it was refused. A message that breaks an invariant is
/// refused, never repaired.
pub open spec fn decode_outcome(b: Seq<u8>) -> Result<(MessageView, nat), AdbError> {
    if b.len() < 24 {
        Err(AdbError::IOError)
    } else {
        let command = field(b, 0);
        let len = field(b, 3) as nat;
        if field(b, 5) != command ^ 0xffff_ffff {
            Err(AdbError::ProtocolViolation)
        } else if b.len() < 24 + len {
            Err(AdbError::IOError)
        } else {
            let payload = b.subrange(24, 24 + len as int);
            if field(b, 4) as nat != checksum(payload) {
                Err(AdbError::ProtocolViolation)
            } else {
                Ok((
                    MessageView {
                        command,
                        arg0: field(b, 1),
                        arg1: field(b, 2),
                        data_length: field(b, 3),
                        data_checksum: field(b, 4),
                        magic: field(b, 5),
                        payload,
                    },
                    24 + len,
                ))
            }
        }
    }
}

/// Computes the checksum of a payload.
pub fn payload_checksum(p: &[u8]) -> (r: u32)
    requires
        p@.len() <= u32::MAX,
    ensures
        r as nat == checksum(p@),
{
    let mut sum: u64 = 0;
    let mut i: usize = 0;
    while i < p.len()
        invariant
            i <= p@.len(),
            p@.len() <= u32::MAX,
            sum as nat == byte_sum(p@.subrange(0, i as int)),
            sum <= 255 * i,
        decreases p@.len() - i,
    {
        assert(p@.subrange(0, i + 1).drop_last() =~= p@.subrange(0, i as int));
        sum = sum + p[i] as u64;
        i = i + 1;
    }
    assert(p@.subrange(0, i as int) =~= p@);
    (sum % 0x1_0000_0000) as u32
}

impl Message {
    /// Builds a message with its length, checksum and magic computed.
    pub fn new(command: u32, arg0: u32, arg1: u32, payload: Vec<u8>) -> (r: Message)
        requires
            payload@.len() <= u32::MAX,
        ensures
            r@.well_formed(),
            r.command == command,
            r.arg0 == arg0,
            r.arg1 == arg1,
            r.payload@ == payload@,
    {
        let data_checksum = payload_checksum(payload.as_slice());
        Message {
            command,
            arg0,
            arg1,
            data_length: payload.len() as u32,
            data_checksum,
            magic: command ^ 0xffff_ffff,
            payload,
        }
    }

    /// The message's bytes on the wire.
    pub fn encode(&self) -> (r: Vec<u8>)
        requires
            self.payload@.len() + HEADER_LEN <= usize::MAX,
        ensures
            r@ == self@.encoding(),
    {
        let mut out: Vec<u8> = Vec::new();
        append_bytes(&mut out, &write_le_u32(self.command));
        append_bytes(&mut out, &write_le_u32(self.arg0));
        append_bytes(&mut out, &write_le_u32(self.arg1));
        append_bytes(&mut out, &write_le_u32(self.data_length));
        append_bytes(&mut out, &write_le_u32(self.data_checksum));
        append_bytes(&mut out, &write_le_u32(self.magic));
        append_bytes(&mut out, self.payload.as_slice());
        out
    }

    /// Decodes a message from the start of `b` and returns it with the number
    /// of bytes it took. A short stream is an I/O error; a magic or checksum
    /// that does not match is a protocol violation.
    pub fn decode(b: &[u8]) -> (r: Result<(Message, usize), AdbError>)
        ensures
            match decode_outcome(b@) {
                Ok((m, n)) => r is Ok && r->Ok_0.0@ == m && r->Ok_0.1 == n,
                Err(e) => r == Err::<(Message, usize), AdbError>(e),
            },
    {
        if b.len() < HEADER_LEN {
            return Err(AdbError::IOError);
        }
        let command = read_le_u32(slice_subrange(b, 0, 4));
        let arg0 = read_le_u32(slice_subrange(b, 4, 8));
        let arg1 = read_le_u32(slice_subrange(b, 8, 12));
        let data_length = read_le_u32(slice_subrange(b, 12, 16));
        let data_checksum = read_le_u32(slice_subrange(b, 16, 20));
        let magic = read_le_u32(slice_subrange(b, 20, 24));
        if magic != command ^ 0xffff_ffff {
            return Err(AdbError::ProtocolViolation);
        }
        if b.len() - HEADER_LEN < data_length as usize {
            return Err(AdbError::IOError);
        }
        let end = HEADER_LEN + data_length as usize;
        let payload = slice_subrange(b, HEADER_LEN, end);
        proof {
            assert(payload@.len() <= u32::MAX);
        }
        if payload_checksum(payload) != data_checksum {
            return Err(AdbError::ProtocolViolation);
        }
        let m = Message {
            command,
            arg0,
            arg1,
            data_length,
            data_checksum,
            magic,
            payload: slice_to_vec(payload),
        };
        Ok((m, end))
    }
}

/// Decoding the encoding of a well-formed message gives the same message
/// back, having taken exactly its bytes; so a decoded message always has
/// `magic == command ^ 0xffffffff`.
pub proof fn lemma_decode_encode(m: MessageView)
    requires
        m.well_formed(),
    ensures
        decode_outcome(m.encoding()) == Ok::<(MessageView, nat), AdbError>(
            (m, 24 + m.payload.len()),
        ),
{
    let e = m.encoding();
    lemma_le_round_trip(m.command);
    lemma_le_round_trip(m.arg0);
    lemma_le_round_trip(m.arg1);
    lemma_le_round_trip(m.data_length);
    lemma_le_round_trip(m.data_checksum);
    lemma_le_round_trip(m.magic);
    assert(e.subrange(0, 4) =~= le_bytes(m.command));
    assert(e.subrange(4, 8) =~= le_bytes(m.arg0));
    assert(e.subrange(8, 12) =~= le_bytes(m.arg1));
    assert(e.subrange(12, 16) =~= le_bytes(m.data_length));
    assert(e.subrange(16, 20) =~= le_bytes(m.data_checksum));
    assert(e.subrange(20, 24) =~= le_bytes(m.magic));
    assert(e.subrange(24, 24 + m.payload.len() as int) =~= m.payload);
}

/// A message whose magic is not the complement of its command is refused,
/// whatever its other fields.
pub proof fn lemma_bad_magic_refused(m: MessageView)
    requires
        m.magic != m.command ^ 0xffff_ffff,
    ensures
        decode_outcome(m.encoding()) == Err::<(MessageView, nat), AdbError>(
            AdbError::ProtocolViolation,
        ),
{
    let e = m.encoding();
    lemma_le_round_trip(m.command);
    lemma_le_round_trip(m.magic);
    assert(e.subrange(0, 4) =~= le_bytes(m.command));
    assert(e.subrange(20, 24) =~= le_bytes(m.magic));
}

} // verus!
