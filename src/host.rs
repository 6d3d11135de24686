//! The host protocol spoken to a local ADB server: a request is its verb
//! prefixed by four hexadecimal digits of length; a response opens with a
//! four-byte status, and a failure carries a hex-length-prefixed diagnostic.

use vstd::prelude::*;
use vstd::slice::{slice_subrange, slice_to_vec};

use crate::error::AdbError;
use crate::wire::{
    append_bytes, decode_hex4, encode_hex4, hex4, le_u32, lemma_hex4_round_trip, parse_hex4,
    read_le_u32,
};

verus! {

/// The two status tokens that open a host-protocol response.
#[derive(Debug, Clone, Copy, PartialEq, Eq, Structural)]
pub enum AdbRequestStatus {
    Okay,
    Fail,
}

/// The largest verb that four hexadecimal digits can announce.
pub const MAX_REQUEST_LEN: usize = 0xffff;

/// `OKAY` in ASCII.
pub open spec fn okay_token() -> Seq<u8> {
    seq![79u8, 75u8, 65u8, 89u8]
}

/// `FAIL` in ASCII.
pub open spec fn fail_token() -> Seq<u8> {
    seq![70u8, 65u8, 73u8, 76u8]
}

/// The status that the first four bytes spell, if they spell one.
pub open spec fn status_of(b: Seq<u8>) -> Option<AdbRequestStatus> {
    if b.subrange(0, 4) == okay_token() {
        Some(AdbRequestStatus::Okay)
    } else if b.subrange(0, 4) == fail_token() {
        Some(AdbRequestStatus::Fail)
    } else {
        None
    }
}

/// The bytes of a host request for `verb`.
pub open spec fn request_bytes(verb: Seq<u8>) -> Seq<u8> {
    hex4(verb.len()) + verb
}

/// What the text of a valid UTF-8 byte sequence is; `None` where the bytes
/// are not valid UTF-8.
pub uninterp spec fn utf8_text(b: Seq<u8>) -> Option<Seq<char>>;

/// Relies on `String::from_utf8`: it succeeds exactly on valid UTF-8, and the
/// text then depends on the bytes alone.
#[verifier::external_body]
pub(crate) fn text_from_utf8(b: Vec<u8>) -> (r: Option<String>)
    ensures
        match utf8_text(b@) {
            Some(t) => r is Some && r->Some_0@ == t,
            None => r is None,
        },
{
    String::from_utf8(b).ok()
}

/// Encodes a host request: the verb's byte length as four lowercase
/// hexadecimal digits, then the verb. A verb too long for four digits is
/// refused.
pub fn encode_request(verb: &[u8]) -> (r: Result<Vec<u8>, AdbError>)
    ensures
        verb@.len() <= MAX_REQUEST_LEN ==> r is Ok && r->Ok_0@ == request_bytes(verb@),
        verb@.len() > MAX_REQUEST_LEN ==> r == Err::<Vec<u8>, AdbError>(AdbError::ConversionError),
{
    if verb.len() > MAX_REQUEST_LEN {
        return Err(AdbError::ConversionError);
    }
    let mut out = encode_hex4(verb.len() as u32);
    append_bytes(&mut out, verb);
    Ok(out)
}

/// The announced length of an encoded request reads back as the verb's
/// byte length.
pub proof fn lemma_request_length_round_trip(verb: Seq<u8>)
    requires
        verb.len() <= MAX_REQUEST_LEN,
    ensures
        request_bytes(verb).len() == 4 + verb.len(),
        parse_hex4(request_bytes(verb)) == Some(verb.len()),
        request_bytes(verb).subrange(4, request_bytes(verb).len() as int) == verb,
{
    lemma_hex4_round_trip(verb.len());
    let r = request_bytes(verb);
    assert(r[0] == hex4(verb.len())[0]);
    assert(r[1] == hex4(verb.len())[1]);
    assert(r[2] == hex4(verb.len())[2]);
    assert(r[3] == hex4(verb.len())[3]);
    assert(r.subrange(4, r.len() as int) =~= verb);
}

/// Reads the four-byte status that opens a response.
pub fn parse_status(b: &[u8]) -> (r: Result<AdbRequestStatus, AdbError>)
    requires
        b@.len() >= 4,
    ensures
        match status_of(b@) {
            Some(s) => r == Ok::<AdbRequestStatus, AdbError>(s),
            None => r is Err && r->Err_0 is UnknownResponseType
                && r->Err_0->UnknownResponseType_0@ == b@.subrange(0, 4),
        },
{
    proof {
        assert(b@.subrange(0, 4) == seq![b@[0], b@[1], b@[2], b@[3]]);
    }
    if b[0] == 79 && b[1] == 75 && b[2] == 65 && b[3] == 89 {
        Ok(AdbRequestStatus::Okay)
    } else if b[0] == 70 && b[1] == 65 && b[2] == 73 && b[3] == 76 {
        Ok(AdbRequestStatus::Fail)
    } else {
        Err(AdbError::UnknownResponseType(slice_to_vec(slice_subrange(b, 0, 4))))
    }
}

/// Decodes a four-byte length field: as four hexadecimal digits when
/// `hex_length`, else as a little-endian 32-bit integer.
pub open spec fn length_field(b: Seq<u8>, hex_length: bool) -> Option<nat> {
    if hex_length {
        parse_hex4(b)
    } else {
        Some(le_u32(b))
    }
}

/// What reading a length-prefixed body from the start of `b` gives: the
/// payload and the number of bytes taken, or why it failed.
pub open spec fn body_outcome(b: Seq<u8>, hex_length: bool) -> Result<(Seq<u8>, nat), AdbError> {
    if b.len() < 4 {
        Err(AdbError::IOError)
    } else {
        match length_field(b, hex_length) {
            None => Err(AdbError::ProtocolViolation),
            Some(n) => if b.len() < 4 + n {
                Err(AdbError::IOError)
            } else {
                Ok((b.subrange(4, 4 + n as int), 4 + n))
            },
        }
    }
}

/// Reads a length-prefixed body from the start of `b`: a four-byte length,
/// then exactly that many payload bytes. Returns the payload and how many
/// bytes were taken. A zero length is legal and takes no payload.
pub fn read_body(b: &[u8], hex_length: bool) -> (r: Result<(Vec<u8>, usize), AdbError>)
    ensures
        match body_outcome(b@, hex_length) {
            Ok((p, n)) => r is Ok && r->Ok_0.0@ == p && r->Ok_0.1 == n,
            Err(e) => r == Err::<(Vec<u8>, usize), AdbError>(e),
        },
{
    if b.len() < 4 {
        return Err(AdbError::IOError);
    }
    let n: u32 = if hex_length {
        match decode_hex4(b) {
            Some(v) => v,
            None => {
                return Err(AdbError::ProtocolViolation);
            },
        }
    } else {
        read_le_u32(b)
    };
    if b.len() - 4 < n as usize {
        return Err(AdbError::IOError);
    }
    let end = 4 + n as usize;
    let payload = slice_to_vec(slice_subrange(b, 4, end));
    Ok((payload, end))
}

/// What a host-protocol response at the start of `b` comes to: on `OKAY`,
/// the four status bytes taken; on `FAIL`, the failure with the server's
/// diagnostic, when it is complete and valid UTF-8.
pub open spec fn response_outcome(b: Seq<u8>) -> Result<nat, AdbError> {
    if b.len() < 4 {
        Err(AdbError::IOError)
    } else {
        match status_of(b) {
            None => Err(AdbError::UnknownResponseType(arbitrary())),
            Some(AdbRequestStatus::Okay) => Ok(4),
            Some(AdbRequestStatus::Fail) => match body_outcome(b.subrange(4, b.len() as int), true) {
                Err(e) => Err(e),
                Ok((p, _)) => match utf8_text(p) {
                    None => Err(AdbError::ConversionError),
                    Some(_) => Err(AdbError::RequestFailed(arbitrary())),
                },
            },
        }
    }
}

/// Turns the diagnostic body of a `FAIL` response into the error it
/// reports: the text when it is valid UTF-8, a conversion error otherwise.
pub fn failure_from_text(text: Option<String>) -> (r: AdbError)
    ensures
        match text {
            Some(s) => r is RequestFailed && r->RequestFailed_0@ == s@,
            None => r == AdbError::ConversionError,
        },
{
    match text {
        Some(s) => AdbError::RequestFailed(s),
        None => AdbError::ConversionError,
    }
}

/// Interprets a host-protocol response at the start of `b`. On `OKAY` it
/// returns the number of bytes taken (the status alone: a body, if the verb
/// has one, is read separately). On `FAIL` it reads the hex-length-prefixed
/// diagnostic and reports it.
pub fn parse_response(b: &[u8]) -> (r: Result<usize, AdbError>)
    ensures
        match response_outcome(b@) {
            Ok(n) => r == Ok::<usize, AdbError>(n as usize),
            Err(AdbError::UnknownResponseType(_)) => r is Err && r->Err_0 is UnknownResponseType
                && r->Err_0->UnknownResponseType_0@ == b@.subrange(0, 4),
            Err(AdbError::RequestFailed(_)) => r is Err && r->Err_0 is RequestFailed && utf8_text(
                b@.subrange(8, 8 + parse_hex4(b@.subrange(4, b@.len() as int))->Some_0 as int),
            ) == Some(r->Err_0->RequestFailed_0@),
            Err(e) => r == Err::<usize, AdbError>(e),
        },
{
    if b.len() < 4 {
        return Err(AdbError::IOError);
    }
    match parse_status(b) {
        Err(e) => Err(e),
        Ok(AdbRequestStatus::Okay) => Ok(4),
        Ok(AdbRequestStatus::Fail) => {
            let rest = slice_subrange(b, 4, b.len());
            match read_body(rest, true) {
                Err(e) => Err(e),
                Ok((payload, _)) => {
                    proof {
                        assert(rest@.subrange(4, 4 + payload@.len() as int) =~= b@.subrange(
                            8,
                            8 + payload@.len() as int,
                        ));
                    }
                    Err(failure_from_text(text_from_utf8(payload)))
                },
            }
        },
    }
}

} // verus!
