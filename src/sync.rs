//! The sync sub-protocol, spoken inside a host connection after `sync:`:
//! every frame is a four-byte ASCII tag, a little-endian 32-bit length, and
//! that many payload bytes.

use vstd::prelude::*;
use vstd::slice::{slice_subrange, slice_to_vec};

use crate::error::AdbError;
use crate::host::{failure_from_text, okay_token, text_from_utf8, utf8_text};
use crate::wire::{append_bytes, le_bytes, le_u32, read_le_u32, write_le_u32};

verus! {

/// The closed set of sync tags.
#[derive(Debug, Clone, Copy, PartialEq, Eq, Structural)]
pub enum SyncCommand {
    Stat,
    List,
    Dent,
    Send,
    Recv,
    Data,
    Done,
    Fail,
}

/// The four ASCII bytes of a tag.
pub open spec fn tag_bytes(c: SyncCommand) -> Seq<u8> {
    match c {
        SyncCommand::Stat => seq![83u8, 84u8, 65u8, 84u8],
        SyncCommand::List => seq![76u8, 73u8, 83u8, 84u8],
        SyncCommand::Dent => seq![68u8, 69u8, 78u8, 84u8],
        SyncCommand::Send => seq![83u8, 69u8, 78u8, 68u8],
        SyncCommand::Recv => seq![82u8, 69u8, 67u8, 86u8],
        SyncCommand::Data => seq![68u8, 65u8, 84u8, 65u8],
        SyncCommand::Done => seq![68u8, 79u8, 78u8, 69u8],
        SyncCommand::Fail => seq![70u8, 65u8, 73u8, 76u8],
    }
}

/// The tag that the first four bytes spell, if they spell one.
pub open spec fn tag_of(b: Seq<u8>) -> Option<SyncCommand> {
    let t = b.subrange(0, 4);
    if t == tag_bytes(SyncCommand::Stat) {
        Some(SyncCommand::Stat)
    } else if t == tag_bytes(SyncCommand::List) {
        Some(SyncCommand::List)
    } else if t == tag_bytes(SyncCommand::Dent) {
        Some(SyncCommand::Dent)
    } else if t == tag_bytes(SyncCommand::Send) {
        Some(SyncCommand::Send)
    } else if t == tag_bytes(SyncCommand::Recv) {
        Some(SyncCommand::Recv)
    } else if t == tag_bytes(SyncCommand::Data) {
        Some(SyncCommand::Data)
    } else if t == tag_bytes(SyncCommand::Done) {
        Some(SyncCommand::Done)
    } else if t == tag_bytes(SyncCommand::Fail) {
        Some(SyncCommand::Fail)
    } else {
        None
    }
}

/// The bytes of a sync frame.
pub open spec fn frame_bytes(c: SyncCommand, payload: Seq<u8>) -> Seq<u8> {
    tag_bytes(c) + le_bytes(payload.len() as u32) + payload
}

impl SyncCommand {
    /// The tag's four ASCII bytes.
    pub fn tag(&self) -> (r: Vec<u8>)
        ensures
            r@ == tag_bytes(*self),
    {
        let r = match self {
            SyncCommand::Stat => vec![83u8, 84u8, 65u8, 84u8],
            SyncCommand::List => vec![76u8, 73u8, 83u8, 84u8],
            SyncCommand::Dent => vec![68u8, 69u8, 78u8, 84u8],
            SyncCommand::Send => vec![83u8, 69u8, 78u8, 68u8],
            SyncCommand::Recv => vec![82u8, 69u8, 67u8, 86u8],
            SyncCommand::Data => vec![68u8, 65u8, 84u8, 65u8],
            SyncCommand::Done => vec![68u8, 79u8, 78u8, 69u8],
            SyncCommand::Fail => vec![70u8, 65u8, 73u8, 76u8],
        };
        assert(r@ =~= tag_bytes(*self));
        r
    }
}

/// Reads the tag at the start of `b`; bytes outside the tag set are an
/// unknown response, carried back as they came.
pub fn parse_tag(b: &[u8]) -> (r: Result<SyncCommand, AdbError>)
    requires
        b@.len() >= 4,
    ensures
        match tag_of(b@) {
            Some(c) => r == Ok::<SyncCommand, AdbError>(c),
            None => r is Err && r->Err_0 is UnknownResponseType
                && r->Err_0->UnknownResponseType_0@ == b@.subrange(0, 4),
        },
{
    let t = slice_subrange(b, 0, 4);
    assert(t@ == seq![t@[0], t@[1], t@[2], t@[3]]);
    let (a, c, d, e) = (t[0], t[1], t[2], t[3]);
    if a == 83 && c == 84 && d == 65 && e == 84 {
        Ok(SyncCommand::Stat)
    } else if a == 76 && c == 73 && d == 83 && e == 84 {
        Ok(SyncCommand::List)
    } else if a == 68 && c == 69 && d == 78 && e == 84 {
        Ok(SyncCommand::Dent)
    } else if a == 83 && c == 69 && d == 78 && e == 68 {
        Ok(SyncCommand::Send)
    } else if a == 82 && c == 69 && d == 67 && e == 86 {
        Ok(SyncCommand::Recv)
    } else if a == 68 && c == 65 && d == 84 && e == 65 {
        Ok(SyncCommand::Data)
    } else if a == 68 && c == 79 && d == 78 && e == 69 {
        Ok(SyncCommand::Done)
    } else if a == 70 && c == 65 && d == 73 && e == 76 {
        Ok(SyncCommand::Fail)
    } else {
        Err(AdbError::UnknownResponseType(slice_to_vec(t)))
    }
}

/// Encodes one sync frame: the tag, the payload length, the payload.
pub fn encode_frame(command: SyncCommand, payload: &[u8]) -> (r: Vec<u8>)
    requires
        payload@.len() <= u32::MAX,
        payload@.len() + 8 <= usize::MAX,
    ensures
        r@ == frame_bytes(command, payload@),
{
    let mut out = command.tag();
    append_bytes(&mut out, &write_le_u32(payload.len() as u32));
    append_bytes(&mut out, payload);
    out
}

/// One directory entry of a `LIST` response.
#[derive(Debug, Clone, PartialEq, Eq)]
pub struct SyncEntry {
    pub mode: u32,
    pub size: u32,
    pub mtime: u32,
    pub name: Vec<u8>,
}

/// A directory entry as a mathematical value.
pub struct SyncEntryView {
    pub mode: u32,
    pub size: u32,
    pub mtime: u32,
    pub name: Seq<u8>,
}

impl View for SyncEntry {
    type V = SyncEntryView;

    open spec fn view(&self) -> SyncEntryView {
        SyncEntryView { mode: self.mode, size: self.size, mtime: self.mtime, name: self.name@ }
    }
}

/// The views of a sequence of entries.
pub open spec fn entry_views(v: Seq<SyncEntry>) -> Seq<SyncEntryView> {
    v.map_values(|e: SyncEntry| e@)
}

/// The little-endian integer at offset `i` of `s`.
pub open spec fn le_at(s: Seq<u8>, i: int) -> u32 {
    le_u32(s.subrange(i, i + 4)) as u32
}

/// Size of a `DENT` payload before the name: mode, size, mtime.
pub const DENT_FIXED_LEN: u32 = 12;

/// The entry that a `DENT` frame at the start of `s`, with payload length
/// `n`, describes.
pub open spec fn dent_entry(s: Seq<u8>, n: nat) -> SyncEntryView {
    SyncEntryView {
        mode: le_at(s, 8),
        size: le_at(s, 12),
        mtime: le_at(s, 16),
        name: s.subrange(20, 8 + n as int),
    }
}

/// Puts `es` and `k` bytes taken in front of a later outcome.
pub open spec fn prepend(
    es: Seq<SyncEntryView>,
    k: nat,
    r: Result<(Seq<SyncEntryView>, nat), AdbError>,
) -> Result<(Seq<SyncEntryView>, nat), AdbError> {
    match r {
        Ok((rest, n)) => Ok((es + rest, k + n)),
        Err(e) => Err(e),
    }
}

/// What a `LIST` response stream at the start of `s` comes to: the entries
/// of its `DENT` frames up to the first `DONE` frame, and the number of bytes
/// up to the end of that `DONE` frame; nothing after it is looked at. A `DONE`
/// frame's length field is ignored. Any other tag ends the stream in error.
pub open spec fn list_outcome(s: Seq<u8>) -> Result<(Seq<SyncEntryView>, nat), AdbError>
    decreases s.len(),
{
    if s.len() < 8 {
        Err(AdbError::IOError)
    } else {
        match tag_of(s) {
            None => Err(AdbError::UnknownResponseType(arbitrary())),
            Some(SyncCommand::Done) => Ok((Seq::empty(), 8)),
            Some(SyncCommand::Dent) => {
                let n = le_at(s, 4) as nat;
                if s.len() < 8 + n {
                    Err(AdbError::IOError)
                } else if n < DENT_FIXED_LEN {
                    Err(AdbError::ProtocolViolation)
                } else {
                    prepend(
                        seq![dent_entry(s, n)],
                        8 + n,
                        list_outcome(s.subrange(8 + n as int, s.len() as int)),
                    )
                }
            },
            Some(_) => Err(AdbError::ProtocolViolation),
        }
    }
}

proof fn lemma_prepend_assoc(
    es: Seq<SyncEntryView>,
    k: nat,
    e: SyncEntryView,
    m: nat,
    r: Result<(Seq<SyncEntryView>, nat), AdbError>,
)
    ensures
        prepend(es, k, prepend(seq![e], m, r)) == prepend(es.push(e), k + m, r),
{
    match r {
        Ok((rest, n)) => {
            assert(es + (seq![e] + rest) =~= es.push(e) + rest);
        },
        Err(_) => {},
    }
}

/// A `LIST` stream is read no further than the end of its `DONE` frame:
/// the bytes taken are all there are to read, and whatever follows them
/// leaves the outcome unchanged.
pub proof fn lemma_list_ignores_trailing(s: Seq<u8>, extra: Seq<u8>)
    requires
        list_outcome(s) is Ok,
    ensures
        8 <= list_outcome(s)->Ok_0.1 <= s.len(),
        list_outcome(s.subrange(0, list_outcome(s)->Ok_0.1 as int) + extra) == list_outcome(s),
    decreases s.len(),
{
    let n = list_outcome(s)->Ok_0.1;
    let t = s.subrange(0, n as int) + extra;
    match tag_of(s) {
        Some(SyncCommand::Dent) => {
            let m = le_at(s, 4) as nat;
            let rest = s.subrange(8 + m as int, s.len() as int);
            lemma_list_ignores_trailing(rest, extra);
            let k = list_outcome(rest)->Ok_0.1;
            assert(n == 8 + m + k);
            assert(t.subrange(0, 4) =~= s.subrange(0, 4));
            assert(t.subrange(4, 8) =~= s.subrange(4, 8));
            assert(t.subrange(8, 12) =~= s.subrange(8, 12));
            assert(t.subrange(12, 16) =~= s.subrange(12, 16));
            assert(t.subrange(16, 20) =~= s.subrange(16, 20));
            assert(t.subrange(20, 8 + m as int) =~= s.subrange(20, 8 + m as int));
            assert(dent_entry(t, m) == dent_entry(s, m));
            assert(t.subrange(8 + m as int, t.len() as int) =~= rest.subrange(0, k as int) + extra);
        },
        _ => {
            assert(t.subrange(0, 4) =~= s.subrange(0, 4));
        },
    }
}

/// Reads a `LIST` response stream from the start of `b`: the entries of its
/// `DENT` frames, and the number of bytes taken, which ends with the `DONE`
/// frame.
pub fn parse_list(b: &[u8]) -> (r: Result<(Vec<SyncEntry>, usize), AdbError>)
    ensures
        match list_outcome(b@) {
            Ok((es, n)) => r is Ok && entry_views(r->Ok_0.0@) == es && r->Ok_0.1 == n,
            Err(AdbError::UnknownResponseType(_)) => r is Err && r->Err_0 is UnknownResponseType,
            Err(e) => r == Err::<(Vec<SyncEntry>, usize), AdbError>(e),
        },
{
    let mut entries: Vec<SyncEntry> = Vec::new();
    let mut pos: usize = 0;
    assert(b@.subrange(0, b@.len() as int) =~= b@);
    assert(entry_views(entries@) =~= Seq::<SyncEntryView>::empty());
    loop
        invariant
            pos <= b@.len(),
            list_outcome(b@) == prepend(
                entry_views(entries@),
                pos as nat,
                list_outcome(b@.subrange(pos as int, b@.len() as int)),
            ),
        decreases b@.len() - pos,
    {
        let ghost s = b@.subrange(pos as int, b@.len() as int);
        if b.len() - pos < 8 {
            return Err(AdbError::IOError);
        }
        let frame = slice_subrange(b, pos, b.len());
        assert(frame@ == s);
        let tag = match parse_tag(frame) {
            Ok(t) => t,
            Err(e) => {
                return Err(e);
            },
        };
        assert(frame@.subrange(4, 8) =~= s.subrange(4, 8));
        let n = read_le_u32(slice_subrange(frame, 4, 8));
        match tag {
            SyncCommand::Done => {
                assert(entry_views(entries@) + Seq::<SyncEntryView>::empty() =~= entry_views(
                    entries@,
                ));
                return Ok((entries, pos + 8));
            },
            SyncCommand::Dent => {
                if frame.len() - 8 < n as usize {
                    return Err(AdbError::IOError);
                }
                if n < DENT_FIXED_LEN {
                    return Err(AdbError::ProtocolViolation);
                }
                let end = 8 + n as usize;
                assert(frame@.subrange(8, 12) =~= s.subrange(8, 12));
                assert(frame@.subrange(12, 16) =~= s.subrange(12, 16));
                assert(frame@.subrange(16, 20) =~= s.subrange(16, 20));
                let mode = read_le_u32(slice_subrange(frame, 8, 12));
                let size = read_le_u32(slice_subrange(frame, 12, 16));
                let mtime = read_le_u32(slice_subrange(frame, 16, 20));
                let name = slice_to_vec(slice_subrange(frame, 20, end));
                let entry = SyncEntry { mode, size, mtime, name };
                assert(entry@ == dent_entry(s, n as nat));
                proof {
                    lemma_prepend_assoc(
                        entry_views(entries@),
                        pos as nat,
                        entry@,
                        end as nat,
                        list_outcome(s.subrange(end as int, s.len() as int)),
                    );
                    assert(s.subrange(end as int, s.len() as int) =~= b@.subrange(
                        pos + end,
                        b@.len() as int,
                    ));
                }
                let ghost prev = entries@;
                let ghost ev = entry@;
                entries.push(entry);
                assert(entry_views(entries@) =~= entry_views(prev).push(ev));
                pos = pos + end;
            },
            _ => {
                return Err(AdbError::ProtocolViolation);
            },
        }
    }
}

/// The metadata that a `STAT` response carries.
#[derive(Debug, Clone, Copy, PartialEq, Eq, Structural)]
pub struct SyncStat {
    pub mode: u32,
    pub size: u32,
    pub mtime: u32,
}

/// What a `STAT` response at the start of `s` comes to: the tag, then mode,
/// size and modification time, sixteen bytes in all.
pub open spec fn stat_outcome(s: Seq<u8>) -> Result<(SyncStat, nat), AdbError> {
    if s.len() < 4 {
        Err(AdbError::IOError)
    } else {
        match tag_of(s) {
            None => Err(AdbError::UnknownResponseType(arbitrary())),
            Some(SyncCommand::Stat) => if s.len() < 16 {
                Err(AdbError::IOError)
            } else {
                Ok((SyncStat { mode: le_at(s, 4), size: le_at(s, 8), mtime: le_at(s, 12) }, 16))
            },
            Some(_) => Err(AdbError::ProtocolViolation),
        }
    }
}

/// Reads the response to a `STAT` request; any tag but `STAT` is refused.
pub fn parse_stat(b: &[u8]) -> (r: Result<(SyncStat, usize), AdbError>)
    ensures
        match stat_outcome(b@) {
            Ok((st, n)) => r == Ok::<(SyncStat, usize), AdbError>((st, n as usize)),
            Err(AdbError::UnknownResponseType(_)) => r is Err && r->Err_0 is UnknownResponseType,
            Err(e) => r == Err::<(SyncStat, usize), AdbError>(e),
        },
{
    if b.len() < 4 {
        return Err(AdbError::IOError);
    }
    match parse_tag(b) {
        Ok(SyncCommand::Stat) => {},
        Ok(_) => {
            return Err(AdbError::ProtocolViolation);
        },
        Err(e) => {
            return Err(e);
        },
    }
    if b.len() < 16 {
        return Err(AdbError::IOError);
    }
    let mode = read_le_u32(slice_subrange(b, 4, 8));
    let size = read_le_u32(slice_subrange(b, 8, 12));
    let mtime = read_le_u32(slice_subrange(b, 12, 16));
    Ok((SyncStat { mode, size, mtime }, 16))
}

/// The largest payload of one `DATA` frame.
pub const MAX_CHUNK: usize = 65536;

/// `d` as `DATA` frames of at most `MAX_CHUNK` bytes each, in order.
pub open spec fn data_frames(d: Seq<u8>) -> Seq<u8>
    decreases d.len(),
{
    if d.len() == 0 {
        Seq::empty()
    } else if d.len() <= MAX_CHUNK {
        frame_bytes(SyncCommand::Data, d)
    } else {
        frame_bytes(SyncCommand::Data, d.subrange(0, MAX_CHUNK as int)) + data_frames(
            d.subrange(MAX_CHUNK as int, d.len() as int),
        )
    }
}

/// The body of a `SEND` transfer: `data` in `DATA` frames, then a `DONE`
/// frame whose length field carries the modification time.
pub open spec fn send_body(d: Seq<u8>, mtime: u32) -> Seq<u8> {
    data_frames(d) + tag_bytes(SyncCommand::Done) + le_bytes(mtime)
}

/// Encodes the body of a `SEND` transfer: the data in chunks of at most
/// `MAX_CHUNK` bytes, each in its own `DATA` frame, then `DONE` with the
/// modification time.
pub fn send_frames(data: &[u8], mtime: u32) -> (r: Vec<u8>)
    requires
        9 * data@.len() + 8 <= usize::MAX,
    ensures
        r@ == send_body(data@, mtime),
{
    let mut out: Vec<u8> = Vec::new();
    let mut pos: usize = 0;
    assert(data@.subrange(0, data@.len() as int) =~= data@);
    while pos < data.len()
        invariant
            pos <= data@.len(),
            9 * data@.len() + 8 <= usize::MAX,
            data_frames(data@) == out@ + data_frames(data@.subrange(pos as int, data@.len() as int)),
            out@.len() <= 9 * pos,
        decreases data@.len() - pos,
    {
        let ghost rest = data@.subrange(pos as int, data@.len() as int);
        let end: usize = if data.len() - pos > MAX_CHUNK {
            pos + MAX_CHUNK
        } else {
            data.len()
        };
        let chunk = slice_subrange(data, pos, end);
        let frame = encode_frame(SyncCommand::Data, chunk);
        let ghost prev = out@;
        append_bytes(&mut out, frame.as_slice());
        proof {
            if rest.len() > MAX_CHUNK {
                assert(rest.subrange(0, MAX_CHUNK as int) =~= chunk@);
                assert(rest.subrange(MAX_CHUNK as int, rest.len() as int) =~= data@.subrange(
                    end as int,
                    data@.len() as int,
                ));
            } else {
                assert(rest =~= chunk@);
                assert(data@.subrange(end as int, data@.len() as int) =~= Seq::<u8>::empty());
            }
            assert(prev + frame@ + data_frames(data@.subrange(end as int, data@.len() as int))
                =~= prev + (frame@ + data_frames(data@.subrange(end as int, data@.len() as int))));
        }
        pos = end;
    }
    append_bytes(&mut out, &SyncCommand::Done.tag());
    append_bytes(&mut out, &write_le_u32(mtime));
    assert(out@ =~= send_body(data@, mtime));
    out
}

/// Puts `d` and `k` bytes taken in front of a later outcome.
pub open spec fn prepend_data(d: Seq<u8>, k: nat, r: Result<(Seq<u8>, nat), AdbError>) -> Result<
    (Seq<u8>, nat),
    AdbError,
> {
    match r {
        Ok((rest, n)) => Ok((d + rest, k + n)),
        Err(e) => Err(e),
    }
}

/// What the response stream of a `RECV` at the start of `s` comes to: the
/// payloads of its `DATA` frames, in order, up to the first `DONE` frame,
/// and the number of bytes up to the end of that frame. A `FAIL` frame
/// aborts with the peer's diagnostic; a `DATA` frame over `MAX_CHUNK` bytes,
/// or any other tag, is a protocol violation.
pub open spec fn recv_outcome(s: Seq<u8>) -> Result<(Seq<u8>, nat), AdbError>
    decreases s.len(),
{
    if s.len() < 8 {
        Err(AdbError::IOError)
    } else {
        let n = le_at(s, 4) as nat;
        match tag_of(s) {
            None => Err(AdbError::UnknownResponseType(arbitrary())),
            Some(SyncCommand::Done) => Ok((Seq::empty(), 8)),
            Some(SyncCommand::Data) => if n > MAX_CHUNK {
                Err(AdbError::ProtocolViolation)
            } else if s.len() < 8 + n {
                Err(AdbError::IOError)
            } else {
                prepend_data(
                    s.subrange(8, 8 + n as int),
                    8 + n,
                    recv_outcome(s.subrange(8 + n as int, s.len() as int)),
                )
            },
            Some(SyncCommand::Fail) => if s.len() < 8 + n {
                Err(AdbError::IOError)
            } else {
                match utf8_text(s.subrange(8, 8 + n as int)) {
                    None => Err(AdbError::ConversionError),
                    Some(_) => Err(AdbError::RequestFailed(arbitrary())),
                }
            },
            Some(_) => Err(AdbError::ProtocolViolation),
        }
    }
}

/// Reads the response stream of a `RECV`: the file's bytes and the number
/// of bytes taken, which ends with the `DONE` frame.
pub fn parse_recv(b: &[u8]) -> (r: Result<(Vec<u8>, usize), AdbError>)
    ensures
        match recv_outcome(b@) {
            Ok((d, n)) => r is Ok && r->Ok_0.0@ == d && r->Ok_0.1 == n,
            Err(AdbError::UnknownResponseType(_)) => r is Err && r->Err_0 is UnknownResponseType,
            Err(AdbError::RequestFailed(_)) => r is Err && r->Err_0 is RequestFailed,
            Err(e) => r == Err::<(Vec<u8>, usize), AdbError>(e),
        },
{
    let mut data: Vec<u8> = Vec::new();
    let mut pos: usize = 0;
    assert(b@.subrange(0, b@.len() as int) =~= b@);
    loop
        invariant
            pos <= b@.len(),
            data@.len() <= pos,
            recv_outcome(b@) == prepend_data(
                data@,
                pos as nat,
                recv_outcome(b@.subrange(pos as int, b@.len() as int)),
            ),
        decreases b@.len() - pos,
    {
        let ghost s = b@.subrange(pos as int, b@.len() as int);
        if b.len() - pos < 8 {
            return Err(AdbError::IOError);
        }
        let frame = slice_subrange(b, pos, b.len());
        assert(frame@ == s);
        let tag = match parse_tag(frame) {
            Ok(t) => t,
            Err(e) => {
                return Err(e);
            },
        };
        assert(frame@.subrange(4, 8) =~= s.subrange(4, 8));
        let n = read_le_u32(slice_subrange(frame, 4, 8));
        match tag {
            SyncCommand::Done => {
                assert(data@ + Seq::<u8>::empty() =~= data@);
                return Ok((data, pos + 8));
            },
            SyncCommand::Data => {
                if n as usize > MAX_CHUNK {
                    return Err(AdbError::ProtocolViolation);
                }
                if frame.len() - 8 < n as usize {
                    return Err(AdbError::IOError);
                }
                let end = 8 + n as usize;
                let chunk = slice_subrange(frame, 8, end);
                let ghost prev = data@;
                append_bytes(&mut data, chunk);
                proof {
                    let later = recv_outcome(s.subrange(end as int, s.len() as int));
                    assert(s.subrange(end as int, s.len() as int) =~= b@.subrange(
                        pos + end,
                        b@.len() as int,
                    ));
                    match later {
                        Ok((rest, k)) => {
                            assert(prev + (chunk@ + rest) =~= data@ + rest);
                        },
                        Err(_) => {},
                    }
                }
                pos = pos + end;
            },
            SyncCommand::Fail => {
                if frame.len() - 8 < n as usize {
                    return Err(AdbError::IOError);
                }
                let text = text_from_utf8(slice_to_vec(slice_subrange(frame, 8, 8 + n as usize)));
                return Err(failure_from_text(text));
            },
            _ => {
                return Err(AdbError::ProtocolViolation);
            },
        }
    }
}

/// What the reply to a `SEND` transfer at the start of `s` comes to: an
/// `OKAY` frame (its length field ignored) accepts it; a `FAIL` frame refuses
/// it with the peer's diagnostic.
pub open spec fn send_reply_outcome(s: Seq<u8>) -> Result<nat, AdbError> {
    if s.len() < 8 {
        Err(AdbError::IOError)
    } else if s.subrange(0, 4) == okay_token() {
        Ok(8)
    } else {
        let n = le_at(s, 4) as nat;
        match tag_of(s) {
            None => Err(AdbError::UnknownResponseType(arbitrary())),
            Some(SyncCommand::Fail) => if s.len() < 8 + n {
                Err(AdbError::IOError)
            } else {
                match utf8_text(s.subrange(8, 8 + n as int)) {
                    None => Err(AdbError::ConversionError),
                    Some(_) => Err(AdbError::RequestFailed(arbitrary())),
                }
            },
            Some(_) => Err(AdbError::ProtocolViolation),
        }
    }
}

/// Reads the reply to a `SEND` transfer and returns the bytes it took.
pub fn parse_send_reply(b: &[u8]) -> (r: Result<usize, AdbError>)
    ensures
        match send_reply_outcome(b@) {
            Ok(n) => r == Ok::<usize, AdbError>(n as usize),
            Err(AdbError::UnknownResponseType(_)) => r is Err && r->Err_0 is UnknownResponseType,
            Err(AdbError::RequestFailed(_)) => r is Err && r->Err_0 is RequestFailed && utf8_text(
                b@.subrange(8, 8 + le_at(b@, 4) as int),
            ) == Some(r->Err_0->RequestFailed_0@),
            Err(e) => r == Err::<usize, AdbError>(e),
        },
{
    if b.len() < 8 {
        return Err(AdbError::IOError);
    }
    assert(b@.subrange(0, 4) == seq![b@[0], b@[1], b@[2], b@[3]]);
    if b[0] == 79 && b[1] == 75 && b[2] == 65 && b[3] == 89 {
        return Ok(8);
    }
    let tag = match parse_tag(b) {
        Ok(t) => t,
        Err(e) => {
            return Err(e);
        },
    };
    let n = read_le_u32(slice_subrange(b, 4, 8));
    match tag {
        SyncCommand::Fail => {
            if b.len() - 8 < n as usize {
                return Err(AdbError::IOError);
            }
            let text = text_from_utf8(slice_to_vec(slice_subrange(b, 8, 8 + n as usize)));
            Err(failure_from_text(text))
        },
        _ => Err(AdbError::ProtocolViolation),
    }
}

} // verus!
