use adb_client::error::AdbError;
use adb_client::sync::{
    encode_frame, parse_recv, parse_send_reply, parse_stat, send_frames, SyncCommand, SyncStat,
    MAX_CHUNK,
};

#[test]
fn stat_response_is_read() {
    let mut b = b"STAT".to_vec();
    b.extend_from_slice(&0o100644u32.to_le_bytes());
    b.extend_from_slice(&1234u32.to_le_bytes());
    b.extend_from_slice(&99u32.to_le_bytes());
    b.extend_from_slice(b"rest");
    assert_eq!(parse_stat(&b), Ok((SyncStat { mode: 0o100644, size: 1234, mtime: 99 }, 16)));
    assert_eq!(parse_stat(&b[..10]), Err(AdbError::IOError));
    assert_eq!(parse_stat(b"DENT0000000000000000"), Err(AdbError::ProtocolViolation));
    assert!(matches!(parse_stat(b"XXXX000000000000"), Err(AdbError::UnknownResponseType(_))));
}

#[test]
fn send_splits_into_capped_chunks() {
    let data: Vec<u8> = (0..(MAX_CHUNK + 10)).map(|i| (i % 7) as u8).collect();
    let out = send_frames(&data, 0x01020304);
    assert_eq!(out.len(), 8 + MAX_CHUNK + 8 + 10 + 8);
    assert_eq!(&out[..4], b"DATA");
    assert_eq!(&out[4..8], &(MAX_CHUNK as u32).to_le_bytes());
    let second = 8 + MAX_CHUNK;
    assert_eq!(&out[second..second + 8], b"DATA\x0a\x00\x00\x00");
    assert_eq!(&out[out.len() - 8..], b"DONE\x04\x03\x02\x01");
    assert_eq!(send_frames(&[], 7), b"DONE\x07\x00\x00\x00".to_vec());
}

#[test]
fn recv_reassembles_data_frames() {
    let mut b = encode_frame(SyncCommand::Data, b"hello ");
    b.extend(encode_frame(SyncCommand::Data, b"world"));
    b.extend_from_slice(b"DONE\x00\x00\x00\x00");
    let n = b.len();
    b.extend_from_slice(b"DATA");
    assert_eq!(parse_recv(&b), Ok((b"hello world".to_vec(), n)));
}

#[test]
fn recv_fail_frame_aborts_with_diagnostic() {
    let mut b = encode_frame(SyncCommand::Data, b"part");
    b.extend(encode_frame(SyncCommand::Fail, b"No such file"));
    assert_eq!(parse_recv(&b), Err(AdbError::RequestFailed("No such file".to_string())));
}

#[test]
fn recv_rejects_oversized_chunk() {
    let mut b = b"DATA".to_vec();
    b.extend_from_slice(&((MAX_CHUNK as u32) + 1).to_le_bytes());
    assert_eq!(parse_recv(&b), Err(AdbError::ProtocolViolation));
    assert_eq!(parse_recv(b"LIST\x00\x00\x00\x00"), Err(AdbError::ProtocolViolation));
}

#[test]
fn send_reply_okay_or_fail() {
    assert_eq!(parse_send_reply(b"OKAY\x00\x00\x00\x00"), Ok(8));
    let fail = encode_frame(SyncCommand::Fail, b"read-only");
    assert_eq!(parse_send_reply(&fail), Err(AdbError::RequestFailed("read-only".to_string())));
    assert_eq!(parse_send_reply(b"DONE\x00\x00\x00\x00"), Err(AdbError::ProtocolViolation));
    assert_eq!(parse_send_reply(b"OKAY"), Err(AdbError::IOError));
}
