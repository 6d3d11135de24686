use adb_client::connection::AdbTcpConnection;
use adb_client::device::{ADBMessageDevice, ADBServerDevice};
use adb_client::error::AdbError;
use adb_client::host::{encode_request, parse_response, parse_status, read_body, AdbRequestStatus};
use adb_client::list_command::{PackageDetails, PackageListType, UserFilter};
use adb_client::message::{payload_checksum, Message, A_CLSE, A_OKAY, A_OPEN, A_WRTE};
use adb_client::session::{MessageWriter, Multiplexer, SessionState, MAX_PAYLOAD};
use adb_client::sync::{encode_frame, parse_list, parse_tag, SyncCommand};
use adb_client::wire::decode_hex4;

fn dent(mode: u32, size: u32, mtime: u32, name: &[u8]) -> Vec<u8> {
    let mut payload = Vec::new();
    payload.extend_from_slice(&mode.to_le_bytes());
    payload.extend_from_slice(&size.to_le_bytes());
    payload.extend_from_slice(&mtime.to_le_bytes());
    payload.extend_from_slice(name);
    encode_frame(SyncCommand::Dent, &payload)
}

#[test]
fn request_length_prefix_reads_back() {
    for verb in [&b"host:version"[..], b"sync:", b"", b"host:transport-any"] {
        let req = encode_request(verb).unwrap();
        assert_eq!(decode_hex4(&req), Some(verb.len() as u32));
        assert_eq!(&req[4..], verb);
    }
    assert_eq!(encode_request(b"host:version").unwrap(), b"000chost:version".to_vec());
}

#[test]
fn request_too_long_is_refused() {
    let verb = vec![b'a'; 0x10000];
    assert_eq!(encode_request(&verb), Err(AdbError::ConversionError));
    let verb = vec![b'a'; 0xffff];
    assert_eq!(&encode_request(&verb).unwrap()[..4], b"ffff");
}

#[test]
fn hex_length_accepts_both_cases_and_rejects_others() {
    assert_eq!(decode_hex4(b"00fF"), Some(255));
    assert_eq!(decode_hex4(b"+fff"), None);
    assert_eq!(decode_hex4(b"00g0"), None);
}

#[test]
fn message_round_trip() {
    let m = Message::new(A_WRTE, 7, 9, b"hello".to_vec());
    assert_eq!(m.magic, !A_WRTE);
    assert_eq!(m.data_length, 5);
    assert_eq!(m.data_checksum, 532);
    let bytes = m.encode();
    assert_eq!(bytes.len(), 29);
    assert_eq!(&bytes[..4], &A_WRTE.to_le_bytes());
    let (back, taken) = Message::decode(&bytes).unwrap();
    assert_eq!(back, m);
    assert_eq!(taken, 29);
    assert_eq!(back.magic, !back.command);
}

#[test]
fn message_with_bad_magic_is_rejected() {
    let mut m = Message::new(A_OKAY, 1, 2, Vec::new());
    m.magic = 0;
    assert_eq!(Message::decode(&m.encode()), Err(AdbError::ProtocolViolation));
}

#[test]
fn message_with_bad_checksum_is_rejected() {
    let mut m = Message::new(A_WRTE, 1, 2, b"abc".to_vec());
    m.data_checksum += 1;
    assert_eq!(Message::decode(&m.encode()), Err(AdbError::ProtocolViolation));
}

#[test]
fn truncated_message_is_an_io_error() {
    let bytes = Message::new(A_WRTE, 1, 2, b"abc".to_vec()).encode();
    assert_eq!(Message::decode(&bytes[..10]), Err(AdbError::IOError));
    assert_eq!(Message::decode(&bytes[..26]), Err(AdbError::IOError));
}

#[test]
fn checksum_wraps_nothing_for_small_payloads() {
    assert_eq!(payload_checksum(&[255, 255, 1]), 511);
    assert_eq!(payload_checksum(&[]), 0);
}

#[test]
fn fail_response_carries_diagnostic() {
    let r = parse_response(b"FAIL0005nope!");
    assert_eq!(r, Err(AdbError::RequestFailed("nope!".to_string())));
}

#[test]
fn fail_response_with_invalid_utf8_is_a_conversion_error() {
    let r = parse_response(b"FAIL0002\xff\xfe");
    assert_eq!(r, Err(AdbError::ConversionError));
}

#[test]
fn okay_response_takes_only_the_status() {
    assert_eq!(parse_response(b"OKAY0004abcd"), Ok(4));
    assert_eq!(parse_status(b"OKAY"), Ok(AdbRequestStatus::Okay));
    assert_eq!(parse_status(b"FAIL"), Ok(AdbRequestStatus::Fail));
}

#[test]
fn unknown_status_is_reported() {
    assert_eq!(
        parse_response(b"WHAT"),
        Err(AdbError::UnknownResponseType(b"WHAT".to_vec()))
    );
    assert_eq!(parse_response(b"OK"), Err(AdbError::IOError));
    assert_eq!(parse_response(b"FAIL00"), Err(AdbError::IOError));
    assert_eq!(parse_response(b"FAILzzzz"), Err(AdbError::ProtocolViolation));
    assert_eq!(parse_response(b"FAIL0005nop"), Err(AdbError::IOError));
}

#[test]
fn body_read_hex_and_little_endian() {
    assert_eq!(read_body(b"0003abcXYZ", true), Ok((b"abc".to_vec(), 7)));
    assert_eq!(read_body(b"\x03\x00\x00\x00abc", false), Ok((b"abc".to_vec(), 7)));
    assert_eq!(read_body(b"0000", true), Ok((Vec::new(), 4)));
    assert_eq!(read_body(b"0004ab", true), Err(AdbError::IOError));
}

#[test]
fn list_stops_at_done() {
    let mut stream = dent(0o100644, 10, 1000, b"a.txt");
    stream.extend(dent(0o40755, 0, 2000, b"dir"));
    stream.extend_from_slice(b"DONE\x00\x00\x00\x00");
    let consumed_len = stream.len();
    stream.extend_from_slice(b"garbage that must not be read");
    let (entries, taken) = parse_list(&stream).unwrap();
    assert_eq!(entries.len(), 2);
    assert_eq!(taken, consumed_len);
    assert_eq!(entries[0].mode, 0o100644);
    assert_eq!(entries[0].size, 10);
    assert_eq!(entries[0].mtime, 1000);
    assert_eq!(entries[0].name, b"a.txt".to_vec());
    assert_eq!(entries[1].name, b"dir".to_vec());
}

#[test]
fn list_rejects_unexpected_tags() {
    let stream = encode_frame(SyncCommand::Data, b"xx");
    assert_eq!(parse_list(&stream), Err(AdbError::ProtocolViolation));
    assert!(matches!(
        parse_list(b"ABCD\x00\x00\x00\x00"),
        Err(AdbError::UnknownResponseType(_))
    ));
    assert_eq!(parse_list(b"DENT\x02\x00\x00\x00ab"), Err(AdbError::ProtocolViolation));
    assert_eq!(parse_list(b"DENT\x20\x00\x00\x00"), Err(AdbError::IOError));
}

#[test]
fn sync_tags_round_trip() {
    for c in [
        SyncCommand::Stat,
        SyncCommand::List,
        SyncCommand::Dent,
        SyncCommand::Send,
        SyncCommand::Recv,
        SyncCommand::Data,
        SyncCommand::Done,
        SyncCommand::Fail,
    ] {
        assert_eq!(parse_tag(&c.tag()), Ok(c));
    }
    assert_eq!(encode_frame(SyncCommand::List, b"ab"), b"LIST\x02\x00\x00\x00ab".to_vec());
}

#[test]
fn refused_open_closes_session() {
    let mut mux = Multiplexer::new();
    let (id, open) = mux.open_session(b"shell:\0").unwrap();
    assert_eq!(id, 1);
    assert_eq!(open.command, A_OPEN);
    assert_eq!(open.payload, b"shell:\0".to_vec());
    let clse = Message::new(A_CLSE, 0, id, Vec::new());
    assert_eq!(mux.handle_open_reply(id, &clse), Err(AdbError::PeerClosed));
    assert_eq!(mux.session(id).unwrap().state, SessionState::Closed);
    assert_eq!(mux.write(id, b"data"), Err(AdbError::PeerClosed));
}

#[test]
fn accepted_open_binds_remote_id() {
    let mut mux = Multiplexer::new();
    let (a, _) = mux.open_session(b"shell:\0").unwrap();
    let (b, _) = mux.open_session(b"sync:\0").unwrap();
    assert_ne!(a, b);
    assert_eq!(mux.write(a, b"x"), Err(AdbError::NotConnected));
    let okay = Message::new(A_OKAY, 42, a, Vec::new());
    assert_eq!(mux.handle_open_reply(a, &okay), Ok(()));
    let s = mux.session(a).unwrap();
    assert_eq!(s.state, SessionState::Open);
    assert_eq!(s.remote_id, 42);
    let msgs = mux.write(a, b"x").unwrap();
    assert_eq!(msgs.len(), 1);
    assert_eq!((msgs[0].arg0, msgs[0].arg1), (a, 42));
    let close = mux.close_session(a).unwrap();
    assert_eq!((close.command, close.arg0, close.arg1), (A_CLSE, a, 42));
    assert_eq!(mux.session(a).unwrap().state, SessionState::Closed);
    assert_eq!(mux.close_session(a), Err(AdbError::PeerClosed));
    assert_eq!(mux.close_session(99), Err(AdbError::NotConnected));
}

#[test]
fn large_write_is_split_and_reassembles() {
    let data: Vec<u8> = (0..10000u32).map(|i| (i % 251) as u8).collect();
    let writer = MessageWriter::new(3, 8);
    let msgs = writer.write_messages(&data);
    assert_eq!(msgs.len(), 3);
    assert_eq!(msgs[0].payload.len(), MAX_PAYLOAD);
    assert_eq!(msgs[1].payload.len(), MAX_PAYLOAD);
    assert_eq!(msgs[2].payload.len(), 10000 - 2 * MAX_PAYLOAD);
    let mut back = Vec::new();
    for m in &msgs {
        assert_eq!(m.command, A_WRTE);
        assert_eq!(m.magic, !A_WRTE);
        let ack = Message::new(A_OKAY, 8, 3, Vec::new());
        assert_eq!(writer.handle_ack(&ack), Ok(()));
        back.extend_from_slice(&m.payload);
    }
    assert_eq!(back, data);
    assert!(writer.write_messages(&[]).is_empty());
}

#[test]
fn close_while_awaiting_ack_fails_write() {
    let mut mux = Multiplexer::new();
    let (id, _) = mux.open_session(b"shell:\0").unwrap();
    mux.handle_open_reply(id, &Message::new(A_OKAY, 5, id, Vec::new())).unwrap();
    let clse = Message::new(A_CLSE, 5, id, Vec::new());
    assert_eq!(mux.handle_write_reply(id, &clse), Err(AdbError::PeerClosed));
    assert_eq!(mux.session(id).unwrap().state, SessionState::Closed);
    assert_eq!(mux.write(id, b"more"), Err(AdbError::PeerClosed));
    let writer = MessageWriter::new(1, 5);
    assert_eq!(
        writer.handle_ack(&Message::new(A_WRTE, 5, 1, Vec::new())),
        Err(AdbError::ProtocolViolation)
    );
}

#[test]
fn receive_delivers_and_acknowledges() {
    let mut mux = Multiplexer::new();
    let (id, _) = mux.open_session(b"shell:\0").unwrap();
    mux.handle_open_reply(id, &Message::new(A_OKAY, 5, id, Vec::new())).unwrap();
    let (payload, ack) = mux
        .receive(id, &Message::new(A_WRTE, 5, id, b"out".to_vec()))
        .unwrap()
        .unwrap();
    assert_eq!(payload, b"out".to_vec());
    assert_eq!((ack.command, ack.arg0, ack.arg1), (A_OKAY, id, 5));
    assert_eq!(mux.receive(id, &Message::new(A_CLSE, 5, id, Vec::new())), Ok(None));
    assert_eq!(mux.session(id).unwrap().state, SessionState::Closed);
}

#[test]
fn reconnect_supersedes_previous_socket() {
    let mut c = AdbTcpConnection::default();
    assert_eq!(c.address, [127, 0, 0, 1]);
    assert_eq!(c.port, 5037);
    assert_eq!(c.get_connection(), Err(AdbError::NotConnected));
    assert_eq!(c.send_adb_request(b"host:version"), Err(AdbError::NotConnected));
    assert_eq!(c.new_connection(1), None);
    assert_eq!(c.new_connection(2), Some(1));
    assert_eq!(c.get_connection(), Ok(2));
}

#[test]
fn connection_steps() {
    let mut c = AdbTcpConnection::new([10, 0, 0, 2], 5555);
    c.new_connection(7);
    assert_eq!(c.send_adb_request(b"sync:").unwrap(), b"0005sync:".to_vec());
    assert_eq!(c.send_sync_request(SyncCommand::Stat).unwrap(), b"STAT".to_vec());
    assert_eq!(c.proxy_connection(b"OKAY0003abc", true), Ok((b"abc".to_vec(), 11)));
    assert_eq!(c.proxy_connection(b"OKAY", false), Ok((Vec::new(), 4)));
    assert_eq!(
        c.proxy_connection(b"FAIL0003bad", true),
        Err(AdbError::RequestFailed("bad".to_string()))
    );
    assert_eq!(c.get_hex_body_length(b"001a"), Ok(26));
    assert_eq!(c.get_hex_body_length(b"01"), Err(AdbError::IOError));
    assert_eq!(c.get_body_length(&[0x40, 0x42, 0x0f, 0x00]), Ok(1_000_000));
}

#[test]
fn package_commands_render_every_part() {
    let t = PackageListType::System(PackageDetails::ShowVersionCode, UserFilter::SpecificUser(10));
    assert_eq!(
        t.command_bytes(Err(AdbError::IOError)).unwrap(),
        b"list packages -s --show-versioncode --user 10".to_vec()
    );
    let t = PackageListType::Apex(PackageDetails::Normal, UserFilter::NoUserSpecified);
    assert_eq!(t.command_bytes(Ok(3)).unwrap(), b"list packages --apex-only".to_vec());
    let t = PackageListType::AllNonApex(PackageDetails::ShowAssociatedApks, UserFilter::CurrentUser);
    assert_eq!(t.command_bytes(Ok(0)).unwrap(), b"list packages -a -f --user 0".to_vec());
    let t = PackageListType::Uninstalled(PackageDetails::ShowInstaller, UserFilter::SpecificUser(4294967295));
    assert_eq!(
        t.command_bytes(Ok(0)).unwrap(),
        b"list packages -u -i --user 4294967295".to_vec()
    );
}

#[test]
fn current_user_lookup_failure_fails_listing() {
    let t = PackageListType::Enabled(PackageDetails::Normal, UserFilter::CurrentUser);
    assert_eq!(
        t.command_bytes(Err(AdbError::RequestFailed("no user".to_string()))),
        Err(AdbError::RequestFailed("no user".to_string()))
    );
    let mut device = ADBMessageDevice::new();
    assert_eq!(device.list_packages(&t, Err(AdbError::IOError)), Err(AdbError::IOError));
}

#[test]
fn server_device_lists_packages() {
    let mut conn = AdbTcpConnection::default();
    let t = PackageListType::Disabled(PackageDetails::Normal, UserFilter::NoUserSpecified);
    assert_eq!(
        ADBServerDevice::new(AdbTcpConnection::default()).list_packages(&t, Ok(0)),
        Err(AdbError::NotConnected)
    );
    conn.new_connection(1);
    let device = ADBServerDevice::new(conn);
    let frame = device.list_packages(&t, Ok(0)).unwrap();
    assert_eq!(frame, b"LIST\x10\x00\x00\x00list packages -d".to_vec());
    let mut stream = dent(0, 0, 0, b"com.example");
    stream.extend_from_slice(b"DONE\x00\x00\x00\x00");
    let (entries, taken) = device.handle_list_packages(&stream).unwrap();
    assert_eq!(entries.len(), 1);
    assert_eq!(taken, stream.len());
}

#[test]
fn message_device_opens_listing_session() {
    let mut device = ADBMessageDevice::new();
    let t = PackageListType::Enabled(PackageDetails::Normal, UserFilter::CurrentUser);
    let (id, open) = device.list_packages(&t, Ok(11)).unwrap();
    assert_eq!(id, 1);
    assert_eq!(open.command, A_OPEN);
    assert_eq!(open.arg0, 1);
    assert_eq!(open.payload, b"exec:cmd package list packages -e --user 11\0".to_vec());
    assert_eq!(device.sessions.session(1).unwrap().state, SessionState::Opening);
}
