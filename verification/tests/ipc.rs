use phantom_server::clock::SEC;
use phantom_server::ipc::client::{frame_to_send, ClientStep, IpcClient};
use phantom_server::ipc::pipe::{
    connect_outcome, duration_to_wait_ms, is_win32_error, logon_group, pause_after, pipe_names,
    pipe_security_sddl, remaining, ConnectOutcome, Transfer, SE_GROUP_LOGON_ID,
};
use phantom_server::ipc::server::{heartbeat_due, IpcServer, ServerEvent};
use phantom_server::ipc::wire::{
    decode_cursor_shape, decode_cursor_state, decode_ipc_frame, decode_resolution,
    encode_cursor_shape, encode_cursor_state, encode_ipc_frame, encode_message, encode_resolution,
    parse_message, WireError, MSG_CLIPBOARD_SYNC, MSG_CURSOR_SHAPE, MSG_CURSOR_STATE,
    MSG_ENCODED_FRAME, MSG_FORCE_KEYFRAME, MSG_HEARTBEAT, MSG_INPUT, MSG_PASTE_TEXT,
    MSG_RESOLUTION_CHANGE, MSG_SHUTDOWN, MSG_VIEWER_STATE,
};
use phantom_server::media::{EncodedFrame, VideoCodec};
use phantom_server::protocol::{CursorShape, CursorState};

#[test]
fn pipe_acl_without_user_is_system_only() {
    assert_eq!(pipe_security_sddl(None), "D:P(A;;GA;;;SY)(A;;GA;;;BA)");
}

#[test]
fn pipe_acl_grants_only_the_session_logon_sid() {
    let sddl = pipe_security_sddl(Some("S-1-5-5-1-2"));
    assert_eq!(sddl, "D:P(A;;GA;;;SY)(A;;GA;;;BA)(A;;GA;;;S-1-5-5-1-2)");
    assert!(!sddl.contains(";;;WD"));
    assert!(!sddl.contains(";;;AU"));
    assert!(!sddl.contains(";;;IU"));
}

#[test]
fn cursor_shape_round_trips_without_duplicate_pixels() {
    let shape = CursorShape {
        shape_id: 42,
        width: 2,
        height: 1,
        hotspot_x: 1,
        hotspot_y: 0,
        rgba: vec![0, 1, 2, 3, 4, 5, 6, 7],
    };
    let encoded = encode_cursor_shape(&shape);
    assert_eq!(encoded.len(), 24 + shape.rgba.len());

    let decoded = decode_cursor_shape(&encoded).expect("cursor shape should decode");
    assert_eq!(decoded, shape);
}

#[test]
fn a_decoded_cursor_shape_encodes_again() {
    let mut payload: Vec<u8> = (0..24).map(|i| 255 - i).collect();
    payload[8..16].copy_from_slice(&[2, 0, 0, 0, 1, 0, 0, 0]);
    payload.extend([9, 8, 7, 6, 5, 4, 3, 2]);
    let shape = decode_cursor_shape(&payload).unwrap();
    assert!(shape.hotspot_x < 0);
    assert_eq!(encode_cursor_shape(&shape), payload);
}

#[test]
fn broken_cursor_shapes_are_refused() {
    assert_eq!(
        decode_cursor_shape(&[0; 23]),
        Err(WireError::TooShort { len: 23 })
    );
    let shape = CursorShape {
        shape_id: 1,
        width: 2,
        height: 2,
        hotspot_x: 0,
        hotspot_y: 0,
        rgba: vec![0; 15],
    };
    assert_eq!(
        decode_cursor_shape(&encode_cursor_shape(&shape)),
        Err(WireError::WrongSize {
            got: 15,
            expected: 16
        })
    );
    let mut huge = encode_cursor_shape(&shape);
    huge[8..16].copy_from_slice(&[0xff; 8]);
    assert_eq!(
        decode_cursor_shape(&huge),
        Err(WireError::TooLarge {
            width: 0xffff_ffff,
            height: 0xffff_ffff
        })
    );
}

#[test]
fn cursor_state_round_trips_with_negative_places() {
    let state = CursorState {
        visible: true,
        x: -5,
        y: i32::MIN,
        shape_id: 0x0102_0304_0506_0708,
    };
    let payload = encode_cursor_state(&state);
    assert_eq!(payload.len(), 17);
    assert_eq!(&payload[..5], &[1, 0xfb, 0xff, 0xff, 0xff]);
    assert_eq!(&payload[9..], &[8, 7, 6, 5, 4, 3, 2, 1]);
    assert_eq!(decode_cursor_state(&payload), Ok(state));
    assert_eq!(
        decode_cursor_state(&payload[..16]),
        Err(WireError::TooShort { len: 16 })
    );
}

fn frame(is_keyframe: bool) -> EncodedFrame {
    EncodedFrame {
        codec: VideoCodec::Av1,
        data: vec![9, 8, 7],
        is_keyframe,
    }
}

#[test]
fn frames_round_trip() {
    let payload = encode_ipc_frame(&frame(true), 1920, 1080);
    assert_eq!(payload, vec![1, 1, 0x80, 7, 0, 0, 0x38, 4, 0, 0, 9, 8, 7]);
    let back = decode_ipc_frame(&payload).unwrap();
    assert_eq!((back.width, back.height), (1920, 1080));
    assert_eq!(back.encoded, frame(true));
    assert_eq!(
        decode_ipc_frame(&payload[..9]),
        Err(WireError::TooShort { len: 9 })
    );
    let mut unknown = payload.clone();
    unknown[1] = 2;
    assert_eq!(
        decode_ipc_frame(&unknown),
        Err(WireError::UnknownCodec { code: 2 })
    );
}

#[test]
fn messages_are_cut_out_of_a_stream() {
    let mut stream = encode_message(MSG_INPUT, &[1, 2, 3]);
    assert_eq!(stream, vec![2, 3, 0, 0, 0, 1, 2, 3]);
    stream.extend_from_slice(&[3, 0]);
    assert_eq!(parse_message(&stream), Some((2, vec![1, 2, 3], 8)));
    assert_eq!(parse_message(&stream[8..]), None);
    assert_eq!(parse_message(&stream[..7]), None);
}

#[test]
fn resolutions_round_trip() {
    assert_eq!(encode_resolution(800, 600), vec![0x20, 3, 0, 0, 0x58, 2, 0, 0]);
    assert_eq!(decode_resolution(&encode_resolution(800, 600)), Some((800, 600)));
    assert_eq!(decode_resolution(&[0; 7]), None);
}

#[test]
fn pipes_have_names_of_their_own() {
    let (up, down) = pipe_names(3, 12);
    assert_eq!(up, r"\\.\pipe\PhantomIPC_up_3_12");
    assert_eq!(down, r"\\.\pipe\PhantomIPC_down_3_12");
    assert_ne!(pipe_names(31, 2).0, pipe_names(3, 12).0);
}

#[test]
fn logon_group_needs_every_bit() {
    assert_eq!(logon_group(&[0x4000_0000, 7, SE_GROUP_LOGON_ID | 7]), Some(2));
    assert_eq!(logon_group(&[0x8000_0000]), None);
}

#[test]
fn windows_errors_come_bare_or_wrapped() {
    assert!(is_win32_error(997, 997));
    assert!(is_win32_error(0x8007_03e5u32 as i32, 997));
    assert!(!is_win32_error(998, 997));
    assert_eq!(connect_outcome(None), ConnectOutcome::Connected);
    assert_eq!(connect_outcome(Some(535)), ConnectOutcome::Connected);
    assert_eq!(connect_outcome(Some(232)), ConnectOutcome::Gone);
    assert_eq!(connect_outcome(Some(997)), ConnectOutcome::Pending);
    assert_eq!(connect_outcome(Some(5)), ConnectOutcome::Failed);
}

#[test]
fn waits_end_within_32_bits() {
    assert_eq!(duration_to_wait_ms(Some(250)), 250);
    assert_eq!(duration_to_wait_ms(Some(u64::MAX)), u32::MAX);
    assert_eq!(duration_to_wait_ms(None), u32::MAX);
    assert_eq!(remaining(5, 2), Some(3));
    assert_eq!(remaining(5, 6), None);
    assert!(pause_after(0, 2));
    assert!(!pause_after(1, 2));
    assert!(!pause_after(0, 0));
}

#[test]
fn transfers_go_on_until_all_is_moved() {
    let mut t = Transfer::new(5);
    assert!(!t.is_done());
    t.advance(3).unwrap();
    assert!(t.advance(0).is_err());
    assert_eq!(t.offset, 3);
    t.advance(2).unwrap();
    assert!(t.is_done());
}

#[test]
fn server_sends_the_new_size_before_the_keyframe() {
    let mut server = IpcServer::new();
    server.request_keyframe();
    assert!(server.take_pending().is_empty(), "nobody is connected yet");
    server.on_connected();
    server.request_keyframe();
    server.request_resolution_change(800, 600);
    server.send_paste("héllo");
    let kinds: Vec<(u8, Vec<u8>)> = server
        .take_pending()
        .into_iter()
        .map(|m| (m.kind, m.payload))
        .collect();
    let size = kinds.iter().position(|m| m.0 == MSG_RESOLUTION_CHANGE).unwrap();
    let key = kinds.iter().position(|m| m.0 == MSG_FORCE_KEYFRAME).unwrap();
    assert!(size < key);
    assert!(kinds.contains(&(MSG_PASTE_TEXT, "héllo".as_bytes().to_vec())));
    assert!(server.take_pending().is_empty());
}

#[test]
fn server_sends_a_shutdown_alone() {
    let mut server = IpcServer::new();
    server.on_connected();
    server.request_keyframe();
    server.send_shutdown();
    let sent = server.take_pending();
    assert_eq!(sent.len(), 1);
    assert_eq!(sent[0].kind, MSG_SHUTDOWN);
}

#[test]
fn server_tells_of_the_first_viewer_and_the_last() {
    let mut server = IpcServer::new();
    server.on_connected();
    server.acquire_viewer();
    server.acquire_viewer();
    let sent = server.take_pending();
    assert!(sent.iter().any(|m| m.kind == MSG_VIEWER_STATE && m.payload == vec![1]));
    server.release_viewer();
    assert!(server.take_pending().iter().all(|m| m.kind != MSG_VIEWER_STATE));
    server.release_viewer();
    assert!(server
        .take_pending()
        .iter()
        .any(|m| m.kind == MSG_VIEWER_STATE && m.payload == vec![0]));
}

#[test]
fn server_keeps_the_last_keyframe() {
    let mut server = IpcServer::new();
    assert!(!server.is_connected(false, false));
    server.on_connected();
    assert!(server.is_connected(false, false));
    assert!(!server.is_connected(true, false) && !server.is_connected(false, true));
    let event = server.on_message(MSG_ENCODED_FRAME, encode_ipc_frame(&frame(true), 4, 2));
    assert!(matches!(event, ServerEvent::Frame(_)));
    server.on_message(MSG_ENCODED_FRAME, encode_ipc_frame(&frame(false), 8, 8));
    let kept = server.last_keyframe().unwrap();
    assert_eq!((kept.width, kept.height), (4, 2));
    assert_eq!(kept.encoded, frame(true));
    assert!(server.disconnect());
    assert!(server.last_keyframe().is_none());
}

#[test]
fn server_reads_every_kind_of_message() {
    let mut server = IpcServer::new();
    assert!(matches!(
        server.on_message(MSG_HEARTBEAT, Vec::new()),
        ServerEvent::Heartbeat
    ));
    match server.on_message(MSG_CLIPBOARD_SYNC, "grüße".as_bytes().to_vec()) {
        ServerEvent::Clipboard(t) => assert_eq!(t, "grüße"),
        other => panic!("{other:?}"),
    }
    assert!(matches!(
        server.on_message(MSG_CLIPBOARD_SYNC, vec![0xff, 0xfe]),
        ServerEvent::BadText
    ));
    let state = CursorState {
        visible: false,
        x: 1,
        y: 2,
        shape_id: 3,
    };
    match server.on_message(MSG_CURSOR_STATE, encode_cursor_state(&state)) {
        ServerEvent::Cursor(s) => assert_eq!(s, state),
        other => panic!("{other:?}"),
    }
    assert!(matches!(
        server.on_message(MSG_CURSOR_SHAPE, vec![1]),
        ServerEvent::Bad(WireError::TooShort { len: 1 })
    ));
    assert!(matches!(
        server.on_message(MSG_CURSOR_STATE, vec![0; 16]),
        ServerEvent::Bad(WireError::TooShort { len: 16 })
    ));
    assert!(matches!(
        server.on_message(MSG_ENCODED_FRAME, vec![0; 9]),
        ServerEvent::Bad(WireError::TooShort { len: 9 })
    ));
    assert!(matches!(
        server.on_message(MSG_ENCODED_FRAME, vec![7; 10]),
        ServerEvent::Bad(WireError::UnknownCodec { code: 7 })
    ));
    let mut shape = vec![0; 24];
    shape[8] = 1;
    shape[12] = 2;
    assert!(matches!(
        server.on_message(MSG_CURSOR_SHAPE, shape),
        ServerEvent::Bad(WireError::WrongSize { got: 0, expected: 8 })
    ));
    assert!(matches!(
        server.on_message(MSG_INPUT, vec![]),
        ServerEvent::Unexpected(2)
    ));
}

#[test]
fn heartbeats_follow_silence() {
    assert!(!heartbeat_due(0, 4 * SEC));
    assert!(heartbeat_due(0, 6 * SEC));
}

#[test]
fn client_remembers_what_it_was_asked() {
    let mut client = IpcClient::new();
    assert!(!client.should_shutdown());
    let mut lost = IpcClient::new();
    lost.on_read_error();
    assert!(lost.should_shutdown());
    assert_eq!(client.on_message(MSG_INPUT, &[1]), ClientStep::Input);
    assert_eq!(client.on_message(MSG_FORCE_KEYFRAME, &[]), ClientStep::Done);
    assert!(client.take_keyframe_request());
    assert!(!client.take_keyframe_request());
    client.on_message(MSG_RESOLUTION_CHANGE, &encode_resolution(640, 480));
    assert_eq!(client.take_resolution_request(), Some((640, 480)));
    assert_eq!(client.take_resolution_request(), None);
    assert_eq!(
        client.on_message(MSG_RESOLUTION_CHANGE, &[1]),
        ClientStep::Ignored
    );
    client.on_message(MSG_PASTE_TEXT, "añb".as_bytes());
    assert_eq!(client.take_paste_request(), Some("añb".to_string()));
    assert_eq!(client.on_message(MSG_PASTE_TEXT, &[0xff]), ClientStep::Ignored);
    client.on_message(MSG_VIEWER_STATE, &[1]);
    assert!(client.viewer_active());
    client.on_message(MSG_VIEWER_STATE, &[]);
    assert!(!client.viewer_active());
    assert_eq!(client.on_message(MSG_HEARTBEAT, &[]), ClientStep::Done);
    assert_eq!(client.on_message(0x7f, &[]), ClientStep::Ignored);
    assert!(!client.should_shutdown());
    assert_eq!(client.on_message(MSG_SHUTDOWN, &[]), ClientStep::Stop);
    assert!(client.should_shutdown());
}

#[test]
fn empty_frames_are_not_sent() {
    let mut empty = frame(true);
    empty.data.clear();
    assert_eq!(frame_to_send(&empty, 4, 2), None);
    assert_eq!(
        frame_to_send(&frame(true), 4, 2),
        Some(encode_ipc_frame(&frame(true), 4, 2))
    );
}
