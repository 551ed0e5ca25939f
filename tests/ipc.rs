use swipe_nav::ipc::{
    active_workspace, byte_order_of, check_replies, check_reply, decode_header, decode_message, encode_message,
    host_byte_order, workspace_command, ByteOrder, CommandReply, IpcHeader, IpcMessage,
    SwayError, WorkspaceEntry, GET_WORKSPACES, HEADER_LEN, RUN_COMMAND,
};

#[test]
fn encode_little_endian_bytes() {
    let m = encode_message(ByteOrder::Little, 0x0102_0304, b"abc");
    let mut expected = b"i3-ipc".to_vec();
    expected.extend_from_slice(&[3, 0, 0, 0, 4, 3, 2, 1]);
    expected.extend_from_slice(b"abc");
    assert_eq!(m, expected);
}

#[test]
fn encode_big_endian_bytes() {
    let m = encode_message(ByteOrder::Big, 1, b"");
    let mut expected = b"i3-ipc".to_vec();
    expected.extend_from_slice(&[0, 0, 0, 0, 0, 0, 0, 1]);
    assert_eq!(m, expected);
    assert_eq!(m.len(), HEADER_LEN);
}

#[test]
fn host_order_matches_native_bytes() {
    let order = host_byte_order();
    let m = encode_message(order, 0x0a0b_0c0d, b"");
    assert_eq!(&m[10..14], &0x0a0b_0c0du32.to_ne_bytes());
    let expected = if u32::from_ne_bytes([1, 0, 0, 0]) == 1 { ByteOrder::Little } else { ByteOrder::Big };
    assert_eq!(order, expected);
}

#[test]
fn round_trip_through_a_byte_stream() {
    for order in [ByteOrder::Little, ByteOrder::Big] {
        for (t, p) in [
            (RUN_COMMAND, b"workspace number 7".to_vec()),
            (GET_WORKSPACES, Vec::new()),
            (0xdead_beef, (0u8..=255).collect::<Vec<u8>>()),
        ] {
            let mut stream = encode_message(order, t, &p);
            stream.extend_from_slice(b"trailing");
            assert_eq!(decode_message(order, &stream), Ok(IpcMessage { msg_type: t, payload: p.clone() }));
            assert_eq!(
                decode_header(order, &stream[0..HEADER_LEN]),
                Ok(IpcHeader { length: p.len() as u32, msg_type: t })
            );
        }
    }
}

#[test]
fn bad_magic_is_a_protocol_error() {
    let mut m = encode_message(ByteOrder::Little, 1, b"[]");
    m[0] = b'x';
    assert_eq!(decode_header(ByteOrder::Little, &m[0..HEADER_LEN]), Err(SwayError::InvalidMagic));
    assert_eq!(decode_message(ByteOrder::Little, &m), Err(SwayError::InvalidMagic));
    let mut bad_json = encode_message(ByteOrder::Little, 1, b"{not json");
    bad_json[5] = b'C';
    assert_eq!(decode_message(ByteOrder::Little, &bad_json), Err(SwayError::InvalidMagic));
}

#[test]
fn short_input_is_truncated() {
    assert_eq!(decode_header(ByteOrder::Little, b"i3-ipc\x01\x00"), Err(SwayError::Truncated));
    assert_eq!(decode_header(ByteOrder::Little, b""), Err(SwayError::Truncated));
    let m = encode_message(ByteOrder::Little, 1, b"[1,2,3]");
    assert_eq!(decode_message(ByteOrder::Little, &m[..m.len() - 1]), Err(SwayError::Truncated));
}

#[test]
fn workspace_command_text() {
    assert_eq!(workspace_command(3), b"workspace number 3".to_vec());
    assert_eq!(workspace_command(0), b"workspace number 0".to_vec());
    assert_eq!(workspace_command(10), b"workspace number 10".to_vec());
    assert_eq!(
        workspace_command(u64::MAX),
        format!("workspace number {}", u64::MAX).into_bytes()
    );
}

fn entry(focused: bool, num: Option<u64>) -> WorkspaceEntry {
    WorkspaceEntry { focused, num }
}

#[test]
fn active_workspace_is_the_first_focused() {
    let e = [entry(false, Some(1)), entry(true, Some(4)), entry(true, Some(7))];
    assert_eq!(active_workspace(&e), Ok(4));
}

#[test]
fn no_focused_workspace() {
    assert_eq!(active_workspace(&[]), Err(SwayError::NoActiveWorkspace));
    let e = [entry(false, Some(1)), entry(false, Some(2))];
    assert_eq!(active_workspace(&e), Err(SwayError::NoActiveWorkspace));
}

#[test]
fn focused_workspace_without_number() {
    let e = [entry(false, Some(1)), entry(true, None), entry(true, Some(3))];
    assert_eq!(active_workspace(&e), Err(SwayError::InvalidWorkspaceNumber));
}

#[test]
fn reply_success_flags() {
    assert_eq!(check_reply(CommandReply { success: Some(true), error: None }), Ok(()));
    assert_eq!(check_reply(CommandReply { success: None, error: Some("x".to_string()) }), Ok(()));
    assert_eq!(
        check_reply(CommandReply { success: Some(false), error: Some("no such workspace".to_string()) }),
        Err(SwayError::IpcError("no such workspace".to_string()))
    );
    assert_eq!(
        check_reply(CommandReply { success: Some(false), error: None }),
        Err(SwayError::IpcError("Unknown error".to_string()))
    );
}

#[test]
fn byte_order_from_probe() {
    assert_eq!(byte_order_of([1, 0, 0, 0]), ByteOrder::Little);
    assert_eq!(byte_order_of([0, 0, 0, 1]), ByteOrder::Big);
    assert_eq!(byte_order_of(1u32.to_ne_bytes()), host_byte_order());
}

fn reply(success: Option<bool>, error: Option<&str>) -> CommandReply {
    CommandReply { success, error: error.map(|e| e.to_string()) }
}

#[test]
fn replies_fail_on_the_first_failure() {
    assert_eq!(check_replies(&[]), Ok(()));
    assert_eq!(check_replies(&[reply(Some(true), None), reply(None, None)]), Ok(()));
    assert_eq!(
        check_replies(&[
            reply(Some(true), None),
            reply(Some(false), Some("first")),
            reply(Some(false), Some("second")),
        ]),
        Err(SwayError::IpcError("first".to_string()))
    );
    assert_eq!(
        check_replies(&[reply(Some(false), None)]),
        Err(SwayError::IpcError("Unknown error".to_string()))
    );
}
