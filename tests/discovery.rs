use swipe_nav::discovery::{check_socket_path, socket_path_from_output, DiscoveryError};

#[test]
fn path_is_trimmed() {
    assert_eq!(
        socket_path_from_output(true, b"  /run/user/1000/sway-ipc.sock\n".to_vec()),
        Ok("/run/user/1000/sway-ipc.sock".to_string())
    );
}

#[test]
fn failed_command() {
    assert_eq!(
        socket_path_from_output(false, b"/run/sway.sock\n".to_vec()),
        Err(DiscoveryError::CommandFailed)
    );
}

#[test]
fn output_not_utf8() {
    assert_eq!(
        socket_path_from_output(true, vec![0x2f, 0xff, 0xfe]),
        Err(DiscoveryError::NotUtf8)
    );
}

#[test]
fn blank_output() {
    assert_eq!(socket_path_from_output(true, b" \n\t".to_vec()), Err(DiscoveryError::EmptyPath));
    assert_eq!(socket_path_from_output(true, Vec::new()), Err(DiscoveryError::EmptyPath));
    assert_eq!(check_socket_path(String::new()), Err(DiscoveryError::EmptyPath));
    assert_eq!(check_socket_path("/s".to_string()), Ok("/s".to_string()));
}

#[test]
fn unicode_white_space_is_trimmed() {
    assert_eq!(
        socket_path_from_output(true, "\u{3000}\u{a0}/tmp/a b.sock\u{2028}\r\n".as_bytes().to_vec()),
        Ok("/tmp/a b.sock".to_string())
    );
    assert_eq!(
        socket_path_from_output(true, "\u{85}\u{200a}\u{205f}".as_bytes().to_vec()),
        Err(DiscoveryError::EmptyPath)
    );
}
