use openssl_lite::error::{classify, get_error, ErrorClass, QueueEntry, MESSAGE_CAPACITY};
use openssl_lite::sys;
use openssl_lite::version;
use openssl_lite::{ErrorStack, IoError, SslError};

fn rendered(code: u64, text: &[u8]) -> QueueEntry {
    let mut buf = text.to_vec();
    buf.push(0);
    buf.resize(MESSAGE_CAPACITY, 0);
    QueueEntry { code, text: buf }
}

#[test]
fn get_collects_messages_in_order() {
    let queue = vec![
        rendered(0x0A000086, b"error:0A000086:SSL routines::certificate verify failed"),
        rendered(0x0A000418, b"error:0A000418:SSL routines::tlsv1 alert unknown ca"),
    ];
    let stack = ErrorStack::get(&queue);
    assert_eq!(
        stack.0,
        vec![
            "error:0A000086:SSL routines::certificate verify failed".to_string(),
            "error:0A000418:SSL routines::tlsv1 alert unknown ca".to_string(),
        ]
    );
}

#[test]
fn get_of_empty_queue_is_empty() {
    let stack = ErrorStack::get(&[]);
    assert!(stack.0.is_empty());
    assert_eq!(stack.message(), "Empty SSL error stack");
}

#[test]
fn get_stops_at_the_first_zero_code() {
    let queue = vec![rendered(7, b"first"), rendered(0, b"ignored"), rendered(9, b"after")];
    let stack = ErrorStack::get(&queue);
    assert_eq!(stack.0, vec!["first".to_string()]);
}

#[test]
fn get_of_a_queue_that_starts_empty() {
    let queue = vec![rendered(0, b""), rendered(9, b"after")];
    assert_eq!(ErrorStack::get(&queue), ErrorStack(vec![]));
}

#[test]
fn get_error_of_zero_code_is_none() {
    assert_eq!(get_error(&rendered(0, b"text")), None);
}

#[test]
fn get_error_reads_up_to_the_terminator() {
    let entry = QueueEntry { code: 1, text: b"abc\0def\0".to_vec() };
    assert_eq!(get_error(&entry), Some("abc".to_string()));
}

#[test]
fn get_error_of_an_immediate_terminator_is_empty() {
    let entry = QueueEntry { code: 1, text: vec![0u8; MESSAGE_CAPACITY] };
    assert_eq!(get_error(&entry), Some(String::new()));
}

#[test]
fn get_error_without_terminator_is_the_sentinel() {
    let entry = QueueEntry { code: 1, text: vec![b'A'; MESSAGE_CAPACITY] };
    assert_eq!(get_error(&entry), Some("Error too long".to_string()));
}

#[test]
fn get_error_of_an_empty_buffer_is_the_sentinel() {
    let entry = QueueEntry { code: 1, text: vec![] };
    assert_eq!(get_error(&entry), Some("Error too long".to_string()));
}

#[test]
fn get_error_decodes_utf8() {
    let entry = rendered(3, "schl\u{fc}ssel".as_bytes());
    assert_eq!(get_error(&entry), Some("schl\u{fc}ssel".to_string()));
}

#[test]
fn get_error_replaces_invalid_bytes() {
    let entry = QueueEntry { code: 3, text: vec![b'a', 0xff, b'b', 0] };
    assert_eq!(get_error(&entry), Some("a\u{fffd}b".to_string()));
}

#[test]
fn message_capacity_is_256() {
    assert_eq!(MESSAGE_CAPACITY, 256);
}

#[test]
fn stack_message_is_its_first_entry() {
    let stack = ErrorStack(vec!["one".to_string(), "two".to_string()]);
    assert_eq!(stack.message(), "one");
}

#[test]
fn classify_names_each_code() {
    assert_eq!(classify(6), ErrorClass::ZeroReturn);
    assert_eq!(classify(5), ErrorClass::Syscall);
    assert_eq!(classify(1), ErrorClass::Ssl);
    assert_eq!(classify(2), ErrorClass::WantRead);
    assert_eq!(classify(3), ErrorClass::WantWrite);
    assert_eq!(classify(0), ErrorClass::Other);
    assert_eq!(classify(4), ErrorClass::Other);
    assert_eq!(classify(7), ErrorClass::Other);
    assert_eq!(classify(-1), ErrorClass::Other);
    assert_eq!(classify(i32::MAX), ErrorClass::Other);
}

#[test]
fn error_codes_have_their_values() {
    assert_eq!(sys::SSL_ERROR_SSL, 1);
    assert_eq!(sys::SSL_ERROR_WANT_READ, 2);
    assert_eq!(sys::SSL_ERROR_WANT_WRITE, 3);
    assert_eq!(sys::SSL_ERROR_SYSCALL, 5);
    assert_eq!(sys::SSL_ERROR_ZERO_RETURN, 6);
    assert_eq!(sys::SSL_VERIFY_NONE, 0);
    assert_eq!(sys::SSL_VERIFY_PEER, 1);
    assert_eq!(sys::SSL_FILETYPE_PEM, 1);
    assert_eq!(sys::SSL_CTRL_SET_MIN_PROTO_VERSION, 123);
    assert_eq!(sys::SSL_CTRL_SET_TLSEXT_HOSTNAME, 55);
    assert_eq!(sys::TLSEXT_NAMETYPE_host_name, 0);
    assert_eq!(sys::MAX_TRANSFER, i32::MAX);
}

#[test]
fn versions_have_their_values() {
    assert_eq!(version::TLS1_0_VERSION, 0x0301);
    assert_eq!(version::TLS1_1_VERSION, 0x0302);
    assert_eq!(version::TLS1_2_VERSION, 0x0303);
    assert_eq!(version::TLS1_3_VERSION, 0x0304);
    assert_eq!(sys::TLS1_2_VERSION, version::TLS1_2_VERSION);
}

#[test]
fn zero_return_maps_to_unexpected_eof() {
    assert_eq!(IoError::from(SslError::ZeroReturn), IoError::UnexpectedEof);
}

#[test]
fn syscall_passes_through() {
    assert_eq!(IoError::from(SslError::Syscall(IoError::Os(104))), IoError::Os(104));
    assert_eq!(IoError::from(SslError::Syscall(IoError::WouldBlock)), IoError::WouldBlock);
}

#[test]
fn protocol_failure_keeps_its_stack() {
    let stack = ErrorStack(vec!["bad record mac".to_string()]);
    let io = IoError::from(SslError::Ssl(stack.clone()));
    assert_eq!(io, IoError::Stack(stack));
    assert_eq!(io.message(), "bad record mac");
}

#[test]
fn retry_signals_map_to_would_block() {
    assert_eq!(IoError::from(SslError::WantRead), IoError::WouldBlock);
    assert_eq!(IoError::from(SslError::WantWrite), IoError::WouldBlock);
}

#[test]
fn other_maps_to_generic_failure() {
    assert_eq!(IoError::from(SslError::Other), IoError::Other);
}

#[test]
fn stack_converts_into_io_error() {
    let stack = ErrorStack(vec![]);
    assert_eq!(IoError::from(stack.clone()), IoError::Stack(stack));
}

#[test]
fn io_error_becomes_syscall() {
    assert_eq!(SslError::from(IoError::Os(32)), SslError::Syscall(IoError::Os(32)));
    assert_eq!(SslError::from(IoError::UnexpectedEof), SslError::Syscall(IoError::UnexpectedEof));
}

#[test]
fn fixed_messages() {
    assert_eq!(SslError::ZeroReturn.message(), "zero return");
    assert_eq!(SslError::WantRead.message(), "want read");
    assert_eq!(SslError::WantWrite.message(), "want write");
    assert_eq!(SslError::Other.message(), "other ssl error");
    assert_eq!(
        SslError::Ssl(ErrorStack(vec!["handshake failure".to_string()])).message(),
        "ssl error: handshake failure"
    );
    assert_eq!(SslError::Ssl(ErrorStack(vec![])).message(), "ssl error: Empty SSL error stack");
    assert_eq!(
        SslError::Syscall(IoError::UnexpectedEof).message(),
        "syscall: unexpected end of file"
    );
    assert_eq!(SslError::Syscall(IoError::WouldBlock).message(), "syscall: operation would block");
    assert_eq!(SslError::Syscall(IoError::Other).message(), "syscall: other error");
}

#[test]
fn message_with_takes_the_platform_text() {
    let err = SslError::Syscall(IoError::Os(104));
    assert_eq!(err.message_with("Connection reset by peer"), "syscall: Connection reset by peer");
    assert_eq!(IoError::Os(104).message_with("reset"), "reset");
    assert_eq!(SslError::ZeroReturn.message_with("reset"), "zero return");
    assert_eq!(IoError::UnexpectedEof.message_with("reset"), "unexpected end of file");
}

#[test]
fn os_error_message_is_the_platform_text() {
    let expected = std::io::Error::from_raw_os_error(2).to_string();
    assert_eq!(IoError::Os(2).message(), expected);
    assert_eq!(SslError::Syscall(IoError::Os(2)).message(), format!("syscall: {}", expected));
}

#[test]
fn one_more_entry_appends_its_message() {
    let mut queue = vec![rendered(1, b"first"), rendered(2, b"second")];
    let before = ErrorStack::get(&queue);
    queue.push(rendered(3, b"third"));
    let after = ErrorStack::get(&queue);
    assert_eq!(after.0[..2], before.0[..]);
    assert_eq!(after.0[2], "third");
    assert_eq!(after.0.len(), 3);
}
