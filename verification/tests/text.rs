use native_host::config::{
    socket_path, DEFAULT_SOCKET_PATH, LOG_PATH, READ_DEADLINE_SECONDS, SOCKET_PATH_VARIABLE,
};
use native_host::diagnostics::{chrono_lite, decimal, log_line, stamp};
use native_host::response::{error_response, strip_terminator, terminate, LINE_FEED};

#[test]
fn decimal_writes_numbers_as_format_does() {
    assert_eq!(decimal(0), "0");
    assert_eq!(decimal(7), "7");
    assert_eq!(decimal(9), "9");
    assert_eq!(decimal(10), "10");
    assert_eq!(decimal(1234567890), "1234567890");
    assert_eq!(decimal(1_700_000_000), "1700000000");
    assert_eq!(decimal(u64::MAX), "18446744073709551615");
    for n in [1u64, 19, 99, 100, 101, 1000, 65535, 4294967296] {
        assert_eq!(decimal(n), format!("{}", n));
    }
}

#[test]
fn log_line_has_stamp_message_and_line_feed() {
    assert_eq!(log_line("1700000000", "Native host started"), "[1700000000] Native host started\n");
    assert_eq!(log_line("", ""), "[] \n");
}

#[test]
fn stamp_is_the_seconds_or_zero() {
    assert_eq!(stamp(Some(1_700_000_000)), "1700000000");
    assert_eq!(stamp(Some(0)), "0");
    assert_eq!(stamp(Some(u64::MAX)), "18446744073709551615");
    assert_eq!(stamp(None), "0");
}

#[test]
fn chrono_lite_is_a_decimal_number() {
    let stamp = chrono_lite();
    assert!(!stamp.is_empty());
    assert!(stamp.chars().all(|c| c.is_ascii_digit()));
    let seconds: u64 = stamp.parse().unwrap();
    assert_eq!(decimal(seconds), stamp);
    assert!(seconds > 1_000_000_000);
}

#[test]
fn socket_path_falls_back_to_the_default() {
    assert_eq!(socket_path(None), "/tmp/refocus.sock");
    assert_eq!(socket_path(None), DEFAULT_SOCKET_PATH);
    assert_eq!(socket_path(Some("/run/app.sock".to_string())), "/run/app.sock");
    assert_eq!(socket_path(Some(String::new())), "");
}

#[test]
fn settings_have_their_fixed_values() {
    assert_eq!(SOCKET_PATH_VARIABLE, "REFOCUS_SOCKET");
    assert_eq!(LOG_PATH, "/tmp/refocus_native_host.log");
    assert_eq!(READ_DEADLINE_SECONDS, 5);
    assert_eq!(LINE_FEED, b'\n');
}

#[test]
fn error_response_is_an_object_with_one_field() {
    assert_eq!(error_response("App closed connection"), br#"{"error":"App closed connection"}"#.to_vec());
    assert_eq!(error_response(""), br#"{"error":""}"#.to_vec());
}

#[test]
fn error_response_escapes_nothing() {
    assert_eq!(error_response("a \"quoted\" word"), b"{\"error\":\"a \"quoted\" word\"}".to_vec());
    assert_eq!(
        error_response("caf\u{e9}"),
        "{\"error\":\"caf\u{e9}\"}".as_bytes().to_vec()
    );
}

#[test]
fn strip_terminator_takes_one_line_feed_off() {
    assert_eq!(strip_terminator(b"{\"ack\":true}\n".to_vec()), b"{\"ack\":true}".to_vec());
    assert_eq!(strip_terminator(b"no terminator".to_vec()), b"no terminator".to_vec());
    assert_eq!(strip_terminator(b"two\n\n".to_vec()), b"two\n".to_vec());
    assert_eq!(strip_terminator(b"\n".to_vec()), Vec::<u8>::new());
    assert_eq!(strip_terminator(Vec::new()), Vec::<u8>::new());
    assert_eq!(strip_terminator(b"inner\nfeed".to_vec()), b"inner\nfeed".to_vec());
}

#[test]
fn terminate_adds_one_line_feed() {
    assert_eq!(terminate(b"abc".to_vec()), b"abc\n".to_vec());
    assert_eq!(terminate(Vec::new()), b"\n".to_vec());
    assert_eq!(strip_terminator(terminate(b"abc".to_vec())), b"abc".to_vec());
}
