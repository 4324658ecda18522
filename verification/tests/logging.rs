use libsystemd::logging::{
    add_field_and_payload, add_field_and_payload_explicit_length, connected_to_journal, encode,
    is_valid_char, is_valid_field, JournalStream, Priority, SD_JOURNAL_SOCK_PATH,
};

#[test]
fn test_is_valid_field_lowercase_invalid() {
    let field = "test";
    assert_eq!(is_valid_field(&field), false);
}

#[test]
fn test_is_valid_field_uppercase_non_ascii_invalid() {
    let field = "TRÖT";
    assert_eq!(is_valid_field(&field), false);
}

#[test]
fn test_is_valid_field_uppercase_valid() {
    let field = "TEST";
    assert_eq!(is_valid_field(&field), true);
}

#[test]
fn test_is_valid_field_uppercase_non_alpha_invalid() {
    let field = "TE!ST";
    assert_eq!(is_valid_field(&field), false);
}

#[test]
fn test_is_valid_field_uppercase_leading_underscore_invalid() {
    let field = "_TEST";
    assert_eq!(is_valid_field(&field), false);
}

#[test]
fn test_is_valid_field_uppercase_leading_digit_invalid() {
    assert_eq!(is_valid_field("1TEST"), false);
}

#[test]
fn add_field_and_payload_explicit_length_simple() {
    let mut data = Vec::new();
    add_field_and_payload_explicit_length(&mut data, "FOO", "BAR");
    assert_eq!(
        data,
        vec![b'F', b'O', b'O', b'\n', 3, 0, 0, 0, 0, 0, 0, 0, b'B', b'A', b'R', b'\n']
    );
}

#[test]
fn add_field_and_payload_explicit_length_internal_newline() {
    let mut data = Vec::new();
    add_field_and_payload_explicit_length(&mut data, "FOO", "B\nAR");
    assert_eq!(
        data,
        vec![b'F', b'O', b'O', b'\n', 4, 0, 0, 0, 0, 0, 0, 0, b'B', b'\n', b'A', b'R', b'\n']
    );
}

#[test]
fn add_field_and_payload_explicit_length_trailing_newline() {
    let mut data = Vec::new();
    add_field_and_payload_explicit_length(&mut data, "FOO", "BAR\n");
    assert_eq!(
        data,
        vec![b'F', b'O', b'O', b'\n', 4, 0, 0, 0, 0, 0, 0, 0, b'B', b'A', b'R', b'\n', b'\n']
    );
}

#[test]
fn add_field_and_payload_simple() {
    let mut data = Vec::new();
    add_field_and_payload(&mut data, "FOO", "BAR");
    assert_eq!(data, "FOO=BAR\n".as_bytes());
}

#[test]
fn add_field_and_payload_internal_newline() {
    let mut data = Vec::new();
    add_field_and_payload(&mut data, "FOO", "B\nAR");
    assert_eq!(
        data,
        vec![b'F', b'O', b'O', b'\n', 4, 0, 0, 0, 0, 0, 0, 0, b'B', b'\n', b'A', b'R', b'\n']
    );
}

#[test]
fn add_field_and_payload_trailing_newline() {
    let mut data = Vec::new();
    add_field_and_payload(&mut data, "FOO", "BAR\n");
    assert_eq!(
        data,
        vec![b'F', b'O', b'O', b'\n', 4, 0, 0, 0, 0, 0, 0, 0, b'B', b'A', b'R', b'\n', b'\n']
    );
}

#[test]
fn journal_socket_path() {
    assert_eq!(SD_JOURNAL_SOCK_PATH, "/run/systemd/journal/socket");
}

#[test]
fn priority_levels_are_ordered_from_most_severe() {
    let all = [
        Priority::Emergency,
        Priority::Alert,
        Priority::Critical,
        Priority::Error,
        Priority::Warning,
        Priority::Notice,
        Priority::Info,
        Priority::Debug,
    ];
    for (level, priority) in all.iter().enumerate() {
        assert_eq!(u8::from(*priority) as usize, level);
        assert_eq!(priority.as_digit(), format!("{}", level));
    }
}

#[test]
fn valid_chars_are_uppercase_digits_and_underscore() {
    for c in ['A', 'M', 'Z', '0', '5', '9', '_'] {
        assert!(is_valid_char(c));
    }
    for c in ['a', 'z', '-', '=', '\n', ' ', 'Ö', '@', '[', '/', ':'] {
        assert!(!is_valid_char(c));
    }
}

#[test]
fn field_name_length_limits() {
    assert_eq!(is_valid_field(""), false);
    assert_eq!(is_valid_field("A"), true);
    assert_eq!(is_valid_field(&"A".repeat(64)), true);
    assert_eq!(is_valid_field(&"A".repeat(65)), false);
    assert_eq!(is_valid_field("A_1"), true);
    assert_eq!(is_valid_field("A1_"), true);
    assert_eq!(is_valid_field("9A"), false);
}

#[test]
fn field_with_invalid_name_is_dropped() {
    let mut data = vec![1u8, 2, 3];
    add_field_and_payload(&mut data, "foo", "bar");
    add_field_and_payload(&mut data, "", "bar");
    add_field_and_payload(&mut data, "_FOO", "b\nar");
    assert_eq!(data, vec![1u8, 2, 3]);
}

#[test]
fn fields_are_appended_to_what_is_there() {
    let mut data = b"A=1\n".to_vec();
    add_field_and_payload(&mut data, "B", "2");
    assert_eq!(data, b"A=1\nB=2\n");
}

#[test]
fn empty_payload_is_framed_simply() {
    let mut data = Vec::new();
    add_field_and_payload(&mut data, "FOO", "");
    assert_eq!(data, b"FOO=\n");
}

#[test]
fn payload_of_one_newline_has_its_length_written_out() {
    let mut data = Vec::new();
    add_field_and_payload(&mut data, "FOO", "\n");
    assert_eq!(data, vec![b'F', b'O', b'O', b'\n', 1, 0, 0, 0, 0, 0, 0, 0, b'\n', b'\n']);
}

#[test]
fn length_counts_bytes_not_characters() {
    let mut data = Vec::new();
    add_field_and_payload(&mut data, "FOO", "Ö\n");
    assert_eq!(
        data,
        vec![b'F', b'O', b'O', b'\n', 3, 0, 0, 0, 0, 0, 0, 0, 0xc3, 0x96, b'\n', b'\n']
    );
}

#[test]
fn length_is_little_endian() {
    let payload = format!("{}\n", "x".repeat(0x1_02_03 - 1));
    let mut data = Vec::new();
    add_field_and_payload(&mut data, "F", &payload);
    assert_eq!(&data[..2], b"F\n");
    assert_eq!(&data[2..10], &[0x03, 0x02, 0x01, 0, 0, 0, 0, 0]);
    assert_eq!(data.len(), 2 + 8 + 0x1_02_03 + 1);
}

#[test]
fn explicit_length_frame_is_parsed_back() {
    for payload in ["B\nAR", "BAR\n", "\n", "\n\n", "a\nb\nc\n", "Ö\nä"] {
        let mut data = Vec::new();
        add_field_and_payload(&mut data, "FOO", payload);
        assert_eq!(&data[..4], b"FOO\n");
        let mut size = [0u8; 8];
        size.copy_from_slice(&data[4..12]);
        let len = u64::from_le_bytes(size) as usize;
        assert_eq!(len, payload.len());
        assert_eq!(&data[12..12 + len], payload.as_bytes());
        assert_eq!(&data[12 + len..], b"\n");
    }
}

#[test]
fn encode_hello_world() {
    let data = encode(Priority::Info, "Hello World", &[("FOO", "bar")]);
    assert_eq!(data, b"PRIORITY=6\nMESSAGE=Hello World\nFOO=bar\n");
}

#[test]
fn encode_without_fields() {
    let data = encode(Priority::Emergency, "x", &[]);
    assert_eq!(data, b"PRIORITY=0\nMESSAGE=x\n");
}

#[test]
fn encode_large_message() {
    let message = "A".repeat(212995);
    let data = encode(Priority::Debug, &message, &[]);
    let mut expected = b"PRIORITY=7\nMESSAGE=".to_vec();
    expected.extend_from_slice(message.as_bytes());
    expected.push(b'\n');
    assert_eq!(data, expected);
}

#[test]
fn encode_drops_duplicate_message() {
    let data = encode(Priority::Info, "real message", &[("MESSAGE", "duplicate")]);
    assert_eq!(data, b"PRIORITY=6\nMESSAGE=real message\n");
    let text = String::from_utf8(data).unwrap();
    assert_eq!(text.matches("MESSAGE=real message").count(), 1);
    assert_eq!(text.matches("MESSAGE").count(), 1);
    assert!(!text.contains("duplicate"));
}

#[test]
fn encode_skips_reserved_and_invalid_fields() {
    let data = encode(
        Priority::Info,
        "Test Skip Fields",
        &[
            ("TEST_JOURNALD_LOG3", "result"),
            ("PRIORITY", "4"),
            ("lower", "dropped"),
            ("MESSAGE", "Duplicate value"),
            ("TEST_JOURNALD_LOG4", "kept"),
        ],
    );
    assert_eq!(
        data,
        b"PRIORITY=6\nMESSAGE=Test Skip Fields\nTEST_JOURNALD_LOG3=result\nTEST_JOURNALD_LOG4=kept\n"
    );
}

#[test]
fn encode_keeps_the_order_of_fields() {
    let data = encode(
        Priority::Info,
        "Hello World",
        &[("TEST_NAME", "simple_message"), ("FOO", "another piece of data")],
    );
    assert_eq!(
        data,
        b"PRIORITY=6\nMESSAGE=Hello World\nTEST_NAME=simple_message\nFOO=another piece of data\n"
    );
}

#[test]
fn encode_multiline_message() {
    let data = encode(Priority::Info, "Hello\nMultiline\nWorld", &[("TEST_NAME", "t")]);
    let mut expected = b"PRIORITY=6\nMESSAGE\n".to_vec();
    expected.extend_from_slice(&21u64.to_le_bytes());
    expected.extend_from_slice(b"Hello\nMultiline\nWorld\n");
    expected.extend_from_slice(b"TEST_NAME=t\n");
    assert_eq!(data, expected);
}

#[test]
fn encode_message_with_trailing_newline() {
    let data = encode(Priority::Info, "A trailing newline\n", &[]);
    let mut expected = b"PRIORITY=6\nMESSAGE\n".to_vec();
    expected.extend_from_slice(&19u64.to_le_bytes());
    expected.extend_from_slice(b"A trailing newline\n\n");
    assert_eq!(data, expected);
}

#[test]
fn encode_twice_gives_the_same_bytes() {
    let fields = [("FOO", "bar"), ("BAZ", "multi\nline")];
    let first = encode(Priority::Warning, "again", &fields);
    let second = encode(Priority::Warning, "again", &fields);
    assert_eq!(first, second);
}

#[test]
fn journal_stream_is_device_and_inode() {
    assert_eq!(JournalStream::parse("1:2").unwrap(), JournalStream::from_fd(1, 2));
    assert_eq!(JournalStream::parse("0:0").unwrap(), JournalStream::from_fd(0, 0));
    assert_eq!(JournalStream::parse("+8:+9").unwrap(), JournalStream::from_fd(8, 9));
    assert_eq!(
        JournalStream::parse("18446744073709551615:42").unwrap(),
        JournalStream::from_fd(u64::MAX, 42)
    );
    assert_ne!(JournalStream::parse("1:2").unwrap(), JournalStream::from_fd(2, 1));
}

#[test]
fn journal_stream_errors() {
    assert_eq!(
        JournalStream::parse("12").unwrap_err().msg(),
        "Failed to parse journal stream: Missing separator ':' in value '12'"
    );
    assert_eq!(
        JournalStream::parse("").unwrap_err().msg(),
        "Failed to parse journal stream: Missing separator ':' in value ''"
    );
    assert_eq!(
        JournalStream::parse(":2").unwrap_err().msg(),
        "Failed to parse journal stream: Device part is not a number '': cannot parse integer from empty string"
    );
    assert_eq!(
        JournalStream::parse("a:b").unwrap_err().msg(),
        "Failed to parse journal stream: Device part is not a number 'a': invalid digit found in string"
    );
    assert_eq!(
        JournalStream::parse("1:b").unwrap_err().msg(),
        "Failed to parse journal stream: Inode part is not a number 'b': invalid digit found in string"
    );
    assert_eq!(
        JournalStream::parse("1:2:3").unwrap_err().msg(),
        "Failed to parse journal stream: Inode part is not a number '2:3': invalid digit found in string"
    );
    assert_eq!(
        JournalStream::parse("1:").unwrap_err().msg(),
        "Failed to parse journal stream: Inode part is not a number '': cannot parse integer from empty string"
    );
    assert_eq!(
        JournalStream::parse("ä:18446744073709551616").unwrap_err().msg(),
        "Failed to parse journal stream: Device part is not a number 'ä': invalid digit found in string"
    );
    assert_eq!(
        JournalStream::parse("1:18446744073709551616").unwrap_err().msg(),
        "Failed to parse journal stream: Inode part is not a number '18446744073709551616': number too large to fit in target type"
    );
}

#[test]
fn journal_stream_from_the_environment() {
    assert_eq!(JournalStream::from_env_default(Some("3:4")).unwrap(), JournalStream::from_fd(3, 4));
    assert_eq!(
        JournalStream::from_env_default(None).unwrap_err().msg(),
        "Failed to parse journal stream: Environment variable \"JOURNAL_STREAM\" unset"
    );
    assert_eq!(
        JournalStream::from_env_default(Some("x")).unwrap_err().msg(),
        "Failed to parse journal stream: Missing separator ':' in value 'x'"
    );
}

#[test]
fn connected_where_a_stream_is_the_named_one() {
    let named = Some(JournalStream::from_fd(1, 2));
    let other = Some(JournalStream::from_fd(1, 3));
    assert!(connected_to_journal(named, named, other));
    assert!(connected_to_journal(named, other, named));
    assert!(connected_to_journal(named, named, None));
    assert!(!connected_to_journal(named, other, other));
    assert!(!connected_to_journal(named, None, None));
    assert!(!connected_to_journal(None, other, other));
    assert!(connected_to_journal(None, None, other));
    assert!(connected_to_journal(None, other, None));
}
