use store::broker::{payload_format, PayloadFormat};

#[test]
fn json_payloads_start_at_the_first_brace_or_bracket() {
    assert_eq!(payload_format(b"{\"a\":1}"), PayloadFormat::Json { start: 0 });
    assert_eq!(payload_format(b" \t\r\n\x0c[1]"), PayloadFormat::Json { start: 5 });
}

#[test]
fn other_payloads_are_bincode() {
    assert_eq!(payload_format(b""), PayloadFormat::Bincode);
    assert_eq!(payload_format(b"   "), PayloadFormat::Bincode);
    assert_eq!(payload_format(&[0u8, 1, 2]), PayloadFormat::Bincode);
    assert_eq!(payload_format(b"  x{"), PayloadFormat::Bincode);
    // A vertical tab is not ASCII whitespace for `u8::is_ascii_whitespace`.
    assert_eq!(payload_format(b"\x0b{}"), PayloadFormat::Bincode);
}

#[test]
fn agrees_with_std_whitespace() {
    for b in 0u8..=255 {
        let p = [b, b'{'];
        let expected = if b.is_ascii_whitespace() {
            PayloadFormat::Json { start: 1 }
        } else if b == b'{' || b == b'[' {
            PayloadFormat::Json { start: 0 }
        } else {
            PayloadFormat::Bincode
        };
        assert_eq!(payload_format(&p), expected);
    }
}
