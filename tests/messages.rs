use ardu_temp::ParseError;

#[test]
fn message_too_short() {
    assert_eq!(ParseError::TooShort(12).message(), "Packet too short: 12 bytes");
    assert_eq!(ParseError::TooShort(0).message(), "Packet too short: 0 bytes");
    assert_eq!(ParseError::TooShort(1203).message(), "Packet too short: 1203 bytes");
}

#[test]
fn message_crc_mismatch() {
    let e = ParseError::CrcMismatch { received: 0xFF, calculated: 0x0A };
    assert_eq!(e.message(), "CRC mismatch: received 0xFF, calculated 0x0A");
}

#[test]
fn message_invalid_command() {
    assert_eq!(ParseError::InvalidCommand(0x21).message(), "Invalid command byte: 0x21");
    assert_eq!(ParseError::InvalidCommand(0x00).message(), "Invalid command byte: 0x00");
}

#[test]
fn message_unexpected_count() {
    assert_eq!(ParseError::UnexpectedTempCount(3).message(), "Unexpected temp count: 3");
    assert_eq!(ParseError::UnexpectedTempCount(255).message(), "Unexpected temp count: 255");
}
