use tello::COMMAND_REPLY_CAPACITY;
use tello::CommunicationError;
use tello::TELEMETRY_CAPACITY;
use tello::decode_datagram;

#[test]
fn buffer_capacities() {
    assert_eq!(COMMAND_REPLY_CAPACITY, 10);
    assert_eq!(TELEMETRY_CAPACITY, 150);
}

#[test]
fn decode_short_reply() {
    let buf = b"ok\0\0\0\0\0\0\0\0";
    let text = decode_datagram(buf, 2).unwrap();
    assert_eq!(text.as_str(), "ok");
}

#[test]
fn decode_full_payload_unmodified() {
    let payload = b"pitch:0;roll:0;yaw:0;vgx:0;vgy:0;vgz:0;bat:87;";
    let mut buf = [0u8; 150];
    buf[..payload.len()].copy_from_slice(payload);
    let text = decode_datagram(&buf, payload.len()).unwrap();
    assert_eq!(text.as_bytes(), payload);
}

#[test]
fn decode_empty_datagram() {
    let buf = [0u8; 10];
    let text = decode_datagram(&buf, 0).unwrap();
    assert_eq!(text.as_str(), "");
}

#[test]
fn decode_invalid_bytes_fails() {
    let buf = [0xffu8, 0xfe, 0, 0];
    let err = decode_datagram(&buf, 2).unwrap_err();
    assert_eq!(err, CommunicationError::DecodeError);
}

#[test]
fn truncation_on_character_boundary_keeps_prefix() {
    // "état" encoded in UTF-8 is 5 bytes; cutting after 3 keeps "ét"
    let payload = "état".as_bytes();
    assert_eq!(payload.len(), 5);
    let text = decode_datagram(payload, 3).unwrap();
    assert_eq!(text.as_str(), "ét");
}

#[test]
fn truncation_inside_a_character_fails() {
    // cutting after 2 bytes splits the second character's two-byte encoding
    let payload = "aé".as_bytes();
    assert_eq!(payload.len(), 3);
    let err = decode_datagram(payload, 2).unwrap_err();
    assert_eq!(err, CommunicationError::DecodeError);
}

#[test]
fn reply_longer_than_buffer_is_truncated() {
    // what a 10-byte command buffer keeps of a verbose reply
    let reply = b"error Not joystick";
    let mut buf = [0u8; 10];
    buf.copy_from_slice(&reply[..10]);
    let text = decode_datagram(&buf, buf.len()).unwrap();
    assert_eq!(text.as_str(), "error Not ");
}
