use tello::CommandExchange;
use tello::TelloCommand;
use tello::command_text;
use tello::get_tello_command_data;

#[test]
fn encode_set_sdk() {
    assert_eq!(get_tello_command_data(&TelloCommand::SetSDK), b"command".to_vec());
}

#[test]
fn encode_takeoff() {
    assert_eq!(get_tello_command_data(&TelloCommand::Takeoff), b"takeoff".to_vec());
}

#[test]
fn encode_land() {
    assert_eq!(get_tello_command_data(&TelloCommand::Land), b"land".to_vec());
}

#[test]
fn encode_stream_toggle() {
    assert_eq!(get_tello_command_data(&TelloCommand::StreamOn), b"streamon".to_vec());
    assert_eq!(get_tello_command_data(&TelloCommand::StreamOff), b"streamoff".to_vec());
}

#[test]
fn encode_emergency_and_stop() {
    assert_eq!(get_tello_command_data(&TelloCommand::Emergency), b"emergency".to_vec());
    assert_eq!(get_tello_command_data(&TelloCommand::Stop), b"stop".to_vec());
}

#[test]
fn encode_motion_commands() {
    assert_eq!(get_tello_command_data(&TelloCommand::Up { x: 50 }), b"up 50".to_vec());
    assert_eq!(get_tello_command_data(&TelloCommand::Down { x: 0 }), b"down 0".to_vec());
    assert_eq!(get_tello_command_data(&TelloCommand::Left { x: 7 }), b"left 7".to_vec());
    assert_eq!(get_tello_command_data(&TelloCommand::Right { x: 123 }), b"right 123".to_vec());
    assert_eq!(get_tello_command_data(&TelloCommand::Forward { x: 500 }), b"forward 500".to_vec());
    assert_eq!(get_tello_command_data(&TelloCommand::Back { x: 20 }), b"back 20".to_vec());
}

#[test]
fn encode_rotation_commands() {
    assert_eq!(get_tello_command_data(&TelloCommand::RotateCW { x: 90 }), b"cw 90".to_vec());
    assert_eq!(get_tello_command_data(&TelloCommand::RotateCCW { x: 360 }), b"ccw 360".to_vec());
}

#[test]
fn encode_flip() {
    assert_eq!(get_tello_command_data(&TelloCommand::Flip { x: 'f' }), b"flip f".to_vec());
    assert_eq!(get_tello_command_data(&TelloCommand::Flip { x: 'l' }), b"flip l".to_vec());
}

#[test]
fn encode_go() {
    assert_eq!(
        get_tello_command_data(&TelloCommand::Go { x: 10, y: 20, z: 30, speed: 40 }),
        b"go 10 20 30 40".to_vec()
    );
}

#[test]
fn encode_queries() {
    assert_eq!(get_tello_command_data(&TelloCommand::ReadSpeed), b"speed?".to_vec());
    assert_eq!(get_tello_command_data(&TelloCommand::ReadBatt), b"battery?".to_vec());
    assert_eq!(get_tello_command_data(&TelloCommand::ReadFlightTime), b"time?".to_vec());
    assert_eq!(get_tello_command_data(&TelloCommand::ReadWifi), b"wifi?".to_vec());
    assert_eq!(get_tello_command_data(&TelloCommand::ReadSdk), b"sdk?".to_vec());
    assert_eq!(get_tello_command_data(&TelloCommand::ReadSerial), b"sn?".to_vec());
}

#[test]
fn encode_largest_parameters() {
    assert_eq!(
        get_tello_command_data(&TelloCommand::Up { x: u32::MAX }),
        b"up 4294967295".to_vec()
    );
}

#[test]
fn encoding_is_deterministic() {
    let first = get_tello_command_data(&TelloCommand::Go { x: 1, y: 2, z: 3, speed: 4 });
    let second = get_tello_command_data(&TelloCommand::Go { x: 1, y: 2, z: 3, speed: 4 });
    assert_eq!(first, second);
    let one = get_tello_command_data(&TelloCommand::Flip { x: 'b' });
    let two = get_tello_command_data(&TelloCommand::Flip { x: 'b' });
    assert_eq!(one, two);
}

#[test]
fn command_text_matches_bytes() {
    let text = command_text(&TelloCommand::Go { x: 10, y: 20, z: 30, speed: 40 });
    assert_eq!(text.as_str(), "go 10 20 30 40");
    let text = command_text(&TelloCommand::Up { x: 50 });
    assert_eq!(text.as_str(), "up 50");
}

#[test]
fn distinct_commands_encode_differently() {
    // a few pairs that come close on the wire
    assert_ne!(
        get_tello_command_data(&TelloCommand::Up { x: 50 }),
        get_tello_command_data(&TelloCommand::Up { x: 5 })
    );
    assert_ne!(
        get_tello_command_data(&TelloCommand::RotateCW { x: 1 }),
        get_tello_command_data(&TelloCommand::RotateCCW { x: 1 })
    );
    assert_ne!(
        get_tello_command_data(&TelloCommand::StreamOn),
        get_tello_command_data(&TelloCommand::StreamOff)
    );
    assert_ne!(
        get_tello_command_data(&TelloCommand::Go { x: 1, y: 11, z: 1, speed: 1 }),
        get_tello_command_data(&TelloCommand::Go { x: 11, y: 1, z: 1, speed: 1 })
    );
}

#[test]
fn exchange_round_trip_with_echoing_vehicle() {
    // a command channel against a vehicle double that replies "ok"
    let mut exchange = CommandExchange::new();
    let datagram = exchange.begin(&TelloCommand::Takeoff);
    assert_eq!(datagram, b"takeoff".to_vec());
    // the double's reply arrives in the fixed-size receive buffer
    let mut buf = [0u8; 10];
    let reply = b"ok";
    buf[..reply.len()].copy_from_slice(reply);
    let response = exchange.complete(&buf, reply.len());
    assert_eq!(response.unwrap().as_str(), "ok");
}
