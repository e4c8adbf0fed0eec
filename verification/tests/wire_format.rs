use collar_relay::commands::{Command, Modes};
use collar_relay::messages::{ActionType, Message, MessageTyp};
use collar_relay::wire::{encode_device_frame, encode_status_frame, is_ack_frame, parse_command};

fn parse(text: &str) -> Option<Command> {
    parse_command(&text.as_bytes().to_vec())
}

#[test]
fn device_frame_uses_numeric_mode() {
    let cmd = Command { mode: Modes::Beep, level: 50, duration: 300 };
    let frame = encode_device_frame(&cmd);
    assert_eq!(frame, b"{\"mode\":2,\"level\":50,\"duration\":300}".to_vec());
}

#[test]
fn device_frame_renders_negative_and_extreme_fields() {
    let cmd = Command { mode: Modes::Zappy, level: -128, duration: -32768 };
    let frame = encode_device_frame(&cmd);
    assert_eq!(frame, b"{\"mode\":4,\"level\":-128,\"duration\":-32768}".to_vec());
}

#[test]
fn status_frame_without_action_omits_the_member() {
    let msg = Message::new(200, MessageTyp::ACK, ActionType::NoAction);
    let frame = encode_status_frame(&msg);
    assert_eq!(frame, b"{\"statusCode\":200,\"message\":\"ack\"}".to_vec());
}

#[test]
fn status_frame_with_action_carries_the_member() {
    let msg = Message::new(500, MessageTyp::PetOffline, ActionType::Reconnect);
    let frame = encode_status_frame(&msg);
    assert_eq!(
        frame,
        b"{\"statusCode\":500,\"message\":\"Pet went offline\",\"petActionRequired\":\"Request reconnect from pet\"}".to_vec()
    );
}

#[test]
fn parse_accepts_plain_command() {
    let cmd = parse("{\"mode\":\"beep\",\"level\":50,\"duration\":300}").unwrap();
    assert_eq!(cmd, Command { mode: Modes::Beep, level: 50, duration: 300 });
}

#[test]
fn parse_accepts_any_member_order_and_whitespace() {
    let cmd = parse(" { \"duration\" : 1000 , \"mode\" : \"zappy\" , \"level\" : 100 } ").unwrap();
    assert_eq!(cmd, Command { mode: Modes::Zappy, level: 100, duration: 1000 });
    let cmd = parse("{\"level\":1,\"duration\":1,\"mode\":\"led\"}").unwrap();
    assert_eq!(cmd, Command { mode: Modes::Led, level: 1, duration: 1 });
    let cmd = parse("{\"mode\":\"vibey\",\"duration\":2,\"level\":3}").unwrap();
    assert_eq!(cmd, Command { mode: Modes::Vibey, level: 3, duration: 2 });
}

#[test]
fn parse_accepts_out_of_validity_range_but_in_machine_range() {
    // Range validity is advisory and checked later; the parser only enforces
    // the fields' machine ranges, as the typed deserialization did.
    let cmd = parse("{\"mode\":\"beep\",\"level\":-7,\"duration\":1001}").unwrap();
    assert_eq!(cmd, Command { mode: Modes::Beep, level: -7, duration: 1001 });
}

#[test]
fn parse_rejects_unrecognized_mode_token() {
    assert_eq!(parse("{\"mode\":\"laser\",\"level\":50,\"duration\":300}"), None);
    assert_eq!(parse("{\"mode\":\"LED\",\"level\":50,\"duration\":300}"), None);
    assert_eq!(parse("{\"mode\":2,\"level\":50,\"duration\":300}"), None);
}

#[test]
fn parse_rejects_wrong_shapes() {
    assert_eq!(parse(""), None);
    assert_eq!(parse("not json"), None);
    assert_eq!(parse("{\"mode\":\"beep\",\"level\":50}"), None);
    assert_eq!(parse("{\"mode\":\"beep\",\"level\":50,\"duration\":300,\"extra\":1}"), None);
    assert_eq!(parse("{\"mode\":\"beep\",\"level\":50,\"level\":60}"), None);
    assert_eq!(parse("{\"mode\":\"beep\",\"level\":\"50\",\"duration\":300}"), None);
    assert_eq!(parse("{\"mode\":\"beep\",\"level\":50,\"duration\":300} trailing"), None);
    assert_eq!(parse("[\"mode\",\"beep\"]"), None);
}

#[test]
fn parse_rejects_numbers_outside_machine_range() {
    assert_eq!(parse("{\"mode\":\"beep\",\"level\":128,\"duration\":300}"), None);
    assert_eq!(parse("{\"mode\":\"beep\",\"level\":-129,\"duration\":300}"), None);
    assert_eq!(parse("{\"mode\":\"beep\",\"level\":50,\"duration\":32768}"), None);
    assert_eq!(parse("{\"mode\":\"beep\",\"level\":50,\"duration\":99999999999999999999}"), None);
}

#[test]
fn parse_rejects_malformed_numbers() {
    assert_eq!(parse("{\"mode\":\"beep\",\"level\":007,\"duration\":300}"), None);
    assert_eq!(parse("{\"mode\":\"beep\",\"level\":-,\"duration\":300}"), None);
    assert_eq!(parse("{\"mode\":\"beep\",\"level\":,\"duration\":300}"), None);
}

#[test]
fn parse_accepts_zero_and_negative_zero() {
    let cmd = parse("{\"mode\":\"led\",\"level\":0,\"duration\":-0}").unwrap();
    assert_eq!(cmd, Command { mode: Modes::Led, level: 0, duration: 0 });
}

#[test]
fn round_trip_through_device_frame_is_not_identity() {
    // The device frame replaces the mode token by its numeric code, so the
    // device frame of a parsed command is not the inbound text.
    let text = "{\"mode\":\"led\",\"level\":9,\"duration\":40}";
    let cmd = parse(text).unwrap();
    let frame = encode_device_frame(&cmd);
    assert_eq!(frame, b"{\"mode\":1,\"level\":9,\"duration\":40}".to_vec());
    assert_ne!(frame, text.as_bytes().to_vec());
}

#[test]
fn ack_frame_recognition() {
    assert!(is_ack_frame(&b"ack".to_vec()));
    assert!(!is_ack_frame(&b"ACK".to_vec()));
    assert!(!is_ack_frame(&b"ack ".to_vec()));
    assert!(!is_ack_frame(&b"".to_vec()));
}

#[test]
fn message_strings_on_the_wire() {
    let m = Message::new(400, MessageTyp::InvalidParams, ActionType::NoAction);
    assert_eq!(m.status_code(), 400);
    assert_eq!(m.message_text(), "Invalid parameters");
    assert_eq!(*m.action_required(), None);
    let m = Message::new(500, MessageTyp::PetUnrecoverableError, ActionType::RebootReconnect);
    assert_eq!(m.message_text(), "Pet went offline with an unrecoverable error");
    assert_eq!(
        *m.action_required(),
        Some("Request reconnect and reboot from pet".to_string())
    );
    let m = Message::new(200, MessageTyp::KeepAlive, ActionType::Reboot);
    assert_eq!(m.message_text(), "Awaiting ACK to confirm Keep alive response");
    assert_eq!(*m.action_required(), Some("Request reboot from pet".to_string()));
}

#[test]
fn message_type_round_trips_through_every_built_message() {
    let kinds = [
        MessageTyp::ACK,
        MessageTyp::InvalidParams,
        MessageTyp::InvalidCommand,
        MessageTyp::PetOffline,
        MessageTyp::PetUnrecoverableError,
        MessageTyp::PetOnline,
        MessageTyp::KeepAlive,
    ];
    for kind in kinds {
        let m = Message::new(200, kind, ActionType::NoAction);
        assert_eq!(m.get_type(), kind);
        assert_eq!(m.is_ack(), matches!(kind, MessageTyp::ACK));
    }
}

#[test]
fn from_string_inverts_to_string_on_every_kind() {
    let kinds = [
        MessageTyp::ACK,
        MessageTyp::InvalidParams,
        MessageTyp::InvalidCommand,
        MessageTyp::PetOffline,
        MessageTyp::PetUnrecoverableError,
        MessageTyp::PetOnline,
        MessageTyp::KeepAlive,
    ];
    for kind in kinds {
        assert_eq!(MessageTyp::from_string(&kind.to_string()), kind);
    }
}

#[test]
fn from_string_maps_each_fixed_wire_string() {
    assert_eq!(MessageTyp::from_string(&"ack".to_string()), MessageTyp::ACK);
    assert_eq!(
        MessageTyp::from_string(&"Invalid parameters".to_string()),
        MessageTyp::InvalidParams
    );
    assert_eq!(
        MessageTyp::from_string(&"Invalid command".to_string()),
        MessageTyp::InvalidCommand
    );
    assert_eq!(
        MessageTyp::from_string(&"Pet went offline".to_string()),
        MessageTyp::PetOffline
    );
    assert_eq!(
        MessageTyp::from_string(&"Pet went offline with an unrecoverable error".to_string()),
        MessageTyp::PetUnrecoverableError
    );
    assert_eq!(
        MessageTyp::from_string(&"Pet is online".to_string()),
        MessageTyp::PetOnline
    );
    assert_eq!(
        MessageTyp::from_string(&"Awaiting ACK to confirm Keep alive response".to_string()),
        MessageTyp::KeepAlive
    );
}
