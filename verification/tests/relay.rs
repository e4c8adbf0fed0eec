use collar_relay::commands::{Command, Modes};
use collar_relay::controller::{controller_read_step, controller_write_step};
use collar_relay::device::{device_read_step, writer_ack_decide, AckSignal, DeviceWriter, WriterAckDecision};
use collar_relay::hub::Hub;
use collar_relay::keepalive::{keep_alive_command, run_keep_alive_window, KeepAliveTimer};
use collar_relay::messages::{ActionType, Message, MessageTyp};
use collar_relay::session::{open_device_session, InboundFrame};

fn text(s: &str) -> InboundFrame {
    InboundFrame::Text(s.as_bytes().to_vec())
}

#[test]
fn admission_control_drops_command_when_no_device_attached() {
    let mut hub = Hub::new();
    assert_eq!(hub.command_subscriber_count(), 0);
    let cont = controller_read_step(&mut hub, &text("{\"mode\":\"beep\",\"level\":50,\"duration\":300}"));
    assert!(cont);
    // The command never reaches the device side.
    assert_eq!(hub.recv_command(), None);
    // Exactly one PetOffline/Reconnect status is on the stream.
    let status = hub.recv_status().unwrap();
    assert_eq!(status.status_code(), 400);
    assert_eq!(status.message_text(), "Pet went offline");
    assert_eq!(
        *status.action_required(),
        Some("Request reconnect from pet".to_string())
    );
    assert!(hub.recv_status().is_none());
}

#[test]
fn invalid_command_draws_notice_but_is_still_forwarded() {
    let mut hub = Hub::new();
    hub.subscribe_commands();
    let cont = controller_read_step(&mut hub, &text("{\"mode\":\"beep\",\"level\":0,\"duration\":300}"));
    assert!(cont);
    let status = hub.recv_status().unwrap();
    assert_eq!(status.status_code(), 400);
    assert_eq!(status.message_text(), "Invalid command");
    // Validation is advisory: the out-of-range command is forwarded anyway.
    assert_eq!(
        hub.recv_command(),
        Some(Command { mode: Modes::Beep, level: 0, duration: 300 })
    );
}

#[test]
fn malformed_frame_draws_invalid_params_and_keeps_the_connection() {
    let mut hub = Hub::new();
    hub.subscribe_commands();
    let cont = controller_read_step(&mut hub, &text("{\"mode\":\"beep\""));
    assert!(cont);
    let status = hub.recv_status().unwrap();
    assert_eq!(status.status_code(), 400);
    assert_eq!(status.message_text(), "Invalid parameters");
    assert_eq!(*status.action_required(), None);
    assert_eq!(hub.recv_command(), None);
}

#[test]
fn close_frame_terminates_the_controller_reader_silently() {
    let mut hub = Hub::new();
    assert!(!controller_read_step(&mut hub, &InboundFrame::Close));
    assert!(!controller_read_step(&mut hub, &InboundFrame::ReadError));
    assert!(!controller_read_step(&mut hub, &InboundFrame::StreamEnd));
    assert!(controller_read_step(&mut hub, &InboundFrame::Other));
    assert!(hub.recv_status().is_none());
}

#[test]
fn command_channel_is_bounded_and_lossy() {
    let mut hub = Hub::new();
    hub.subscribe_commands();
    for level in 1..=7i8 {
        let frame = format!("{{\"mode\":\"led\",\"level\":{},\"duration\":10}}", level);
        controller_read_step(&mut hub, &text(&frame));
    }
    // Capacity is five: the two oldest commands were evicted.
    for level in 3..=7i8 {
        assert_eq!(
            hub.recv_command(),
            Some(Command { mode: Modes::Led, level, duration: 10 })
        );
    }
    assert_eq!(hub.recv_command(), None);
}

#[test]
fn device_writer_single_in_flight_and_ack_resolution() {
    let mut hub = Hub::new();
    hub.subscribe_commands();
    controller_read_step(&mut hub, &text("{\"mode\":\"vibey\",\"level\":10,\"duration\":20}"));
    let mut writer = DeviceWriter::new();
    let frame = writer.next_frame(&mut hub).unwrap();
    assert_eq!(frame, b"{\"mode\":3,\"level\":10,\"duration\":20}".to_vec());
    // The reader hears the device's bare "ack" and wakes the writer.
    assert!(device_read_step(&mut hub, &text("ack")));
    let signal = AckSignal::Delivered(hub.recv_device_ack().unwrap());
    let alive = writer.resolve_ack(&mut hub, signal);
    assert!(alive);
    let status = hub.recv_status().unwrap();
    assert_eq!(status.status_code(), 200);
    assert!(status.is_ack());
}

#[test]
fn device_writer_terminates_on_foreign_reply_or_dead_channel() {
    let mut hub = Hub::new();
    hub.subscribe_commands();
    controller_read_step(&mut hub, &text("{\"mode\":\"led\",\"level\":10,\"duration\":20}"));
    let mut writer = DeviceWriter::new();
    writer.next_frame(&mut hub).unwrap();
    assert!(!writer.resolve_ack(&mut hub, AckSignal::Closed));

    controller_read_step(&mut hub, &text("{\"mode\":\"led\",\"level\":10,\"duration\":20}"));
    let mut writer = DeviceWriter::new();
    writer.next_frame(&mut hub).unwrap();
    // A message that is not the acknowledgement terminates the writer too.
    device_read_step(
        &mut hub,
        &InboundFrame::Close, // publishes a PetOffline status, not a write ack
    );
    let foreign = hub.recv_status().unwrap();
    assert!(!writer.resolve_ack(&mut hub, AckSignal::Delivered(foreign)));
}

#[test]
fn device_send_failure_reports_offline_then_escalates_on_close_failure() {
    let mut hub = Hub::new();
    hub.subscribe_commands();
    controller_read_step(&mut hub, &text("{\"mode\":\"led\",\"level\":10,\"duration\":20}"));
    let mut writer = DeviceWriter::new();
    writer.next_frame(&mut hub).unwrap();
    writer.on_send_failure(&mut hub);
    let status = hub.recv_status().unwrap();
    assert_eq!(status.status_code(), 500);
    assert_eq!(status.message_text(), "Pet went offline");
    collar_relay::device::report_close_failure(&mut hub);
    let status = hub.recv_status().unwrap();
    assert_eq!(status.status_code(), 500);
    assert_eq!(status.message_text(), "Pet went offline with an unrecoverable error");
    assert_eq!(
        *status.action_required(),
        Some("Request reconnect and reboot from pet".to_string())
    );
}

#[test]
fn device_reader_ignores_foreign_text_and_signs_off_on_close() {
    let mut hub = Hub::new();
    assert!(device_read_step(&mut hub, &text("something else")));
    assert!(hub.recv_device_ack().is_none());
    assert!(device_read_step(&mut hub, &InboundFrame::Other));
    assert!(!device_read_step(&mut hub, &InboundFrame::StreamEnd));
    let status = hub.recv_status().unwrap();
    assert_eq!(status.status_code(), 200);
    assert_eq!(status.message_text(), "Pet went offline");
    assert_eq!(
        *status.action_required(),
        Some("Request reconnect and reboot from pet".to_string())
    );
    // A read error terminates silently.
    assert!(!device_read_step(&mut hub, &InboundFrame::ReadError));
    assert!(hub.recv_status().is_none());
}

#[test]
fn session_teardown_emits_exactly_one_terminal_status() {
    let mut hub = Hub::new();
    let key = "SECRET-REDACTED".to_string();
    let mut session = open_device_session(&mut hub, Some(&key), &key).unwrap();
    assert_eq!(hub.command_subscriber_count(), 1);
    // Attaching announces the device.
    let online = hub.recv_status().unwrap();
    assert_eq!(online.status_code(), 201);
    assert_eq!(online.message_text(), "Pet is online");
    session.teardown(&mut hub);
    assert_eq!(hub.command_subscriber_count(), 0);
    let terminal = hub.recv_status().unwrap();
    assert_eq!(terminal.status_code(), 500);
    assert_eq!(terminal.message_text(), "Pet went offline");
    assert_eq!(
        *terminal.action_required(),
        Some("Request reconnect from pet".to_string())
    );
    // Nothing further is emitted.
    assert!(hub.recv_status().is_none());
}

#[test]
fn keep_alive_window_of_three_periods_emits_three_of_each() {
    let mut hub = Hub::new();
    hub.subscribe_commands();
    let mut timer = KeepAliveTimer::new(120);
    run_keep_alive_window(&mut hub, &mut timer, 3);
    // Exactly three synthetic commands entered the command channel.
    for _ in 0..3 {
        assert_eq!(hub.recv_command(), Some(keep_alive_command()));
    }
    assert_eq!(hub.recv_command(), None);
    // The status channel is latest-only; the undrained item is the keep-alive.
    let status = hub.recv_status().unwrap();
    assert_eq!(status.status_code(), 200);
    assert_eq!(status.message_text(), "Awaiting ACK to confirm Keep alive response");
    assert!(hub.recv_status().is_none());
    assert_eq!(keep_alive_command(), Command { mode: Modes::Led, level: 50, duration: 500 });
}

#[test]
fn keep_alive_per_tick_emission_is_observable() {
    let mut hub = Hub::new();
    hub.subscribe_commands();
    let mut timer = KeepAliveTimer::new(120);
    for _ in 0..3 {
        run_keep_alive_window(&mut hub, &mut timer, 1);
        let status = hub.recv_status().unwrap();
        assert_eq!(status.status_code(), 200);
        assert_eq!(status.message_text(), "Awaiting ACK to confirm Keep alive response");
        assert!(hub.recv_status().is_none());
        assert_eq!(hub.recv_command(), Some(keep_alive_command()));
        assert_eq!(hub.recv_command(), None);
    }
}

#[test]
fn end_to_end_command_ack_scenario() {
    let mut hub = Hub::new();
    let device_key = "SECRET-REDACTED".to_string();
    let _session = open_device_session(&mut hub, Some(&device_key), &device_key).unwrap();
    let online_frame = controller_write_step(&mut hub).unwrap();
    assert_eq!(
        online_frame,
        b"{\"statusCode\":201,\"message\":\"Pet is online\"}".to_vec()
    );

    // Controller sends a beep command with a device attached.
    let cont = controller_read_step(&mut hub, &text("{\"mode\":\"beep\",\"level\":50,\"duration\":300}"));
    assert!(cont);

    // The device writer picks it up and serializes it with the numeric mode.
    let mut writer = DeviceWriter::new();
    let device_frame = writer.next_frame(&mut hub).unwrap();
    assert_eq!(device_frame, b"{\"mode\":2,\"level\":50,\"duration\":300}".to_vec());

    // The device replies "ack"; the reader publishes the write ack.
    assert!(device_read_step(&mut hub, &text("ack")));
    let ack = hub.recv_device_ack().unwrap();
    assert!(writer.resolve_ack(&mut hub, AckSignal::Delivered(ack)));

    // The controller's status stream receives the acknowledgement, no action.
    let status_frame = controller_write_step(&mut hub).unwrap();
    assert_eq!(status_frame, b"{\"statusCode\":200,\"message\":\"ack\"}".to_vec());
    assert!(controller_write_step(&mut hub).is_none());
}

#[test]
fn status_channel_keeps_only_the_latest_item() {
    let mut hub = Hub::new();
    // Two malformed frames in a burst: the slot holds one item, latest only,
    // so an undrained status is superseded rather than queued.
    controller_read_step(&mut hub, &text("{"));
    controller_read_step(&mut hub, &text("}"));
    let status = hub.recv_status().unwrap();
    assert_eq!(status.message_text(), "Invalid parameters");
    assert!(hub.recv_status().is_none());
}

#[test]
fn read_ack_channel_is_latest_only() {
    let mut hub = Hub::new();
    assert!(hub.recv_read_ack().is_none());
    hub.publish_read_ack(Message::new(200, MessageTyp::ACK, ActionType::NoAction));
    hub.publish_read_ack(Message::new(201, MessageTyp::PetOnline, ActionType::NoAction));
    let latest = hub.recv_read_ack().unwrap();
    assert_eq!(latest.status_code(), 201);
    assert!(hub.recv_read_ack().is_none());
}

#[test]
fn writer_ack_decision_matches_the_outcome() {
    let ack = Message::new(200, MessageTyp::ACK, ActionType::NoAction);
    match writer_ack_decide(AckSignal::Delivered(ack)) {
        WriterAckDecision::Acknowledge(status) => {
            assert_eq!(status.status_code(), 200);
            assert!(status.is_ack());
        }
        WriterAckDecision::Stop => panic!("an acknowledgement must continue the writer"),
    }
    let foreign = Message::new(201, MessageTyp::PetOnline, ActionType::NoAction);
    assert!(matches!(
        writer_ack_decide(AckSignal::Delivered(foreign)),
        WriterAckDecision::Stop
    ));
    assert!(matches!(writer_ack_decide(AckSignal::Closed), WriterAckDecision::Stop));
}
