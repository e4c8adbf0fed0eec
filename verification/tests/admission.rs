use collar_relay::hub::Hub;
use collar_relay::session::{
    check_key, open_controller_session, open_device_session, Admission,
};

#[test]
fn key_check_grants_only_on_exact_match() {
    let secret = "SECRET-REDACTED".to_string();
    let same = "SECRET-REDACTED".to_string();
    let other = "SECRET-REDACTED-2".to_string();
    assert_eq!(check_key(Some(&same), &secret), Admission::Granted);
    assert_eq!(check_key(Some(&other), &secret), Admission::WrongKey);
    assert_eq!(check_key(None, &secret), Admission::MissingKey);
}

#[test]
fn unauthenticated_device_attempt_creates_no_session() {
    let mut hub = Hub::new();
    let secret = "SECRET-REDACTED".to_string();
    let wrong = "guess".to_string();

    let r = open_device_session(&mut hub, None, &secret);
    assert_eq!(r.err(), Some(Admission::MissingKey));
    let r = open_device_session(&mut hub, Some(&wrong), &secret);
    assert_eq!(r.err(), Some(Admission::WrongKey));

    // The rejected attempts left no trace: no subscriber, no announcement.
    assert_eq!(hub.command_subscriber_count(), 0);
    assert!(hub.recv_status().is_none());
}

#[test]
fn authenticated_device_attaches_and_announces() {
    let mut hub = Hub::new();
    let secret = "SECRET-REDACTED".to_string();
    let same = "SECRET-REDACTED".to_string();
    let session = open_device_session(&mut hub, Some(&same), &secret).unwrap();
    assert_eq!(hub.command_subscriber_count(), 1);
    let online = hub.recv_status().unwrap();
    assert_eq!(online.status_code(), 201);
    assert_eq!(online.message_text(), "Pet is online");
    assert_eq!(*online.action_required(), None);
    drop(session);
}

#[test]
fn unauthenticated_controller_attempt_creates_no_session() {
    let secret = "SECRET-REDACTED".to_string();
    let wrong = "guess".to_string();
    assert_eq!(open_controller_session(None, &secret).err(), Some(Admission::MissingKey));
    assert_eq!(
        open_controller_session(Some(&wrong), &secret).err(),
        Some(Admission::WrongKey)
    );
    let same = "SECRET-REDACTED".to_string();
    let mut session = open_controller_session(Some(&same), &secret).unwrap();
    // Ending either sub-task ends the session; nothing observable is emitted.
    session.teardown();
}
