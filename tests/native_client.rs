use whaswapp::keyboard::{next_chat, prev_chat};
use whaswapp::native::{client_notification, session_db_url, ClientEvent};

#[test]
fn client_events_become_notifications() {
    assert_eq!(
        client_notification(&ClientEvent::PairingQrCode("2@abc".to_string())),
        Some(("qr_code".to_string(), "2@abc".to_string()))
    );
    assert_eq!(
        client_notification(&ClientEvent::Connected),
        Some(("connection_status".to_string(), "connected".to_string()))
    );
    assert_eq!(
        client_notification(&ClientEvent::Disconnected),
        Some(("connection_status".to_string(), "disconnected".to_string()))
    );
    assert_eq!(
        client_notification(&ClientEvent::Message),
        Some(("message".to_string(), "New Message".to_string()))
    );
    assert_eq!(client_notification(&ClientEvent::Other), None);
}

#[test]
fn session_database_address() {
    assert_eq!(session_db_url("/data/session.db"), "sqlite:/data/session.db?mode=rwc");
}

#[test]
fn chat_selection_wraps_around() {
    assert_eq!(next_chat(0, 3), 1);
    assert_eq!(next_chat(2, 3), 0);
    assert_eq!(prev_chat(0, 3), 2);
    assert_eq!(prev_chat(2, 3), 1);
    assert_eq!(next_chat(0, 1), 0);
}
