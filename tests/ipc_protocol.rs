use serde_json::Value;
use whaswapp::ipc::{
    decode_event, disconnect_command, dispatch, encode_command, handle_line, init_command,
    send_message_command, CommandKind, Dispatch,
};

fn json(text: &str) -> Value {
    serde_json::from_str(text).unwrap()
}

fn notification(d: &Dispatch) -> Option<(String, String)> {
    match d {
        Dispatch::Notify { name, payload } => Some((name.clone(), payload.clone())),
        _ => None,
    }
}

#[test]
fn send_message_command_line() {
    let cmd = send_message_command("123@s.whatsapp.net".to_string(), "hi \"you\"\n".to_string());
    assert_eq!(cmd.kind, CommandKind::SendMessage);
    assert_eq!(
        encode_command(&cmd),
        "{\"type\":\"send_message\",\"payload\":{\"content\":\"hi \\\"you\\\"\\n\",\"jid\":\"123@s.whatsapp.net\"}}\n"
    );
}

#[test]
fn init_command_carries_the_snapshot() {
    let none = init_command(None, None);
    assert_eq!(encode_command(&none), "{\"type\":\"init\",\"payload\":{\"auth_data\":{\"creds\":null,\"keys\":null}}}\n");
    let some = init_command(Some(json(r#"{"me": 1}"#)), Some(json(r#"{"k": {}}"#)));
    assert_eq!(some.payload, json(r#"{"auth_data": {"creds": {"me": 1}, "keys": {"k": {}}}}"#));
}

#[test]
fn disconnect_command_line() {
    assert_eq!(encode_command(&disconnect_command()), "{\"type\":\"disconnect\",\"payload\":{}}\n");
}

#[test]
fn encoded_line_has_one_line_break_at_the_end() {
    let cmd = send_message_command("a\nb".to_string(), "c\nd".to_string());
    let line = encode_command(&cmd);
    assert!(line.ends_with('\n'));
    assert_eq!(line.matches('\n').count(), 1);
}

#[test]
fn decode_reads_type_and_payload() {
    let e = decode_event(r#"{"type":"qr_code","payload":"ABC123","extra":1}"#).unwrap();
    assert_eq!(e.kind, "qr_code");
    assert_eq!(e.payload, json(r#""ABC123""#));
    assert!(decode_event("not json").is_none());
    assert!(decode_event(r#"{"type":"qr_code"}"#).is_none());
    assert!(decode_event(r#"{"type":5,"payload":1}"#).is_none());
    assert!(decode_event(r#"["qr_code","x"]"#).is_none());
}

#[test]
fn dispatch_table() {
    let qr = handle_line(r#"{"type":"qr_code","payload":"ABC123"}"#);
    assert_eq!(notification(&qr), Some(("qr_code".to_string(), "ABC123".to_string())));
    let status = handle_line(r#"{"type":"connection_status","payload":"open"}"#);
    assert_eq!(notification(&status), Some(("connection_status".to_string(), "open".to_string())));
    let msg = handle_line(r#"{"type":"message","payload":"hi"}"#);
    assert_eq!(notification(&msg), Some(("message".to_string(), "New Message: String(\"hi\")".to_string())));
    assert!(matches!(handle_line(r#"{"type":"qr_code","payload":7}"#), Dispatch::Ignore));
    assert!(matches!(handle_line(r#"{"type":"other","payload":"x"}"#), Dispatch::Ignore));
}

#[test]
fn auth_updates_are_routed() {
    match handle_line(r#"{"type":"auth_update","payload":{"type":"creds","data":{"me":1}}}"#) {
        Dispatch::StoreCreds(v) => assert_eq!(v, json(r#"{"me":1}"#)),
        _ => panic!("expected creds"),
    }
    match handle_line(r#"{"type":"auth_update","payload":{"type":"keys","data":{"k":{"a":null}}}}"#) {
        Dispatch::MergeKeys(v) => assert_eq!(v, json(r#"{"k":{"a":null}}"#)),
        _ => panic!("expected keys"),
    }
    assert!(matches!(
        handle_line(r#"{"type":"auth_update","payload":{"type":"other","data":1}}"#),
        Dispatch::Ignore
    ));
    assert!(matches!(handle_line(r#"{"type":"auth_update","payload":{"type":"keys"}}"#), Dispatch::Ignore));
}

#[test]
fn malformed_line_between_valid_lines() {
    let lines = [
        r#"{"type":"connection_status","payload":"connecting"}"#,
        r#"{"type": "qr_code", "payl"#,
        r#"{"type":"qr_code","payload":"ABC123"}"#,
    ];
    let done: Vec<(String, String)> = lines.iter().filter_map(|l| notification(&handle_line(l))).collect();
    assert_eq!(
        done,
        vec![
            ("connection_status".to_string(), "connecting".to_string()),
            ("qr_code".to_string(), "ABC123".to_string()),
        ]
    );
}

#[test]
fn dispatch_of_a_decoded_event() {
    let e = decode_event(r#"{"type":"connection_status","payload":"close"}"#).unwrap();
    assert_eq!(notification(&dispatch(e)), Some(("connection_status".to_string(), "close".to_string())));
}
