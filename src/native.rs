//! The provider backed by the native protocol client: which of the client's
//! events reach the host, and under what name.
use vstd::prelude::*;

verus! {

/// The client's events, as far as the bridge tells them apart.
pub enum ClientEvent {
    /// A pairing QR code to show.
    PairingQrCode(String),
    Connected,
    Disconnected,
    /// A message arrived.
    Message,
    /// Anything else.
    Other,
}

/// The notification, name and text, that an event leads to.
pub open spec fn notification_of(e: ClientEvent) -> Option<(Seq<char>, Seq<char>)> {
    match e {
        ClientEvent::PairingQrCode(code) => Some(("qr_code"@, code@)),
        ClientEvent::Connected => Some(("connection_status"@, "connected"@)),
        ClientEvent::Disconnected => Some(("connection_status"@, "disconnected"@)),
        ClientEvent::Message => Some(("message"@, "New Message"@)),
        ClientEvent::Other => None,
    }
}

/// The notification for the host that a client event leads to, if any.
pub fn client_notification(e: &ClientEvent) -> (r: Option<(String, String)>)
    ensures
        match r {
            Some((n, t)) => notification_of(*e) == Some((n@, t@)),
            None => notification_of(*e) is None,
        },
{
    match e {
        ClientEvent::PairingQrCode(code) => Some((String::from_str("qr_code"), code.clone())),
        ClientEvent::Connected => Some((String::from_str("connection_status"), String::from_str("connected"))),
        ClientEvent::Disconnected => Some((String::from_str("connection_status"), String::from_str("disconnected"))),
        ClientEvent::Message => Some((String::from_str("message"), String::from_str("New Message"))),
        ClientEvent::Other => None,
    }
}

/// The database address of the client's session store at a file path,
/// created if missing.
pub fn session_db_url(db_path: &str) -> (r: String)
    ensures
        r@ == "sqlite:"@ + db_path@ + "?mode=rwc"@,
{
    let mut url = String::from_str("sqlite:");
    url.append(db_path);
    url.append("?mode=rwc");
    url
}

} // verus!
