//! Plain data of the terminal chat client.
use vstd::prelude::*;

verus! {

/// Delivery state of a message.
#[derive(Clone, Copy, Debug, PartialEq, Eq, Structural)]
pub enum MessageStatus {
    Sending,
    Sent,
    Delivered,
    Read,
    Failed,
}

/// A contact of the messaging service.
pub struct Contact {
    pub id: String,
    pub name: String,
    pub phone: Option<String>,
    pub avatar_url: Option<String>,
    pub status: Option<String>,
    pub is_online: bool,
}

/// Connection state of the messaging service.
#[derive(Clone, Copy, Debug, PartialEq, Eq, Structural)]
pub enum ConnectionStatus {
    Disconnected,
    Connecting,
    Connected,
    Failed,
}

} // verus!
