use vstd::prelude::*;

verus! {

/// Whether a host named by a ticket is reachable.
#[derive(Debug, Clone, Copy, PartialEq, Eq, Structural)]
pub enum AssetStatus {
    Online,
    Offline,
}

/// One host that can be connected to for real-time streaming of a
/// location's events.
#[derive(Debug, Clone, PartialEq, Eq)]
pub struct Asset {
    pub uuid: String,
    pub doorbot_id: i64,
    pub kind: String,
    pub status: AssetStatus,
    pub broker_host: String,
    pub on_battery: bool,
}

/// A connection ticket: a short-lived, single-use credential scoped to one
/// location, consumed immediately when opening an event channel.
#[derive(Debug, Clone, PartialEq, Eq)]
pub struct Ticket {
    /// The id of the ticket; it travels as the auth code of the WebSocket
    /// URL.
    pub id: String,
    /// The host to connect to.
    pub host: String,
    /// The topics the ticket's session may subscribe to.
    pub subscription_topics: Vec<String>,
    /// The hosts the location's devices stream through.
    pub assets: Vec<Asset>,
}

} // verus!
