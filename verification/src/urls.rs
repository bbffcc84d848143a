use vstd::prelude::*;
use vstd::string::StringExecFns;

verus! {

/// A supported route of the service.
pub enum Url<'a> {
    /// The OAuth token exchange endpoint.
    Oauth,
    /// The session registration endpoint.
    Session,
    /// The device listing endpoint.
    Devices,
    /// The location listing endpoint.
    Locations,
    /// The connection ticket endpoint.
    Ticket,
    /// The WebSocket endpoint of one event channel, reached on the host a
    /// ticket names, with the ticket id as the auth code.
    Websocket { host: &'a str, auth_code: &'a str },
}

/// The full text of the WebSocket URL for a host and auth code.
pub open spec fn spec_websocket_url(host: Seq<char>, auth_code: Seq<char>) -> Seq<char> {
    "wss://"@ + host + "/ws?authcode="@ + auth_code + "&ack=false&transport=websocket"@
}

/// The base URL of a route.
pub fn get_base_url(url: &Url<'_>) -> (r: String)
    ensures
        url is Oauth ==> r@ == "https://oauth.ring.com/oauth/token"@,
        url is Session ==> r@ == "https://api.ring.com/clients_api/session"@,
        url is Devices ==> r@ == "https://api.ring.com/clients_api/ring_devices"@,
        url is Locations ==> r@ == "https://api.ring.com/devices/v1/locations"@,
        url is Ticket ==> r@ == "https://prd-api-us.prd.rings.solutions/api/v1/clap/tickets"@,
        url matches Url::Websocket { host, auth_code } ==> r@ == spec_websocket_url(
            host@,
            auth_code@,
        ),
{
    match url {
        Url::Oauth => String::from_str("https://oauth.ring.com/oauth/token"),
        Url::Session => String::from_str("https://api.ring.com/clients_api/session"),
        Url::Devices => String::from_str("https://api.ring.com/clients_api/ring_devices"),
        Url::Locations => String::from_str("https://api.ring.com/devices/v1/locations"),
        Url::Ticket => String::from_str(
            "https://prd-api-us.prd.rings.solutions/api/v1/clap/tickets",
        ),
        Url::Websocket { host, auth_code } => {
            let mut r = String::from_str("wss://");
            r.append(host);
            r.append("/ws?authcode=");
            r.append(auth_code);
            r.append("&ack=false&transport=websocket");
            r
        },
    }
}

} // verus!
