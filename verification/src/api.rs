use crate::auth::Tokens;
use crate::os::OperatingSystem;
use crate::session::{session_request_body, spec_session_body};
use crate::urls::{get_base_url, Url};
use vstd::prelude::*;
use vstd::string::StringExecFns;

verus! {

/// One REST request the embedding application must perform: where to send
/// it, the headers it carries, and its query and body, if any. A request
/// without a body travels as a GET, one with a body as a POST.
#[derive(Debug, Clone, PartialEq, Eq)]
pub struct ApiRequest {
    /// The URL to send to.
    pub url: String,
    /// The value of the user agent header.
    pub user_agent: String,
    /// The bearer token presented for authentication.
    pub bearer: String,
    /// The one query parameter of the request, as key and value.
    pub query: Option<(String, String)>,
    /// The JSON body of the request.
    pub body: Option<String>,
}

/// Builds the requests the service's REST endpoints expect.
#[derive(Debug, Clone, Copy, PartialEq, Eq, Structural)]
pub struct RingApi {
    /// The operating system the client identifies as.
    pub operating_system: OperatingSystem,
}

impl RingApi {
    /// A request builder identifying as the given operating system.
    pub fn new(operating_system: OperatingSystem) -> (r: RingApi)
        ensures
            r.operating_system == operating_system,
    {
        RingApi { operating_system }
    }

    /// The request that lists the account's devices.
    pub fn device_request(&self, tokens: &Tokens) -> (r: ApiRequest)
        ensures
            r.url@ == "https://api.ring.com/clients_api/ring_devices"@,
            r.user_agent@ == self.operating_system.spec_user_agent(),
            r.bearer == tokens.access_token,
            r.query is None,
            r.body is None,
    {
        ApiRequest {
            url: get_base_url(&Url::Devices),
            user_agent: String::from_str(self.operating_system.get_user_agent()),
            bearer: tokens.access_token.clone(),
            query: None,
            body: None,
        }
    }

    /// The request that lists the account's locations.
    pub fn location_request(&self, tokens: &Tokens) -> (r: ApiRequest)
        ensures
            r.url@ == "https://api.ring.com/devices/v1/locations"@,
            r.user_agent@ == self.operating_system.spec_user_agent(),
            r.bearer == tokens.access_token,
            r.query is None,
            r.body is None,
    {
        ApiRequest {
            url: get_base_url(&Url::Locations),
            user_agent: String::from_str(self.operating_system.get_user_agent()),
            bearer: tokens.access_token.clone(),
            query: None,
            body: None,
        }
    }

    /// The request that buys a connection ticket for one location.
    pub fn ticket_request(&self, location_id: &str, tokens: &Tokens) -> (r: ApiRequest)
        ensures
            r.url@ == "https://prd-api-us.prd.rings.solutions/api/v1/clap/tickets"@,
            r.user_agent@ == self.operating_system.spec_user_agent(),
            r.bearer == tokens.access_token,
            r.query matches Some(q) && q.0@ == "locationID"@ && q.1@ == location_id@,
            r.body is None,
    {
        ApiRequest {
            url: get_base_url(&Url::Ticket),
            user_agent: String::from_str(self.operating_system.get_user_agent()),
            bearer: tokens.access_token.clone(),
            query: Some((String::from_str("locationID"), String::from_str(location_id))),
            body: None,
        }
    }

    /// The request that registers the client's identity with the backend,
    /// making event subscriptions valid. The manager triggers it after
    /// every successful (re)authentication.
    pub fn session_request(&self, display_name: &str, system_id: &str, tokens: &Tokens) -> (r:
        ApiRequest)
        ensures
            r.url@ == "https://api.ring.com/clients_api/session"@,
            r.user_agent@ == self.operating_system.spec_user_agent(),
            r.bearer == tokens.access_token,
            r.query is None,
            r.body matches Some(b) && b@ == spec_session_body(
                display_name@,
                system_id@,
                self.operating_system,
            ),
    {
        ApiRequest {
            url: get_base_url(&Url::Session),
            user_agent: String::from_str(self.operating_system.get_user_agent()),
            bearer: tokens.access_token.clone(),
            query: None,
            body: Some(session_request_body(display_name, system_id, self.operating_system)),
        }
    }
}

} // verus!
