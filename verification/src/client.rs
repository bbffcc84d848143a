use crate::api::RingApi;
use crate::auth::TokenManager;
use crate::os::OperatingSystem;
use vstd::prelude::*;
use vstd::string::StringExecFns;

verus! {

/// The verified core of one client: the token lifecycle manager, the
/// request builder, and the identity the client registers under.
///
/// The embedding application owns the transport; it performs the exchanges
/// and requests these parts describe and feeds their outcomes back.
#[derive(Debug, Clone, PartialEq, Eq)]
pub struct Client {
    /// The token lifecycle manager.
    pub auth: TokenManager,
    /// The request builder for the REST endpoints.
    pub api: RingApi,
    /// The display name the client registers under.
    pub display_name: String,
    /// The system id the hardware id is derived from; it should be
    /// predictable and consistent per device, so the service can recognise
    /// the client on subsequent logins.
    pub system_id: String,
}

impl Client {
    /// Create a new client.
    pub fn new(display_name: &str, system_id: &str, operating_system: OperatingSystem) -> (r:
        Client)
        ensures
            r.auth.state is Unauthenticated,
            r.auth.credentials is None,
            r.auth.tokens is None,
            !r.auth.refresh_in_flight,
            r.api.operating_system == operating_system,
            r.display_name@ == display_name@,
            r.system_id@ == system_id@,
    {
        Client {
            auth: TokenManager::new(),
            api: RingApi::new(operating_system),
            display_name: String::from_str(display_name),
            system_id: String::from_str(system_id),
        }
    }
}

} // verus!
