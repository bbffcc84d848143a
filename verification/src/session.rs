use crate::hardware::{generate_hardware_id, spec_hardware_id};
use crate::os::OperatingSystem;
use crate::strings::{append_json_escaped, spec_escaped};
use vstd::prelude::*;
use vstd::string::StringExecFns;

verus! {

/// The profile of the logged-in user, as the session endpoint reports it.
#[derive(Debug, Clone, PartialEq, Eq)]
pub struct Profile {
    /// The id of the user.
    pub id: usize,
    /// The email address of the user.
    pub email: String,
    /// The first name of the user.
    pub first_name: String,
    /// The last name of the user.
    pub last_name: String,
}

/// An active session, as the session endpoint reports it.
#[derive(Debug, Clone, PartialEq, Eq)]
pub struct Session {
    pub profile: Profile,
}

/// The registration payload the session endpoint expects: one JSON object
/// naming the device's hardware id, operating system, API version and
/// display name, with the hardware id derived from the system id and the
/// free-text fields escaped for JSON.
pub open spec fn spec_session_body(
    display_name: Seq<char>,
    system_id: Seq<char>,
    os: OperatingSystem,
) -> Seq<char> {
    "{\"device\":{\"hardware_id\":\""@ + spec_escaped(spec_hardware_id(system_id))
        + "\",\"metadata\":{\"api_version\":11,\"device_model\":\""@ + spec_escaped(display_name)
        + "\"},\"os\":\""@ + os.spec_name() + "\"}}"@
}

/// Build the body of the session registration request.
pub fn session_request_body(display_name: &str, system_id: &str, os: OperatingSystem) -> (r: String)
    ensures
        r@ == spec_session_body(display_name@, system_id@, os),
{
    let hardware_id = generate_hardware_id(system_id);
    let mut r = String::from_str("{\"device\":{\"hardware_id\":\"");
    append_json_escaped(&mut r, hardware_id.as_str());
    r.append("\",\"metadata\":{\"api_version\":11,\"device_model\":\"");
    append_json_escaped(&mut r, display_name);
    r.append("\"},\"os\":\"");
    r.append(os.name());
    r.append("\"}}");
    r
}

} // verus!
