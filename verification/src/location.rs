use vstd::prelude::*;

verus! {

/// The postal address of a location.
#[derive(Debug, Clone, PartialEq, Eq)]
pub struct LocationAddress {
    pub address1: String,
    pub address2: String,
    pub city: String,
    pub country: String,
    pub cross_street: String,
    pub state: String,
    pub timezone: String,
    pub zip_code: String,
}

/// Whether a location's geographic coordinates are verified.
#[derive(Debug, Clone, PartialEq, Eq)]
pub enum GeoServiceVerified {
    Verified,
    Unverified,
    AddressCoordinates(String, String),
}

/// Data about one location of an account.
#[derive(Debug, Clone, PartialEq, Eq)]
pub struct LocationData {
    /// The id of the location; a connection ticket is scoped to it.
    pub id: String,
    /// The address of the location.
    pub address: LocationAddress,
    /// When the location was first created, as seconds of the Unix epoch.
    pub created_at: i64,
    /// Whether the location's geographic coordinates are verified.
    pub geo_service_verified: GeoServiceVerified,
    /// Whether the location is a job site.
    pub is_jobsite: bool,
    /// Whether the location is being shared from a different account.
    pub is_owner: bool,
    /// The name of the location.
    pub name: String,
    /// The id of the owner of the location.
    pub owner_id: i32,
    /// When the location was last updated, as seconds of the Unix epoch.
    pub updated_at: i64,
    /// Whether the user is verified.
    pub user_verified: bool,
}

} // verus!
