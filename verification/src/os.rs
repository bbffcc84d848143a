use vstd::prelude::*;

verus! {

/// The operating system to identify as when beginning a session.
///
/// The service varies its OAuth client id and expected user agent by the
/// operating system of the caller, so every request descriptor produced by
/// this crate carries one of these.
#[derive(Debug, Clone, Copy, PartialEq, Eq, Structural)]
pub enum OperatingSystem {
    Android,
    Ios,
}

impl OperatingSystem {
    /// The OAuth client id the service expects from this operating system.
    pub open spec fn spec_client_id(self) -> Seq<char> {
        match self {
            Self::Android => "ring_official_android"@,
            Self::Ios => "ring_official_ios"@,
        }
    }

    /// The OAuth client id the service expects from this operating system.
    pub fn get_client_id(self) -> (r: &'static str)
        ensures
            r@ == self.spec_client_id(),
    {
        match self {
            Self::Android => "ring_official_android",
            Self::Ios => "ring_official_ios",
        }
    }

    /// The user agent sent with every request from this operating system.
    pub open spec fn spec_user_agent(self) -> Seq<char> {
        match self {
            Self::Android => "android:com.ringapp"@,
            Self::Ios => "ios:com.ringapp"@,
        }
    }

    /// The user agent sent with every request from this operating system.
    pub fn get_user_agent(self) -> (r: &'static str)
        ensures
            r@ == self.spec_user_agent(),
    {
        match self {
            Self::Android => "android:com.ringapp",
            Self::Ios => "ios:com.ringapp",
        }
    }

    /// The short name of the operating system, as the session endpoint
    /// expects it in the registration payload.
    pub fn name(self) -> (r: &'static str)
        ensures
            r@ == self.spec_name(),
    {
        match self {
            Self::Android => "android",
            Self::Ios => "ios",
        }
    }

    /// The short name of the operating system.
    pub open spec fn spec_name(self) -> Seq<char> {
        match self {
            Self::Android => "android"@,
            Self::Ios => "ios"@,
        }
    }
}

} // verus!
