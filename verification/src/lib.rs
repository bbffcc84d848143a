//! Client core for a cloud home-security service.
//!
//! The crate verifies the two stateful subsystems of such a client: the
//! token lifecycle manager (credential state machine, single-flight refresh,
//! MFA challenge handling) and the event channel manager (frame
//! classification, delivery-loop decisions, graceful and forced shutdown,
//! send-after-close safety). Network transport itself is left to an
//! embedding application, which drives these state machines with the
//! outcomes of its exchanges.

/// Request descriptors for the service's REST endpoints.
pub mod api;
/// The token lifecycle manager: credential state machine and refresh policy.
pub mod auth;
/// The event channel state machine: delivery-loop decisions and shutdown.
pub mod channel;
/// The verified core of one client.
pub mod client;
/// Device records and the flattening of the device listing.
pub mod device;
/// The error taxonomy of the authentication and API layers.
pub mod errors;
/// Derivation of the hardware id a client registers under.
pub mod hardware;
/// Location records.
pub mod location;
/// Messages and events carried over an event channel, and their frames.
pub mod message;
/// The operating system a client identifies as.
pub mod os;
/// The session registration payload and the profile it returns.
pub mod session;
/// Verified string helpers shared by the protocol modules.
pub mod strings;
/// Connection tickets for opening an event channel.
pub mod ticket;
/// Routes of the service's REST and WebSocket endpoints.
pub mod urls;
