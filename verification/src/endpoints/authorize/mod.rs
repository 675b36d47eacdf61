//! The authorization endpoint and the errors it reports to the client.

pub mod authorize_endpoint;
pub mod authorize_error;

pub use authorize_endpoint::authorize;
