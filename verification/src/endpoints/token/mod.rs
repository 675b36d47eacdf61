//! The token endpoint and the errors it reports to the client.

pub mod token_endpoint;
pub mod token_error;

pub use token_endpoint::token;
