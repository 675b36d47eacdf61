//! The endpoints that the broker serves.

pub mod authorize;
pub mod callback;
pub mod jwks;
pub mod token;
pub mod well_known;

pub use authorize::authorize;
pub use authorize::authorize_error;
pub use callback::callback;
pub use jwks::jwks;
pub use token::token;
pub use token::token_error;
