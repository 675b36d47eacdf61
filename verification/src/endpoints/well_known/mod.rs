//! What the broker publishes about itself.

pub mod openid_configuration;

pub use openid_configuration::openid_configuration;
