//! Core of an OpenID Connect identity broker.
//!
//! The broker presents itself to client applications as an OAuth2/OIDC
//! authorization server and federates every authentication to one upstream
//! provider. This crate holds what the broker decides: which requests are
//! accepted, which records tie the authorize, callback and token steps
//! together, what is asked of the upstream provider, of the directory and of
//! the state store, and what is answered to the client.
//!
//! The crate performs no request itself. Each endpoint is a small machine:
//! a function starts it, and a step function takes its state and the host's
//! report of what was last asked for to the next state and the next thing
//! to ask for, until it answers the client.

pub mod consts;
pub mod endpoints;
pub mod google;
pub mod groups;
pub mod handler_error;
pub mod http;
pub mod oidc_token;
pub mod scope;
pub mod state;
pub mod text;
pub mod uri;
