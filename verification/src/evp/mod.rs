//! Event Platform (EVP) producer identity, transport configuration,
//! validation and route selection.

pub mod site;
pub mod uri;
pub mod endpoint;
pub mod identity;
pub mod config;
pub mod ffe;
pub mod route;
pub mod transport;
pub mod delivery;
