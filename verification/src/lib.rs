//! A token-based authentication and request-authorization core: a credential
//! store of seeded principals, a signed token codec, the auth service that
//! mints, refreshes and verifies token pairs, and the request gate that
//! classifies every inbound request and enforces that no protected request
//! passes without verified claims. Around them stand the service's data
//! models with their validation rules, the error taxonomy, and the response
//! envelope.
pub mod auth_service;
pub mod clock;
pub mod codec;
pub mod config;
pub mod database;
pub mod errors;
pub mod gate;
pub mod models;
pub mod responses;
pub mod text;
