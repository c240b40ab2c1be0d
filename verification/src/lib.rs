//! Credential and session-token lifecycle for a user-management backend.
//!
//! The library keeps user credentials as salted password digests, stores
//! bearer tokens only as one-way digests, and maintains the token rotation
//! chain: every token records which token it replaced and which token
//! replaced it, revoked rows are kept for audit, and at most one rotation
//! can succeed per source token.

pub mod clock;
pub mod codec;
pub mod credentials;
pub mod handlers;
pub mod ids;
pub mod models;
pub mod token_store;
pub mod user_store;
