//! A client for an end-to-end encrypted group chat: the wire messages, the
//! cryptography that protects them, channel membership and user identity.
pub mod primitives;
pub mod message;
pub mod crypto;
pub mod channel;
pub mod user;
