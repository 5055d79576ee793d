//! A verified core for a Double-Ratchet messaging protocol stack: key and
//! record types held as plain values, the wire codec of the protocol
//! messages, the ordering rules of the message chains, certificate
//! validation decisions and an in-memory protocol store.
pub mod address;
pub mod certificates;
pub mod chain;
pub mod codec;
pub mod curve;
pub mod error;
pub mod group_cipher;
pub mod identity_key;
pub mod mac;
pub mod protocol;
pub mod ratchet;
pub mod sealed_sender;
pub mod sender_keys;
pub mod session;
pub mod state;
pub mod storage;
pub mod table;
pub mod uuid;
