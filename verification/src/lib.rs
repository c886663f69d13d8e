//! Bridge library that lets a Lightning node whose private keys live in a
//! separate signing service take part in onion messaging.
//!
//! The library holds the three pieces with real protocol substance, each
//! verified: the signing delegate (identity lookup and tweaked ECDH dispatch),
//! the feature-bit negotiator (a two-phase verified write of the
//! onion-messaging bit), and the peer-event consumer (the transition table
//! that drives the messaging engine from peer-lifecycle events). Transport,
//! process bootstrap and the engine itself are outside collaborators.

pub mod config;
pub mod consumer;
pub mod entropy;
pub mod features;
pub mod signer;
pub mod status;
