//! Translation layer between a generic DNS record synchronization protocol
//! and the Unbound host-override / host-alias configuration API of an
//! OPNsense appliance.
//!
//! The crate covers the request encoding, the decoding of the backend's
//! loosely typed responses into a strict result taxonomy, the bidirectional
//! mapping between backend rows and generic DNS records (including the
//! ownership-tag filter), and the planning of backend calls for a batch of
//! record intents.  The HTTP transport itself is left to the caller.

pub mod client;
pub mod codec;
pub mod errors;
pub mod models;
pub mod records;
pub mod text;
pub mod web;
