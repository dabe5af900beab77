//! Core of an out-of-band interaction client: configuration, the session
//! lifecycle, decoding of polled log entries and their normalisation into
//! flat key/value records.

pub mod client;
pub mod config;
pub mod entry;
pub mod error;
pub mod fields;
pub mod normalize;
pub mod record;
pub mod session;
