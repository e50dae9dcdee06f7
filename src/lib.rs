//! Signaling core of one peer-to-peer real-time session: producing and
//! applying session descriptions, trickling connectivity candidates and
//! opening data channels against a native media engine.
//!
//! The native engine is reached only by the embedding application. Each
//! operation here validates its inputs, states the exact native call to make,
//! and turns what the engine reports back into the caller-visible result.

pub mod text;
pub mod error;
pub mod ice_candidate;
pub mod sdp;
pub mod sdp_observer;
pub mod data_channel;
pub mod peer_connection;
