//! Offline construction of signed neuron-management call bundles, and typed
//! decoding of binary call results against bundled interface schemas.
//!
//! The batch path maps a set of independently toggleable intents onto a
//! fixed, ordered catalog of `manage_neuron` request payloads, encodes each
//! into its canonical binary argument form, and merges the envelopes an
//! external signing collaborator produces into one JSON-syntax artifact.
//! The read path resolves a method's type signature from a bundled
//! interface description and renders opaque binary values for display,
//! falling back to the self-describing decode when no schema applies.

pub mod batch;
pub mod bundle;
pub mod candid_api;
pub mod codec;
pub mod error;
pub mod model;
pub mod principal;
pub mod render;
pub mod schema;
pub mod text;
