//! Verified core of a protocol-facing tool dispatcher.
//!
//! The crate exposes a catalog of named operations: a registry maps each
//! operation name to a descriptor (input schema, description, handler id),
//! and a dispatcher resolves inbound request envelopes against the registry,
//! validates their payloads, and wraps every outcome in a success or failure
//! response envelope.  The compute around each operation - URL and query
//! construction, response formatting, filename sanitization, working
//! directory state - is verified here; the process edge (stdio framing,
//! HTTP, subprocess, filesystem) lives outside the library and hands it
//! plain values.

pub mod backup;
pub mod catalog;
pub mod code_cli;
pub mod discord;
pub mod dispatch;
pub mod http;
pub mod envelope;
pub mod google;
pub mod json;
pub mod local_files;
pub mod ors_notes;
pub mod params;
pub mod registry;
pub mod sandbox;
pub mod schema;
pub mod text;
