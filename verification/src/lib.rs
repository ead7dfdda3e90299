//! Verified core of the vox RPC toolkit: Swift binding generation, metadata,
//! the session handshake, schema-closure framing, connection setup decisions,
//! and the small pure helpers used by the test harness and fuzzers.

pub mod canary;
pub mod conduit;
pub mod fuzz;
pub mod handshake;
pub mod harness;
pub mod highlevel;
pub mod metadata;
pub mod phon;
pub mod schema;
pub mod schema_deser;
pub mod swift;
pub mod testbed;
pub mod text;
pub mod typescript;
