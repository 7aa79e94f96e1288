//! Storage backends and verification for Stellar history archives.
//!
//! The library decides: which backend a URL names, where an object is kept, how a write is staged
//! and committed, which errors are worth retrying, whether a bucket or a checkpoint is consistent.
//! Its callers perform the steps that it asks for and hand back what came of them.
pub mod backend;
pub mod config;
pub mod delivery;
pub mod error;
pub mod factory;
pub mod failures;
pub mod hashing;
pub mod history_format;
pub mod laws;
pub mod paths;
pub mod staged;
pub mod storage;
pub mod store;
pub mod text;
pub mod transfer;
pub mod url;
pub mod verify;
pub mod xdr_verify;
