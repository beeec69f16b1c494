//! Verified core of a blockchain validator bootstrapper.
//!
//! The library covers the authenticated secret-retrieval protocol and the
//! key-injection sequencing: signing a request to the secret store, building
//! the store's URLs and headers, parsing its responses into key material, and
//! computing the exact argument lists of the privileged key-insertion and
//! validator-launch subprocesses. All transport (HTTP, subprocess launching,
//! the filesystem) lives outside the library and hands it plain values.

pub mod cli;
pub mod client;
pub mod downloader;
pub mod encode;
pub mod errors;
pub mod injector;
pub mod orchestrator;
pub mod signer;
pub mod text;

pub use errors::Error;
