//! Verified core of a wallet-verification and wallet-linking batch tool.
//!
//! The library holds the logic of the flow: building the protocol messages
//! and request payloads, interpreting the service's responses, deciding the
//! per-credential workflow steps, and accounting for a bounded-concurrency
//! run. Network and file I/O live outside the library and hand plain values
//! in and out.

pub mod config;
pub mod interpret;
pub mod jsontext;
pub mod messages;
pub mod numtext;
pub mod records;
pub mod request;
pub mod scan;
pub mod scheduler;
pub mod schemas;
pub mod session;
pub mod signer;
pub mod typedefs;
pub mod workflow;

pub use config::Config;
pub use interpret::Verdict;
