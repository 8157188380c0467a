//! Ingestion engine for an app-store metadata mirror.
//!
//! The library contains the verified core: the tolerant document model and
//! its change-aware persistence decisions, the credential lifecycle state
//! machine, the batch scheduling model, and the identifier-space discovery
//! strategies.  The host process supplies the I/O (HTTP fetches, the
//! relational backing store, clocks for the pure state machines).

pub mod api;
pub mod clock;
pub mod config;
pub mod credential;
pub mod discover;
pub mod entropy;
pub mod errors;
pub mod query;
pub mod rating;
pub mod raw;
pub mod remote;
pub mod records;
pub mod scheduler;
pub mod store;
pub mod substance;
pub mod text;
