//! A resilience and lifecycle layer for driving a remote WebDriver-compatible
//! browser endpoint.
//!
//! The library models the session/element lifecycle (open state, page
//! generations, handle staleness) and the retry/poll policies as verified
//! logic. The remote calls themselves are asynchronous network I/O performed
//! by a thin unverified shell; each operation here takes the remote outcome
//! as a plain value and decides, under contract, what the caller sees.

pub mod elements;
pub mod errors;
pub mod jitter;
pub mod poll;
pub mod retry;
pub mod session;
