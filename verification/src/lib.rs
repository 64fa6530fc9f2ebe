//! Extraction of aggregator swap records from raw blockchain blocks.
//!
//! A block carries transactions; each transaction carries instructions that
//! reference an account-key table by index, plus an execution trace of inner
//! instructions. The engine classifies each instruction against three known
//! aggregator program identifiers, decodes the version-specific instruction
//! payload, correlates it with the token transfers recorded in the trace, and
//! assembles canonical swap records. A mapper turns the records into generic
//! named rows for a downstream entity store.

pub mod assemble;
pub mod b58;
pub mod bytes;
pub mod data;
pub mod decode;
pub mod engine;
pub mod laws;
pub mod mapper;
pub mod numfmt;
pub mod resolve;
pub mod transfers;
