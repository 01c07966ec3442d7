//! Multi-chain contract-verification core.
//!
//! Given the on-chain creation code fetched for a contract address on each
//! supported chain, and the artifacts produced by compiling a claimed source
//! repository under a sequence of build profiles, this library decides whether
//! the source reproduces the deployed contract, which chains it matches on,
//! and assembles the resulting verification record. All I/O (chain RPC,
//! cloning, compiler invocation, artifact files) is performed by the caller;
//! the library holds the decision logic and its proofs.

pub mod bytecode;
pub mod chain;
pub mod creation;
pub mod schema;
pub mod artifact;
pub mod matcher;
pub mod table;
pub mod coordinator;
