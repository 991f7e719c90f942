//! Message-delivery core of a cross-chain relay: domain hashing, the uniform
//! Mailbox interface with an in-memory implementation, checkpoint
//! verification and the per-message delivery state machine.

pub mod digest;
pub mod domain;
pub mod indexer;
pub mod types;
pub mod checkpoint_verifier;
pub mod mailbox;
pub mod memory_mailbox;
pub mod orchestrator;
