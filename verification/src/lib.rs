//! Identity-verification coordination engine: a registry of pending
//! on-chain identities and their per-account verification state, the
//! message bus that connects the registry to its collaborators, and the
//! protocol bridge that exchanges judgement requests and results with an
//! external chain watcher.

pub mod alist;
pub mod comms;
pub mod connector;
pub mod event;
pub mod identity;
pub mod primitives;
pub mod twitter;
pub mod wire;
