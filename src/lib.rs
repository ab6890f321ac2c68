//! A custody bridge: tokens are locked under a program-derived authority and
//! released again, while a registry and an append-only event log record the
//! foreign-ledger address that each locked unit is correlated with.

pub mod bytes;
pub mod error;
pub mod event_log;
pub mod external;
pub mod instruction;
pub mod laws;
pub mod layout;
pub mod processor;
pub mod registry;
