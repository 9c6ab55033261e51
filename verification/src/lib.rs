//! Core logic for a review registry kept in a permissioned key-value store.
//!
//! Each review is owned by one actor and lives at a deterministic address
//! derived from the owner's identity and the review title. The crate holds
//! the address derivation and verification logic, the fixed binary codec for
//! the stored record, and the validated create/update handlers. Host-side
//! concerns (authentication proofs, slot allocation, deposits) stay outside.

pub mod address;
pub mod codec;
pub mod error;
pub mod processor;
pub mod record;
