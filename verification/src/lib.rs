//! Conditional-fund-release authorization engine for a two-depositor escrow.
//!
//! Two parties each lock a pledged amount; later, a single authorized
//! instruction releases one party's pledge to a receiver account, depending
//! on which outcome is asserted by the authorized resolver.
//!
//! The crate covers the instruction decoder and the escrow state machine.
//! The host ledger (account storage, balance-transfer primitives, signature
//! verification, rent computation) is an external collaborator: each call
//! hands in plain values — the ordered account list, the deserialized escrow
//! record, and the rent-exemption threshold — and the processor mutates them
//! under the contracts stated here.

pub mod error;
pub mod instruction;
pub mod processor;
pub mod state;
