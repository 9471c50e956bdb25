//! Incinerator protocol core: a ten-tier fungible-asset issuance and burn
//! state machine.
//!
//! The library models the protocol's persistent state (a singleton
//! [`state::ProtocolConfig`] and one [`state::TierInfo`] ledger record per
//! tier) and the instruction handlers that govern it: one-time
//! initialization, strictly ordered tier creation, supply-capped minting,
//! supply-tracked burning, and the administrator controls.  Balance
//! bookkeeping itself is delegated to an external token contract; a handler
//! that needs such a delegated call returns an [`instructions::TokenOp`]
//! describing it, and the surrounding runtime performs it.

pub mod catalog;
pub mod errors;
pub mod instructions;
pub mod key;
pub mod laws;
pub mod state;

