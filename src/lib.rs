//! An asset registry and marketplace engine: records that track one asset's
//! metadata URI, owner and optional sale price, the rules for minting,
//! updating, transferring, listing, burning and purchasing them, and the fee
//! split applied when an asset is sold.
//!
//! The engine decides; the host performs. Every operation checks its
//! preconditions before touching the record, and on success hands back the
//! custody instructions (mint, burn, value transfers) and the audit event that
//! the host must carry out within the same atomic transaction.

pub mod error;
pub mod pubkey;
pub mod fees;
pub mod utils;
pub mod state;
pub mod engine;
pub mod laws;
pub mod basic;
