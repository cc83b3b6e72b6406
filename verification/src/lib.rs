//! A two-party, escrow-mediated token exchange.
//!
//! One party (the initializer) deposits an asset into a custodial vault whose
//! authority is a program-derived address, and records the asset and quantity
//! it wants in return. A second party (the taker) may complete the trade
//! atomically, or the initializer may cancel and reclaim its deposit. The
//! three state transitions (initialize, cancel, exchange) are verified to
//! preserve the fund-safety invariants of the escrow record and vault.

pub mod escrow;
pub mod keys;
pub mod laws;
pub mod states;
pub mod token;

pub use escrow::{EscrowError, EscrowProgram, EscrowSlot};
pub use keys::Key;
pub use states::EscrowAccount;
pub use token::{TokenAccount, TokenError};
