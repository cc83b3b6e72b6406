//! The persisted escrow record.

use vstd::prelude::*;

use crate::keys::Key;

verus! {

/// The escrow record: the persisted state describing a single in-flight
/// agreement. It is created and populated only by `initialize`, read and
/// validated by `cancel` and `exchange`, and destroyed by whichever of those
/// two runs first. All five fields are fixed at initialization.
#[derive(Clone, Copy, PartialEq, Eq, Structural, Debug)]
pub struct EscrowAccount {
    /// The identity of the initializer; the signer that may cancel.
    pub initializer_key: Key,
    /// The account debited at initialization and credited back on cancel.
    pub initializer_deposit_token_account: Key,
    /// The account credited with the taker's asset on exchange.
    pub initializer_receive_token_account: Key,
    /// The quantity moved into the vault at initialization, refunded on
    /// cancel and paid to the taker on exchange.
    pub initializer_amount: u64,
    /// The quantity of the wanted asset the taker must pay on exchange.
    pub taker_amount: u64,
}

} // verus!
