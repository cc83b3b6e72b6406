//! The laws of the escrow state machine, proved once and for all inputs.
//!
//! Each proof function states one guarantee of the three transitions over
//! the same specification functions that the executable operations' own
//! contracts use.

use vstd::prelude::*;

use crate::escrow::{EscrowError, EscrowProgram, cancel_deposit, cancel_err, cancel_ok,
    exchange_err, exchange_initializer_receive, exchange_ok, exchange_taker_deposit,
    exchange_taker_receive, initialize_ok, initialize_record, initialize_state, settled_state,
    well_formed};
use crate::keys::Key;
use crate::token::TokenAccount;

verus! {

/// Whenever `initialize` is allowed — in particular whenever the deposit
/// balance covers `initializer_amount` on otherwise well-formed accounts —
/// it succeeds and creates exactly one record and one vault, and the vault's
/// balance equals `initializer_amount`.
pub proof fn lemma_initialize_creates_slot(s: EscrowProgram, deposit: TokenAccount, receive_key: Key, initializer: Key, mint: Key, initializer_amount: u64, taker_amount: u64)
    ensures
        initialize_ok(s, deposit, initializer, mint, initializer_amount)
            ==> (initialize_state(s, deposit, receive_key, initializer, mint, initializer_amount, taker_amount).slot
                    matches Some(sl)
                && sl.vault_account.amount == initializer_amount
                && sl.escrow_account == initialize_record(deposit, receive_key, initializer, initializer_amount, taker_amount)),
{
}

/// `initialize` is rejected, and so creates no state, when the deposit
/// account holds less than `initializer_amount`.
pub proof fn lemma_initialize_rejects_insufficient_deposit(s: EscrowProgram, deposit: TokenAccount, initializer: Key, mint: Key, initializer_amount: u64)
    ensures
        deposit.amount < initializer_amount
            ==> !initialize_ok(s, deposit, initializer, mint, initializer_amount),
{
}

/// After `initialize`, a `cancel` by the recorded initializer against the
/// recorded deposit account is allowed, restores the deposit account's
/// balance to its value before `initialize`, and leaves no vault or record
/// behind.
pub proof fn lemma_cancel_after_initialize_restores_deposit(s: EscrowProgram, deposit: TokenAccount, receive_key: Key, initializer: Key, mint: Key, initializer_amount: u64, taker_amount: u64)
    ensures
        initialize_ok(s, deposit, initializer, mint, initializer_amount) ==> {
            let s1 = initialize_state(s, deposit, receive_key, initializer, mint, initializer_amount, taker_amount);
            let d1 = crate::token::with_amount(deposit, (deposit.amount - initializer_amount) as u64);
            &&& cancel_ok(s1, initializer, d1)
            &&& cancel_deposit(s1, d1).amount == deposit.amount
            &&& cancel_deposit(s1, d1) == deposit
            &&& settled_state(s1).slot is None
        },
{
}

/// After `initialize`, a `cancel` attempted by any signer other than the
/// recorded initializer is rejected — with the signer-mismatch reason — and
/// so changes nothing.
pub proof fn lemma_cancel_rejects_other_signer(s: EscrowProgram, signer: Key, deposit: TokenAccount)
    ensures
        s.slot matches Some(sl) && sl.escrow_account.initializer_key != signer
            ==> !cancel_ok(s, signer, deposit)
                && cancel_err(s, signer, deposit) == EscrowError::SignerMismatch,
{
}

/// After `initialize`, an `exchange` whose taker offers at least the
/// taker-owed amount of the wanted asset — on otherwise well-formed accounts
/// — is allowed exactly when the supplied initializer identity and account
/// references match the record; and then the taker's receive balance grows
/// by `initializer_amount`, the initializer's receive balance grows by
/// `taker_amount`, and no vault or record is left behind.
pub proof fn lemma_exchange_after_initialize(s: EscrowProgram, deposit: TokenAccount, receive_key: Key, initializer: Key, mint: Key, initializer_amount: u64, taker_amount: u64, taker: Key, taker_deposit: TokenAccount, taker_receive: TokenAccount, supplied_initializer: Key, supplied_deposit_key: Key, initializer_receive: TokenAccount)
    ensures
        initialize_ok(s, deposit, initializer, mint, initializer_amount)
            && taker_deposit.amount >= taker_amount
            && taker_deposit.owner == taker
            && taker_deposit.mint == initializer_receive.mint
            && taker_receive.mint == mint
            && taker_receive.amount + initializer_amount <= u64::MAX
            && initializer_receive.amount + taker_amount <= u64::MAX
            ==> {
            let s1 = initialize_state(s, deposit, receive_key, initializer, mint, initializer_amount, taker_amount);
            &&& exchange_ok(s1, taker, taker_deposit, taker_receive, supplied_initializer, supplied_deposit_key, initializer_receive)
                <==> supplied_deposit_key == deposit.key
                    && initializer_receive.key == receive_key
                    && supplied_initializer == initializer
            &&& exchange_taker_receive(s1, taker_receive).amount == taker_receive.amount + initializer_amount
            &&& exchange_initializer_receive(s1, initializer_receive).amount == initializer_receive.amount + taker_amount
            &&& exchange_taker_deposit(s1, taker_deposit).amount == taker_deposit.amount - taker_amount
            &&& settled_state(s1).slot is None
        },
{
}

/// `exchange` is rejected, and so changes nothing, when the taker's deposit
/// account holds less than the taker-owed amount.
pub proof fn lemma_exchange_rejects_insufficient_taker_balance(s: EscrowProgram, taker: Key, taker_deposit: TokenAccount, taker_receive: TokenAccount, initializer: Key, initializer_deposit_key: Key, initializer_receive: TokenAccount)
    ensures
        s.slot matches Some(sl) && taker_deposit.amount < sl.escrow_account.taker_amount
            ==> !exchange_ok(s, taker, taker_deposit, taker_receive, initializer, initializer_deposit_key, initializer_receive)
                && exchange_err(s, taker, taker_deposit, taker_receive, initializer, initializer_deposit_key, initializer_receive)
                    == EscrowError::InsufficientTakerBalance,
{
}

/// Every transition preserves well-formedness: `initialize` leaves the vault
/// under the derived authority holding exactly the recorded deposit, and a
/// settled deployment is well formed because nothing is live in it.
pub proof fn lemma_transitions_preserve_well_formedness(s: EscrowProgram, deposit: TokenAccount, receive_key: Key, initializer: Key, mint: Key, initializer_amount: u64, taker_amount: u64)
    ensures
        initialize_ok(s, deposit, initializer, mint, initializer_amount)
            ==> well_formed(initialize_state(s, deposit, receive_key, initializer, mint, initializer_amount, taker_amount)),
        well_formed(settled_state(s)),
{
}

/// Settlement is exclusive: a successful `cancel` or `exchange` leaves the
/// slot empty, and against an empty slot every later `cancel` or `exchange`
/// is rejected, because the record no longer exists.
pub proof fn lemma_settlement_exclusive(s: EscrowProgram, signer: Key, deposit: TokenAccount, taker: Key, taker_deposit: TokenAccount, taker_receive: TokenAccount, initializer: Key, initializer_deposit_key: Key, initializer_receive: TokenAccount)
    ensures
        settled_state(s).slot is None,
        s.slot is None ==> !cancel_ok(s, signer, deposit)
            && cancel_err(s, signer, deposit) == EscrowError::RecordAbsent
            && !exchange_ok(s, taker, taker_deposit, taker_receive, initializer, initializer_deposit_key, initializer_receive)
            && exchange_err(s, taker, taker_deposit, taker_receive, initializer, initializer_deposit_key, initializer_receive)
                == EscrowError::RecordAbsent,
{
}

} // verus!
