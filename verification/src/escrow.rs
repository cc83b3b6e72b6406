//! The escrow state machine: one program instance, one escrow slot, three
//! transitions.
//!
//! A deployed instance holds at most one live agreement: the escrow record
//! and its custodial vault are created together by `initialize` and destroyed
//! together by whichever of `cancel` and `exchange` runs first. Every
//! transition validates its declared preconditions before any mutation, so a
//! rejected operation has no effect at all; the host guarantees that one
//! transition never interleaves with another against the same record.

use vstd::prelude::*;

use crate::keys::{Key, derive_authority, derived_key, escrow_seed, escrow_seed_bytes, vault_seed,
    vault_seed_bytes};
use crate::states::EscrowAccount;
use crate::token;
use crate::token::{TokenAccount, TokenError, transfer_ok, transfer_err, with_amount};

verus! {

/// A live agreement: the record and the vault that holds its deposit. The
/// two exist only together.
#[derive(Clone, Copy, PartialEq, Eq, Structural, Debug)]
pub struct EscrowSlot {
    /// The persisted escrow record.
    pub escrow_account: EscrowAccount,
    /// The custodial vault holding the initializer's deposit, controlled by
    /// the derived authority.
    pub vault_account: TokenAccount,
}

/// One deployed escrow program instance.
#[derive(Clone, Copy, PartialEq, Eq, Structural, Debug)]
pub struct EscrowProgram {
    /// The program's own identity: the input, besides the fixed seeds, of
    /// every authority derivation.
    pub program_id: Key,
    /// The single escrow slot; `None` when no agreement is live.
    pub slot: Option<EscrowSlot>,
}

/// A typed rejection reason. Every failure aborts the whole operation with
/// no effect.
#[derive(Clone, Copy, PartialEq, Eq, Structural, Debug)]
pub enum EscrowError {
    /// An agreement is already live in the single escrow slot.
    RecordInUse,
    /// No live record exists for the operation to act on.
    RecordAbsent,
    /// The authority derivation found no valid bump for this program id.
    AuthorityUnavailable,
    /// The initializer's deposit account holds less than the deposit amount.
    InsufficientDepositBalance,
    /// The deposit account holds a different asset than the declared mint.
    DepositAssetMismatch,
    /// The deposit account is not controlled by the initializer.
    DepositAuthorityMismatch,
    /// The signer is not the initializer recorded in the escrow record.
    SignerMismatch,
    /// The supplied deposit account is not the one recorded.
    DepositAccountMismatch,
    /// The supplied receive account is not the one recorded.
    ReceiveAccountMismatch,
    /// The supplied initializer is not the one recorded.
    InitializerMismatch,
    /// The taker's deposit account holds less than the taker-owed amount.
    InsufficientTakerBalance,
    /// A token-custody call failed; the subsystem's reason is carried
    /// verbatim.
    TokenFailure(TokenError),
}

/// Well-formedness of a deployment: whenever an agreement is live, its vault
/// is controlled by the derived authority — not by any user — and holds
/// exactly the recorded deposit. `initialize` establishes this and `cancel`
/// and `exchange` preserve it, trivially, by emptying the slot.
pub open spec fn well_formed(s: EscrowProgram) -> bool {
    match s.slot {
        None => true,
        Some(sl) => {
            &&& derived_key(escrow_seed(), s.program_id) is Some
            &&& sl.vault_account.owner == (derived_key(escrow_seed(), s.program_id)->0).0
            &&& sl.vault_account.amount == sl.escrow_account.initializer_amount
        },
    }
}

/// When `initialize` succeeds: the slot is free, both derivations yield an
/// address, the deposit account holds enough of the declared asset and is
/// controlled by the initializer.
pub open spec fn initialize_ok(s: EscrowProgram, deposit: TokenAccount, initializer: Key, mint: Key, initializer_amount: u64) -> bool {
    &&& s.slot is None
    &&& derived_key(escrow_seed(), s.program_id) is Some
    &&& derived_key(vault_seed(), s.program_id) is Some
    &&& deposit.amount >= initializer_amount
    &&& deposit.mint == mint
    &&& deposit.owner == initializer
}

/// The rejection `initialize` reports when it cannot succeed.
pub open spec fn initialize_err(s: EscrowProgram, deposit: TokenAccount, initializer: Key, mint: Key, initializer_amount: u64) -> EscrowError {
    if s.slot is Some {
        EscrowError::RecordInUse
    } else if derived_key(escrow_seed(), s.program_id) is None
        || derived_key(vault_seed(), s.program_id) is None {
        EscrowError::AuthorityUnavailable
    } else if deposit.amount < initializer_amount {
        EscrowError::InsufficientDepositBalance
    } else if deposit.mint != mint {
        EscrowError::DepositAssetMismatch
    } else {
        EscrowError::DepositAuthorityMismatch
    }
}

/// The record `initialize` populates.
pub open spec fn initialize_record(deposit: TokenAccount, receive_key: Key, initializer: Key, initializer_amount: u64, taker_amount: u64) -> EscrowAccount {
    EscrowAccount {
        initializer_key: initializer,
        initializer_deposit_token_account: deposit.key,
        initializer_receive_token_account: receive_key,
        initializer_amount,
        taker_amount,
    }
}

/// The vault `initialize` leaves behind: at the derived vault address, bound
/// to the declared mint, holding the deposit, controlled by the derived
/// authority.
pub open spec fn initialize_vault(s: EscrowProgram, mint: Key, initializer_amount: u64) -> TokenAccount {
    TokenAccount {
        key: (derived_key(vault_seed(), s.program_id)->0).0,
        mint,
        owner: (derived_key(escrow_seed(), s.program_id)->0).0,
        amount: initializer_amount,
    }
}

/// The program state after a successful `initialize`.
pub open spec fn initialize_state(s: EscrowProgram, deposit: TokenAccount, receive_key: Key, initializer: Key, mint: Key, initializer_amount: u64, taker_amount: u64) -> EscrowProgram {
    EscrowProgram {
        program_id: s.program_id,
        slot: Some(
            EscrowSlot {
                escrow_account: initialize_record(deposit, receive_key, initializer, initializer_amount, taker_amount),
                vault_account: initialize_vault(s, mint, initializer_amount),
            },
        ),
    }
}

/// When `cancel` succeeds: a record is live, the signer is the recorded
/// initializer, the supplied deposit account is the recorded one, the
/// derivation yields the vault's authority, and the refund transfer and the
/// vault close both go through.
pub open spec fn cancel_ok(s: EscrowProgram, signer: Key, deposit: TokenAccount) -> bool {
    match s.slot {
        None => false,
        Some(sl) => {
            &&& sl.escrow_account.initializer_key == signer
            &&& sl.escrow_account.initializer_deposit_token_account == deposit.key
            &&& derived_key(escrow_seed(), s.program_id) is Some
            &&& transfer_ok(sl.vault_account, deposit, sl.escrow_account.initializer_amount,
                (derived_key(escrow_seed(), s.program_id)->0).0)
            &&& sl.vault_account.amount == sl.escrow_account.initializer_amount
        },
    }
}

/// The rejection `cancel` reports when it cannot succeed.
pub open spec fn cancel_err(s: EscrowProgram, signer: Key, deposit: TokenAccount) -> EscrowError {
    match s.slot {
        None => EscrowError::RecordAbsent,
        Some(sl) => {
            if sl.escrow_account.initializer_key != signer {
                EscrowError::SignerMismatch
            } else if sl.escrow_account.initializer_deposit_token_account != deposit.key {
                EscrowError::DepositAccountMismatch
            } else if derived_key(escrow_seed(), s.program_id) is None {
                EscrowError::AuthorityUnavailable
            } else if !transfer_ok(sl.vault_account, deposit, sl.escrow_account.initializer_amount,
                (derived_key(escrow_seed(), s.program_id)->0).0) {
                EscrowError::TokenFailure(transfer_err(sl.vault_account, deposit,
                    sl.escrow_account.initializer_amount,
                    (derived_key(escrow_seed(), s.program_id)->0).0))
            } else {
                EscrowError::TokenFailure(TokenError::NonZeroBalance)
            }
        },
    }
}

/// The program state after a successful `cancel` or `exchange`: the slot is
/// free again.
pub open spec fn settled_state(s: EscrowProgram) -> EscrowProgram {
    EscrowProgram { program_id: s.program_id, slot: None }
}

/// The deposit account after a successful `cancel`: its balance restored by
/// the recorded deposit amount.
pub open spec fn cancel_deposit(s: EscrowProgram, deposit: TokenAccount) -> TokenAccount {
    with_amount(deposit, (deposit.amount + (s.slot->0).escrow_account.initializer_amount) as u64)
}

/// When `exchange` succeeds: a record is live, the taker offers enough, the
/// supplied initializer identity and account references are the recorded
/// ones, the derivation yields the vault's authority, and both transfers and
/// the vault close go through.
pub open spec fn exchange_ok(s: EscrowProgram, taker: Key, taker_deposit: TokenAccount, taker_receive: TokenAccount, initializer: Key, initializer_deposit_key: Key, initializer_receive: TokenAccount) -> bool {
    match s.slot {
        None => false,
        Some(sl) => {
            &&& sl.escrow_account.taker_amount <= taker_deposit.amount
            &&& sl.escrow_account.initializer_deposit_token_account == initializer_deposit_key
            &&& sl.escrow_account.initializer_receive_token_account == initializer_receive.key
            &&& sl.escrow_account.initializer_key == initializer
            &&& derived_key(escrow_seed(), s.program_id) is Some
            &&& transfer_ok(sl.vault_account, taker_receive, sl.escrow_account.initializer_amount,
                (derived_key(escrow_seed(), s.program_id)->0).0)
            &&& transfer_ok(taker_deposit, initializer_receive, sl.escrow_account.taker_amount, taker)
            &&& sl.vault_account.amount == sl.escrow_account.initializer_amount
        },
    }
}

/// The rejection `exchange` reports when it cannot succeed.
pub open spec fn exchange_err(s: EscrowProgram, taker: Key, taker_deposit: TokenAccount, taker_receive: TokenAccount, initializer: Key, initializer_deposit_key: Key, initializer_receive: TokenAccount) -> EscrowError {
    match s.slot {
        None => EscrowError::RecordAbsent,
        Some(sl) => {
            if sl.escrow_account.taker_amount > taker_deposit.amount {
                EscrowError::InsufficientTakerBalance
            } else if sl.escrow_account.initializer_deposit_token_account != initializer_deposit_key {
                EscrowError::DepositAccountMismatch
            } else if sl.escrow_account.initializer_receive_token_account != initializer_receive.key {
                EscrowError::ReceiveAccountMismatch
            } else if sl.escrow_account.initializer_key != initializer {
                EscrowError::InitializerMismatch
            } else if derived_key(escrow_seed(), s.program_id) is None {
                EscrowError::AuthorityUnavailable
            } else if !transfer_ok(sl.vault_account, taker_receive, sl.escrow_account.initializer_amount,
                (derived_key(escrow_seed(), s.program_id)->0).0) {
                EscrowError::TokenFailure(transfer_err(sl.vault_account, taker_receive,
                    sl.escrow_account.initializer_amount,
                    (derived_key(escrow_seed(), s.program_id)->0).0))
            } else if !transfer_ok(taker_deposit, initializer_receive, sl.escrow_account.taker_amount, taker) {
                EscrowError::TokenFailure(transfer_err(taker_deposit, initializer_receive,
                    sl.escrow_account.taker_amount, taker))
            } else {
                EscrowError::TokenFailure(TokenError::NonZeroBalance)
            }
        },
    }
}

/// The taker's deposit account after a successful `exchange`: debited by the
/// taker-owed amount.
pub open spec fn exchange_taker_deposit(s: EscrowProgram, taker_deposit: TokenAccount) -> TokenAccount {
    with_amount(taker_deposit, (taker_deposit.amount - (s.slot->0).escrow_account.taker_amount) as u64)
}

/// The taker's receive account after a successful `exchange`: credited with
/// the vault's deposit.
pub open spec fn exchange_taker_receive(s: EscrowProgram, taker_receive: TokenAccount) -> TokenAccount {
    with_amount(taker_receive, (taker_receive.amount + (s.slot->0).escrow_account.initializer_amount) as u64)
}

/// The initializer's receive account after a successful `exchange`: credited
/// with the taker-owed amount.
pub open spec fn exchange_initializer_receive(s: EscrowProgram, initializer_receive: TokenAccount) -> TokenAccount {
    with_amount(initializer_receive, (initializer_receive.amount + (s.slot->0).escrow_account.taker_amount) as u64)
}

impl EscrowProgram {
    /// A freshly deployed instance: no agreement is live.
    pub fn new(program_id: Key) -> (s: EscrowProgram)
        ensures
            s.program_id == program_id,
            s.slot is None,
    {
        EscrowProgram { program_id, slot: None }
    }

    /// Opens the single escrow slot: allocates the vault and the record,
    /// reassigns the vault's authority from the initializer to the derived
    /// authority, and moves `initializer_amount` units of `mint` from the
    /// initializer's deposit account into the vault. All validation happens
    /// before any mutation, so a rejected call changes nothing.
    pub fn initialize(&mut self, initializer: &Key, mint: &Key, deposit: &mut TokenAccount, receive: &TokenAccount, initializer_amount: u64, taker_amount: u64) -> (r: Result<(), EscrowError>)
        ensures
            r is Ok <==> initialize_ok(*old(self), *old(deposit), *initializer, *mint, initializer_amount),
            r is Ok ==> *final(self) == initialize_state(*old(self), *old(deposit), receive.key, *initializer, *mint, initializer_amount, taker_amount)
                && *final(deposit) == with_amount(*old(deposit), (old(deposit).amount - initializer_amount) as u64),
            r matches Err(e) ==> e == initialize_err(*old(self), *old(deposit), *initializer, *mint, initializer_amount)
                && *final(self) == *old(self) && *final(deposit) == *old(deposit),
    {
        if self.slot.is_some() {
            return Err(EscrowError::RecordInUse);
        }
        let authority_seed = escrow_seed_bytes();
        let vault_address_seed = vault_seed_bytes();
        let derived = derive_authority(&authority_seed, &self.program_id);
        let derived_vault = derive_authority(&vault_address_seed, &self.program_id);
        let (vault_authority, _vault_authority_bump) = match derived {
            Some(p) => p,
            None => return Err(EscrowError::AuthorityUnavailable),
        };
        let (vault_key, _vault_key_bump) = match derived_vault {
            Some(p) => p,
            None => return Err(EscrowError::AuthorityUnavailable),
        };
        if deposit.amount < initializer_amount {
            return Err(EscrowError::InsufficientDepositBalance);
        }
        if deposit.mint != *mint {
            return Err(EscrowError::DepositAssetMismatch);
        }
        if deposit.owner != *initializer {
            return Err(EscrowError::DepositAuthorityMismatch);
        }
        // Allocate the vault, owned at first by the initializer.
        let mut vault = TokenAccount { key: vault_key, mint: *mint, owner: *initializer, amount: 0 };
        // Allocate and populate the record.
        let record = EscrowAccount {
            initializer_key: *initializer,
            initializer_deposit_token_account: deposit.key,
            initializer_receive_token_account: receive.key,
            initializer_amount,
            taker_amount,
        };
        // Reassign the vault's authority to the derived authority, proven by
        // the initializer's co-signature; cannot fail, the initializer still
        // holds the authority here.
        match token::set_authority(&mut vault, &vault_authority, initializer) {
            Ok(()) => (),
            Err(e) => return Err(EscrowError::TokenFailure(e)),
        }
        // Move the deposit in, authorized by the initializer's signature;
        // cannot fail, the guards above checked balance, asset and authority.
        match token::transfer(initializer_amount, deposit, &mut vault, initializer) {
            Ok(()) => (),
            Err(e) => return Err(EscrowError::TokenFailure(e)),
        }
        self.slot = Some(EscrowSlot { escrow_account: record, vault_account: vault });
        Ok(())
    }

    /// Refunds the deposit to the initializer and tears the vault and the
    /// record down, authorized by re-deriving the program authority. All
    /// validation happens before any mutation, so a rejected call changes
    /// nothing.
    pub fn cancel(&mut self, signer: &Key, deposit: &mut TokenAccount) -> (r: Result<(), EscrowError>)
        ensures
            r is Ok <==> cancel_ok(*old(self), *signer, *old(deposit)),
            r is Ok ==> *final(self) == settled_state(*old(self))
                && *final(deposit) == cancel_deposit(*old(self), *old(deposit)),
            r matches Err(e) ==> e == cancel_err(*old(self), *signer, *old(deposit))
                && *final(self) == *old(self) && *final(deposit) == *old(deposit),
    {
        let sl = match self.slot {
            Some(sl) => sl,
            None => return Err(EscrowError::RecordAbsent),
        };
        // The record's declared constraints, checked before any transfer.
        if sl.escrow_account.initializer_key != *signer {
            return Err(EscrowError::SignerMismatch);
        }
        if sl.escrow_account.initializer_deposit_token_account != deposit.key {
            return Err(EscrowError::DepositAccountMismatch);
        }
        // Re-derive the program authority; no persisted bump exists.
        let authority_seed = escrow_seed_bytes();
        let (vault_authority, _vault_authority_bump) = match derive_authority(&authority_seed, &self.program_id) {
            Some(p) => p,
            None => return Err(EscrowError::AuthorityUnavailable),
        };
        // Precondition of the refund transfer and of the vault close, so
        // that a custody failure cannot strike after a mutation.
        let mut vault = sl.vault_account;
        if vault.owner != vault_authority {
            return Err(EscrowError::TokenFailure(TokenError::OwnerMismatch));
        }
        if vault.mint != deposit.mint {
            return Err(EscrowError::TokenFailure(TokenError::MintMismatch));
        }
        if vault.amount < sl.escrow_account.initializer_amount {
            return Err(EscrowError::TokenFailure(TokenError::InsufficientFunds));
        }
        if deposit.amount > u64::MAX - sl.escrow_account.initializer_amount {
            return Err(EscrowError::TokenFailure(TokenError::Overflow));
        }
        if vault.amount != sl.escrow_account.initializer_amount {
            return Err(EscrowError::TokenFailure(TokenError::NonZeroBalance));
        }
        // Refund, program-signed; cannot fail, checked above.
        match token::transfer(sl.escrow_account.initializer_amount, &mut vault, deposit, &vault_authority) {
            Ok(()) => (),
            Err(e) => return Err(EscrowError::TokenFailure(e)),
        }
        // Close the emptied vault, reclaiming its storage to the
        // initializer; cannot fail, checked above.
        match token::close_account(vault, signer, &vault_authority) {
            Ok(()) => (),
            Err(e) => return Err(EscrowError::TokenFailure(e.1)),
        }
        // Close the record: the slot is free again.
        self.slot = None;
        Ok(())
    }

    /// Swaps the assets atomically: the vault's deposit moves to the taker
    /// under program authority, the taker's payment moves to the initializer
    /// under the taker's own signature, and the vault and the record are
    /// torn down. All validation happens before any mutation, so a rejected
    /// call changes nothing.
    pub fn exchange(&mut self, taker: &Key, taker_deposit: &mut TokenAccount, taker_receive: &mut TokenAccount, initializer: &Key, initializer_deposit_key: &Key, initializer_receive: &mut TokenAccount) -> (r: Result<(), EscrowError>)
        ensures
            r is Ok <==> exchange_ok(*old(self), *taker, *old(taker_deposit), *old(taker_receive), *initializer, *initializer_deposit_key, *old(initializer_receive)),
            r is Ok ==> *final(self) == settled_state(*old(self))
                && *final(taker_deposit) == exchange_taker_deposit(*old(self), *old(taker_deposit))
                && *final(taker_receive) == exchange_taker_receive(*old(self), *old(taker_receive))
                && *final(initializer_receive) == exchange_initializer_receive(*old(self), *old(initializer_receive)),
            r matches Err(e) ==> e == exchange_err(*old(self), *taker, *old(taker_deposit), *old(taker_receive), *initializer, *initializer_deposit_key, *old(initializer_receive))
                && *final(self) == *old(self) && *final(taker_deposit) == *old(taker_deposit)
                && *final(taker_receive) == *old(taker_receive)
                && *final(initializer_receive) == *old(initializer_receive),
    {
        let sl = match self.slot {
            Some(sl) => sl,
            None => return Err(EscrowError::RecordAbsent),
        };
        // The record's declared constraints, checked before any transfer.
        if sl.escrow_account.taker_amount > taker_deposit.amount {
            return Err(EscrowError::InsufficientTakerBalance);
        }
        if sl.escrow_account.initializer_deposit_token_account != *initializer_deposit_key {
            return Err(EscrowError::DepositAccountMismatch);
        }
        if sl.escrow_account.initializer_receive_token_account != initializer_receive.key {
            return Err(EscrowError::ReceiveAccountMismatch);
        }
        if sl.escrow_account.initializer_key != *initializer {
            return Err(EscrowError::InitializerMismatch);
        }
        // Re-derive the program authority; no persisted bump exists.
        let authority_seed = escrow_seed_bytes();
        let (vault_authority, _vault_authority_bump) = match derive_authority(&authority_seed, &self.program_id) {
            Some(p) => p,
            None => return Err(EscrowError::AuthorityUnavailable),
        };
        // Preconditions of both transfers and of the vault close, so that a
        // custody failure cannot strike after a mutation.
        let mut vault = sl.vault_account;
        if vault.owner != vault_authority {
            return Err(EscrowError::TokenFailure(TokenError::OwnerMismatch));
        }
        if vault.mint != taker_receive.mint {
            return Err(EscrowError::TokenFailure(TokenError::MintMismatch));
        }
        if vault.amount < sl.escrow_account.initializer_amount {
            return Err(EscrowError::TokenFailure(TokenError::InsufficientFunds));
        }
        if taker_receive.amount > u64::MAX - sl.escrow_account.initializer_amount {
            return Err(EscrowError::TokenFailure(TokenError::Overflow));
        }
        if taker_deposit.owner != *taker {
            return Err(EscrowError::TokenFailure(TokenError::OwnerMismatch));
        }
        if taker_deposit.mint != initializer_receive.mint {
            return Err(EscrowError::TokenFailure(TokenError::MintMismatch));
        }
        if initializer_receive.amount > u64::MAX - sl.escrow_account.taker_amount {
            return Err(EscrowError::TokenFailure(TokenError::Overflow));
        }
        if vault.amount != sl.escrow_account.initializer_amount {
            return Err(EscrowError::TokenFailure(TokenError::NonZeroBalance));
        }
        // The vault-held asset moves to the taker under program authority;
        // cannot fail, checked above.
        match token::transfer(sl.escrow_account.initializer_amount, &mut vault, taker_receive, &vault_authority) {
            Ok(()) => (),
            Err(e) => return Err(EscrowError::TokenFailure(e)),
        }
        // The taker's own asset moves to the initializer under the taker's
        // signature; cannot fail, checked above.
        match token::transfer(sl.escrow_account.taker_amount, taker_deposit, initializer_receive, taker) {
            Ok(()) => (),
            Err(e) => return Err(EscrowError::TokenFailure(e)),
        }
        // Close the emptied vault, reclaiming its storage to the
        // initializer; cannot fail, checked above.
        match token::close_account(vault, initializer, &vault_authority) {
            Ok(()) => (),
            Err(e) => return Err(EscrowError::TokenFailure(e.1)),
        }
        // Close the record: the slot is free again.
        self.slot = None;
        Ok(())
    }
}

} // verus!
