//! The token-custody subsystem, reduced to the three primitives the escrow
//! core depends on: `transfer`, `set_authority` and `close_account`.
//!
//! A token account is modelled by what the escrow logic reads of it: its own
//! address, the asset (mint) it holds, its control authority and its balance.
//! Each primitive takes an authority proof — a key that must equal the
//! account's current authority — and either performs its whole effect or
//! fails with no effect at all.

use vstd::prelude::*;

use crate::keys::Key;

verus! {

/// A fungible-token holding account.
#[derive(Clone, Copy, PartialEq, Eq, Structural, Debug)]
pub struct TokenAccount {
    /// The address of this account.
    pub key: Key,
    /// The asset descriptor (mint) whose units this account holds.
    pub mint: Key,
    /// The authority that must sign for transfers out of this account.
    pub owner: Key,
    /// The balance, in base units of the asset.
    pub amount: u64,
}

/// A failure reported by the token-custody subsystem.
#[derive(Clone, Copy, PartialEq, Eq, Structural, Debug)]
pub enum TokenError {
    /// The presented authority proof does not match the account's authority.
    OwnerMismatch,
    /// Source and destination accounts hold different assets.
    MintMismatch,
    /// The source balance is smaller than the requested amount.
    InsufficientFunds,
    /// The destination balance would exceed the representable maximum.
    Overflow,
    /// An account with a remaining balance cannot be closed.
    NonZeroBalance,
}

/// `a` with its balance replaced by `amount`.
pub open spec fn with_amount(a: TokenAccount, amount: u64) -> TokenAccount {
    TokenAccount { key: a.key, mint: a.mint, owner: a.owner, amount }
}

/// `a` with its control authority replaced by `owner`.
pub open spec fn with_owner(a: TokenAccount, owner: Key) -> TokenAccount {
    TokenAccount { key: a.key, mint: a.mint, owner, amount: a.amount }
}

/// When a transfer of `amount` units out of `from` into `to`, authorized by
/// `authority`, succeeds.
pub open spec fn transfer_ok(from: TokenAccount, to: TokenAccount, amount: u64, authority: Key) -> bool {
    &&& from.owner == authority
    &&& from.mint == to.mint
    &&& from.amount >= amount
    &&& to.amount + amount <= u64::MAX
}

/// The first failure a transfer reports when it cannot succeed.
pub open spec fn transfer_err(from: TokenAccount, to: TokenAccount, amount: u64, authority: Key) -> TokenError {
    if from.owner != authority {
        TokenError::OwnerMismatch
    } else if from.mint != to.mint {
        TokenError::MintMismatch
    } else if from.amount < amount {
        TokenError::InsufficientFunds
    } else {
        TokenError::Overflow
    }
}

/// Moves `amount` units from `from` to `to`, if `authority` controls `from`,
/// both accounts hold the same asset, the balance suffices and the
/// destination does not overflow; otherwise fails with no effect.
pub fn transfer(amount: u64, from: &mut TokenAccount, to: &mut TokenAccount, authority: &Key) -> (r: Result<(), TokenError>)
    ensures
        r is Ok <==> transfer_ok(*old(from), *old(to), amount, *authority),
        r is Ok ==> *final(from) == with_amount(*old(from), (old(from).amount - amount) as u64)
            && *final(to) == with_amount(*old(to), (old(to).amount + amount) as u64),
        r matches Err(e) ==> e == transfer_err(*old(from), *old(to), amount, *authority)
            && *final(from) == *old(from) && *final(to) == *old(to),
{
    if from.owner != *authority {
        return Err(TokenError::OwnerMismatch);
    }
    if from.mint != to.mint {
        return Err(TokenError::MintMismatch);
    }
    if from.amount < amount {
        return Err(TokenError::InsufficientFunds);
    }
    if to.amount > u64::MAX - amount {
        return Err(TokenError::Overflow);
    }
    from.amount = from.amount - amount;
    to.amount = to.amount + amount;
    Ok(())
}

/// Reassigns the control authority of `account` to `new_authority`, if
/// `current_authority` is its present authority; otherwise fails with no
/// effect.
pub fn set_authority(account: &mut TokenAccount, new_authority: &Key, current_authority: &Key) -> (r: Result<(), TokenError>)
    ensures
        r is Ok <==> old(account).owner == *current_authority,
        r is Ok ==> *final(account) == with_owner(*old(account), *new_authority),
        r matches Err(e) ==> e == TokenError::OwnerMismatch && *final(account) == *old(account),
{
    if account.owner != *current_authority {
        return Err(TokenError::OwnerMismatch);
    }
    account.owner = *new_authority;
    Ok(())
}

/// The first failure a close reports when it cannot succeed.
pub open spec fn close_err(account: TokenAccount, authority: Key) -> TokenError {
    if account.owner != authority {
        TokenError::OwnerMismatch
    } else {
        TokenError::NonZeroBalance
    }
}

/// Destroys `account`, reclaiming its storage to `destination`, if
/// `authority` controls it and its balance is zero. On failure the account
/// survives unchanged and is handed back inside the error. The reclaimed
/// storage balance itself is rent accounting, which the host provides and
/// this model does not count.
pub fn close_account(account: TokenAccount, destination: &Key, authority: &Key) -> (r: Result<(), (TokenAccount, TokenError)>)
    ensures
        r is Ok <==> account.owner == *authority && account.amount == 0,
        r matches Err(e) ==> e.0 == account && e.1 == close_err(account, *authority),
{
    if account.owner != *authority {
        return Err((account, TokenError::OwnerMismatch));
    }
    if account.amount != 0 {
        return Err((account, TokenError::NonZeroBalance));
    }
    let _ = destination;
    Ok(())
}

} // verus!
