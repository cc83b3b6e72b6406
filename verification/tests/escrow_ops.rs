use escrow_anchor::escrow::{EscrowError, EscrowProgram, EscrowSlot};
use escrow_anchor::states::EscrowAccount;
use escrow_anchor::token::{TokenAccount, TokenError};
use escrow_anchor::Key;

fn key(tag: u64) -> Key {
    Key::new(tag, 0, 0, 0)
}

struct Setup {
    program: EscrowProgram,
    initializer: Key,
    mint_a: Key,
    mint_b: Key,
    deposit: TokenAccount,
    receive: TokenAccount,
}

fn setup() -> Setup {
    let initializer = key(10);
    let mint_a = key(1);
    let mint_b = key(2);
    Setup {
        program: EscrowProgram::new(key(99)),
        initializer,
        mint_a,
        mint_b,
        deposit: TokenAccount { key: key(11), mint: mint_a, owner: initializer, amount: 100 },
        receive: TokenAccount { key: key(12), mint: mint_b, owner: initializer, amount: 0 },
    }
}

#[test]
fn initialize_creates_record_and_vault() {
    let mut s = setup();
    let r = s.program.initialize(&s.initializer, &s.mint_a, &mut s.deposit, &s.receive, 60, 50);
    assert_eq!(r, Ok(()));
    assert_eq!(s.deposit.amount, 40);
    let slot = s.program.slot.expect("a record and a vault must exist");
    assert_eq!(slot.vault_account.amount, 60);
    assert_eq!(slot.vault_account.mint, s.mint_a);
    assert_eq!(slot.escrow_account.initializer_key, s.initializer);
    assert_eq!(slot.escrow_account.initializer_deposit_token_account, s.deposit.key);
    assert_eq!(slot.escrow_account.initializer_receive_token_account, s.receive.key);
    assert_eq!(slot.escrow_account.initializer_amount, 60);
    assert_eq!(slot.escrow_account.taker_amount, 50);
}

#[test]
fn initialize_moves_vault_authority_away_from_initializer() {
    let mut s = setup();
    s.program.initialize(&s.initializer, &s.mint_a, &mut s.deposit, &s.receive, 60, 50).unwrap();
    let slot = s.program.slot.unwrap();
    assert_ne!(slot.vault_account.owner, s.initializer);
    let (vault_authority, _bump) = escrow_anchor::keys::derive_authority(
        &escrow_anchor::keys::escrow_seed_bytes(),
        &s.program.program_id,
    )
    .unwrap();
    assert_eq!(slot.vault_account.owner, vault_authority);
    let (vault_address, _bump) = escrow_anchor::keys::derive_authority(
        &escrow_anchor::keys::vault_seed_bytes(),
        &s.program.program_id,
    )
    .unwrap();
    assert_eq!(slot.vault_account.key, vault_address);
}

#[test]
fn initialize_rejects_insufficient_deposit() {
    let mut s = setup();
    let r = s.program.initialize(&s.initializer, &s.mint_a, &mut s.deposit, &s.receive, 101, 50);
    assert_eq!(r, Err(EscrowError::InsufficientDepositBalance));
    assert!(s.program.slot.is_none());
    assert_eq!(s.deposit.amount, 100);
}

#[test]
fn initialize_rejects_wrong_asset() {
    let mut s = setup();
    let r = s.program.initialize(&s.initializer, &s.mint_b, &mut s.deposit, &s.receive, 60, 50);
    assert_eq!(r, Err(EscrowError::DepositAssetMismatch));
    assert!(s.program.slot.is_none());
}

#[test]
fn initialize_rejects_foreign_deposit_account() {
    let mut s = setup();
    s.deposit.owner = key(66);
    let r = s.program.initialize(&s.initializer, &s.mint_a, &mut s.deposit, &s.receive, 60, 50);
    assert_eq!(r, Err(EscrowError::DepositAuthorityMismatch));
}

#[test]
fn initialize_rejects_live_slot() {
    let mut s = setup();
    s.program.initialize(&s.initializer, &s.mint_a, &mut s.deposit, &s.receive, 60, 50).unwrap();
    let r = s.program.initialize(&s.initializer, &s.mint_a, &mut s.deposit, &s.receive, 10, 5);
    assert_eq!(r, Err(EscrowError::RecordInUse));
    assert_eq!(s.deposit.amount, 40);
}

#[test]
fn cancel_restores_deposit_balance() {
    let mut s = setup();
    s.program.initialize(&s.initializer, &s.mint_a, &mut s.deposit, &s.receive, 60, 50).unwrap();
    let r = s.program.cancel(&s.initializer, &mut s.deposit);
    assert_eq!(r, Ok(()));
    assert_eq!(s.deposit.amount, 100);
    assert!(s.program.slot.is_none());
}

#[test]
fn cancel_rejects_other_signer() {
    let mut s = setup();
    s.program.initialize(&s.initializer, &s.mint_a, &mut s.deposit, &s.receive, 60, 50).unwrap();
    let intruder = key(77);
    let r = s.program.cancel(&intruder, &mut s.deposit);
    assert_eq!(r, Err(EscrowError::SignerMismatch));
    assert_eq!(s.deposit.amount, 40);
    assert!(s.program.slot.is_some());
}

#[test]
fn cancel_rejects_wrong_deposit_account() {
    let mut s = setup();
    s.program.initialize(&s.initializer, &s.mint_a, &mut s.deposit, &s.receive, 60, 50).unwrap();
    let mut other = TokenAccount { key: key(55), mint: s.mint_a, owner: s.initializer, amount: 0 };
    let r = s.program.cancel(&s.initializer, &mut other);
    assert_eq!(r, Err(EscrowError::DepositAccountMismatch));
    assert_eq!(other.amount, 0);
}

#[test]
fn cancel_rejects_empty_slot() {
    let mut s = setup();
    let r = s.program.cancel(&s.initializer, &mut s.deposit);
    assert_eq!(r, Err(EscrowError::RecordAbsent));
}

fn taker_accounts(s: &Setup) -> (Key, TokenAccount, TokenAccount) {
    let taker = key(20);
    let taker_deposit = TokenAccount { key: key(21), mint: s.mint_b, owner: taker, amount: 80 };
    let taker_receive = TokenAccount { key: key(22), mint: s.mint_a, owner: taker, amount: 0 };
    (taker, taker_deposit, taker_receive)
}

#[test]
fn exchange_swaps_assets_and_tears_down() {
    let mut s = setup();
    s.program.initialize(&s.initializer, &s.mint_a, &mut s.deposit, &s.receive, 60, 50).unwrap();
    let (taker, mut td, mut tr) = taker_accounts(&s);
    let deposit_key = s.deposit.key;
    let r = s.program.exchange(&taker, &mut td, &mut tr, &s.initializer, &deposit_key, &mut s.receive);
    assert_eq!(r, Ok(()));
    assert_eq!(tr.amount, 60);
    assert_eq!(td.amount, 30);
    assert_eq!(s.receive.amount, 50);
    assert!(s.program.slot.is_none());
}

#[test]
fn exchange_rejects_insufficient_taker_balance() {
    let mut s = setup();
    s.program.initialize(&s.initializer, &s.mint_a, &mut s.deposit, &s.receive, 60, 50).unwrap();
    let (taker, mut td, mut tr) = taker_accounts(&s);
    td.amount = 49;
    let deposit_key = s.deposit.key;
    let r = s.program.exchange(&taker, &mut td, &mut tr, &s.initializer, &deposit_key, &mut s.receive);
    assert_eq!(r, Err(EscrowError::InsufficientTakerBalance));
    assert_eq!(td.amount, 49);
    assert_eq!(tr.amount, 0);
    assert_eq!(s.receive.amount, 0);
    assert!(s.program.slot.is_some());
}

#[test]
fn exchange_rejects_wrong_deposit_reference() {
    let mut s = setup();
    s.program.initialize(&s.initializer, &s.mint_a, &mut s.deposit, &s.receive, 60, 50).unwrap();
    let (taker, mut td, mut tr) = taker_accounts(&s);
    let wrong = key(88);
    let r = s.program.exchange(&taker, &mut td, &mut tr, &s.initializer, &wrong, &mut s.receive);
    assert_eq!(r, Err(EscrowError::DepositAccountMismatch));
}

#[test]
fn exchange_rejects_wrong_receive_account() {
    let mut s = setup();
    s.program.initialize(&s.initializer, &s.mint_a, &mut s.deposit, &s.receive, 60, 50).unwrap();
    let (taker, mut td, mut tr) = taker_accounts(&s);
    let deposit_key = s.deposit.key;
    let mut other = TokenAccount { key: key(89), mint: s.mint_b, owner: s.initializer, amount: 0 };
    let r = s.program.exchange(&taker, &mut td, &mut tr, &s.initializer, &deposit_key, &mut other);
    assert_eq!(r, Err(EscrowError::ReceiveAccountMismatch));
}

#[test]
fn exchange_rejects_wrong_initializer() {
    let mut s = setup();
    s.program.initialize(&s.initializer, &s.mint_a, &mut s.deposit, &s.receive, 60, 50).unwrap();
    let (taker, mut td, mut tr) = taker_accounts(&s);
    let deposit_key = s.deposit.key;
    let impostor = key(44);
    let r = s.program.exchange(&taker, &mut td, &mut tr, &impostor, &deposit_key, &mut s.receive);
    assert_eq!(r, Err(EscrowError::InitializerMismatch));
}

#[test]
fn exchange_rejects_unsigned_taker_deposit() {
    let mut s = setup();
    s.program.initialize(&s.initializer, &s.mint_a, &mut s.deposit, &s.receive, 60, 50).unwrap();
    let (taker, mut td, mut tr) = taker_accounts(&s);
    td.owner = key(66);
    let deposit_key = s.deposit.key;
    let r = s.program.exchange(&taker, &mut td, &mut tr, &s.initializer, &deposit_key, &mut s.receive);
    assert_eq!(r, Err(EscrowError::TokenFailure(TokenError::OwnerMismatch)));
}

#[test]
fn exchange_rejects_wrong_taker_receive_asset() {
    let mut s = setup();
    s.program.initialize(&s.initializer, &s.mint_a, &mut s.deposit, &s.receive, 60, 50).unwrap();
    let (taker, mut td, mut tr) = taker_accounts(&s);
    tr.mint = s.mint_b;
    let deposit_key = s.deposit.key;
    let r = s.program.exchange(&taker, &mut td, &mut tr, &s.initializer, &deposit_key, &mut s.receive);
    assert_eq!(r, Err(EscrowError::TokenFailure(TokenError::MintMismatch)));
}

#[test]
fn exchange_rejects_overflowing_taker_receive() {
    let mut s = setup();
    s.program.initialize(&s.initializer, &s.mint_a, &mut s.deposit, &s.receive, 60, 50).unwrap();
    let (taker, mut td, mut tr) = taker_accounts(&s);
    tr.amount = u64::MAX;
    let deposit_key = s.deposit.key;
    let r = s.program.exchange(&taker, &mut td, &mut tr, &s.initializer, &deposit_key, &mut s.receive);
    assert_eq!(r, Err(EscrowError::TokenFailure(TokenError::Overflow)));
    assert_eq!(td.amount, 80);
    assert!(s.program.slot.is_some());
}

#[test]
fn settlement_is_exclusive() {
    let mut s = setup();
    s.program.initialize(&s.initializer, &s.mint_a, &mut s.deposit, &s.receive, 60, 50).unwrap();
    s.program.cancel(&s.initializer, &mut s.deposit).unwrap();
    let r = s.program.cancel(&s.initializer, &mut s.deposit);
    assert_eq!(r, Err(EscrowError::RecordAbsent));
    let (taker, mut td, mut tr) = taker_accounts(&s);
    let deposit_key = s.deposit.key;
    let r = s.program.exchange(&taker, &mut td, &mut tr, &s.initializer, &deposit_key, &mut s.receive);
    assert_eq!(r, Err(EscrowError::RecordAbsent));
}

#[test]
fn cancel_reports_custody_failure_on_tampered_vault() {
    // A hand-built state whose vault holds less than the record says: the
    // refund transfer cannot succeed, and the custody reason comes through.
    let program_id = key(99);
    let initializer = key(10);
    let mint_a = key(1);
    let (vault_authority, _bump) =
        escrow_anchor::keys::derive_authority(&escrow_anchor::keys::escrow_seed_bytes(), &program_id).unwrap();
    let mut deposit = TokenAccount { key: key(11), mint: mint_a, owner: initializer, amount: 0 };
    let mut program = EscrowProgram {
        program_id,
        slot: Some(EscrowSlot {
            escrow_account: EscrowAccount {
                initializer_key: initializer,
                initializer_deposit_token_account: deposit.key,
                initializer_receive_token_account: key(12),
                initializer_amount: 60,
                taker_amount: 50,
            },
            vault_account: TokenAccount { key: key(13), mint: mint_a, owner: vault_authority, amount: 59 },
        }),
    };
    let r = program.cancel(&initializer, &mut deposit);
    assert_eq!(r, Err(EscrowError::TokenFailure(TokenError::InsufficientFunds)));
    assert_eq!(deposit.amount, 0);
    assert!(program.slot.is_some());
}

#[test]
fn cancel_reports_overfull_vault() {
    // A hand-built state whose vault holds more than the record says: the
    // vault would not be empty after the refund, so it cannot be closed.
    let program_id = key(99);
    let initializer = key(10);
    let mint_a = key(1);
    let (vault_authority, _bump) =
        escrow_anchor::keys::derive_authority(&escrow_anchor::keys::escrow_seed_bytes(), &program_id).unwrap();
    let mut deposit = TokenAccount { key: key(11), mint: mint_a, owner: initializer, amount: 0 };
    let mut program = EscrowProgram {
        program_id,
        slot: Some(EscrowSlot {
            escrow_account: EscrowAccount {
                initializer_key: initializer,
                initializer_deposit_token_account: deposit.key,
                initializer_receive_token_account: key(12),
                initializer_amount: 60,
                taker_amount: 50,
            },
            vault_account: TokenAccount { key: key(13), mint: mint_a, owner: vault_authority, amount: 61 },
        }),
    };
    let r = program.cancel(&initializer, &mut deposit);
    assert_eq!(r, Err(EscrowError::TokenFailure(TokenError::NonZeroBalance)));
    assert_eq!(deposit.amount, 0);
    assert!(program.slot.is_some());
}

#[test]
fn example_trade_one_hundred_for_fifty() {
    // The worked example: 100 units of asset A deposited, 50 of asset B
    // wanted. One run exchanges, an independent run cancels first.
    let initializer = key(10);
    let taker = key(20);
    let mint_a = key(1);
    let mint_b = key(2);
    let mut program = EscrowProgram::new(key(99));
    let mut deposit = TokenAccount { key: key(11), mint: mint_a, owner: initializer, amount: 100 };
    let mut receive = TokenAccount { key: key(12), mint: mint_b, owner: initializer, amount: 0 };
    program.initialize(&initializer, &mint_a, &mut deposit, &receive, 100, 50).unwrap();
    let slot = program.slot.unwrap();
    assert_eq!(slot.vault_account.amount, 100);
    assert_eq!(slot.escrow_account.initializer_amount, 100);
    assert_eq!(slot.escrow_account.taker_amount, 50);

    // First run: the taker supplies 50 B and the trade completes.
    let mut exchanged = program;
    let mut td = TokenAccount { key: key(21), mint: mint_b, owner: taker, amount: 50 };
    let mut tr = TokenAccount { key: key(22), mint: mint_a, owner: taker, amount: 0 };
    let deposit_key = deposit.key;
    let mut receive_x = receive;
    let r = exchanged.exchange(&taker, &mut td, &mut tr, &initializer, &deposit_key, &mut receive_x);
    assert_eq!(r, Ok(()));
    assert_eq!(tr.amount, 100);
    assert_eq!(receive_x.amount, 50);
    assert_eq!(td.amount, 0);
    assert!(exchanged.slot.is_none());

    // Second run: the initializer cancels first; the later exchange fails.
    let mut cancelled = program;
    let mut deposit_c = deposit;
    cancelled.cancel(&initializer, &mut deposit_c).unwrap();
    assert_eq!(deposit_c.amount, 100);
    assert!(cancelled.slot.is_none());
    let mut td2 = TokenAccount { key: key(21), mint: mint_b, owner: taker, amount: 50 };
    let mut tr2 = TokenAccount { key: key(22), mint: mint_a, owner: taker, amount: 0 };
    let r = cancelled.exchange(&taker, &mut td2, &mut tr2, &initializer, &deposit_key, &mut receive);
    assert_eq!(r, Err(EscrowError::RecordAbsent));
}
