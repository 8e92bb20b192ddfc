use goosy_vault::errors::VaultError;
use goosy_vault::instructions::{
    deposit_spl_tokens, distribute_interest, mint_tokens_to, withdraw_spl_tokens,
    DepositSPLTokens, DistributeInterest, MintTokensTo, WithdrawSPLTokens,
};
use goosy_vault::interest::{interest_amount, interest_eligible, ONE_MONTH_SECONDS};
use goosy_vault::ledger::{verify_vault_record, LedgerState};
use goosy_vault::state::{AccountId, MintAccount, ProgramInfo, TokenAccount, Vault};

fn id(n: u64) -> AccountId {
    AccountId { w0: n, w1: 0, w2: 0, w3: 0 }
}

#[test]
fn initialise_program_info_succeeds_once_then_rejects() {
    let mut ledger = LedgerState::new();
    assert!(ledger.initialise_program_info(id(1), 254).is_ok());
    assert_eq!(ledger.get_vaults_count(), 0);
    let second = ledger.initialise_program_info(id(2), 253);
    assert_eq!(second, Err(VaultError::AlreadyInitialized));
    assert_eq!(ledger.get_vaults_count(), 0);
    match &ledger.program_info {
        Some(pi) => {
            assert_eq!(pi.admin, id(1));
            assert_eq!(pi.bump, 254);
        }
        None => panic!("program info must exist after initialisation"),
    }
}

#[test]
fn create_vault_sequence_yields_indices_in_call_order() {
    let mut ledger = LedgerState::new();
    ledger.initialise_program_info(id(1), 254).unwrap();
    let token = TokenAccount { address: id(10), mint: id(20), amount: 0 };
    for k in 0..3u32 {
        let index = ledger.create_vault(id(100 + k as u64), token, 250, 1_000);
        assert_eq!(index, k);
    }
    assert_eq!(ledger.get_vaults_count(), 3);
    for k in 0..3u32 {
        let v = ledger.get_vault(k).expect("vault must exist");
        assert_eq!(v.vault_num, k);
        assert_eq!(v.owner, id(100 + k as u64));
        assert_eq!(v.total_balance, 0);
    }
    assert!(ledger.get_vault(3).is_none());
}

#[test]
fn create_admin_vault_does_not_touch_count_and_rejects_second() {
    let mut ledger = LedgerState::new();
    ledger.initialise_program_info(id(1), 254).unwrap();
    let token = TokenAccount { address: id(10), mint: id(20), amount: 0 };
    ledger.create_vault(id(5), token, 250, 1_000);
    assert!(ledger.create_admin_vault(id(1), token, 249, 1_000).is_ok());
    assert_eq!(ledger.get_vaults_count(), 1);
    let again = ledger.create_admin_vault(id(1), token, 249, 1_000);
    assert_eq!(again, Err(VaultError::AlreadyInitialized));
    let admin = ledger.admin_vault.as_ref().expect("admin vault must exist");
    assert_eq!(admin.vault_num, 1);
    assert_eq!(admin.total_balance, 0);
}

fn deposit_ctx(balance_in_user_account: u64) -> DepositSPLTokens {
    let mint = id(20);
    let vault = Vault::new(250, id(5), 0, id(10), mint, 1_000);
    DepositSPLTokens {
        user_vault: vault,
        user_spl_token_account: TokenAccount {
            address: id(11),
            mint,
            amount: balance_in_user_account,
        },
        destination_vault_spl_token_account: TokenAccount {
            address: id(10),
            mint,
            amount: 0,
        },
        fee_payer: id(5),
    }
}

#[test]
fn deposit_moves_funds_and_raises_mirror() {
    let mut ctx = deposit_ctx(50);
    assert!(deposit_spl_tokens(&mut ctx, 30).is_ok());
    assert_eq!(ctx.user_spl_token_account.amount, 20);
    assert_eq!(ctx.destination_vault_spl_token_account.amount, 30);
    assert_eq!(ctx.user_vault.total_balance, 30);
    assert!(ctx.user_vault.has_sufficient_balance(30));
    assert!(!ctx.user_vault.has_sufficient_balance(31));
}

#[test]
fn deposit_rejects_wrong_asset_type() {
    let mut ctx = deposit_ctx(50);
    ctx.user_spl_token_account.mint = id(21);
    let r = deposit_spl_tokens(&mut ctx, 30);
    assert_eq!(r, Err(VaultError::InvalidSPLTokenType));
    assert_eq!(ctx.user_vault.total_balance, 0);
    assert_eq!(ctx.user_spl_token_account.amount, 50);
}

#[test]
fn deposit_rejects_uncovered_source() {
    let mut ctx = deposit_ctx(29);
    let r = deposit_spl_tokens(&mut ctx, 30);
    assert_eq!(r, Err(VaultError::InsufficientBalance));
    assert_eq!(ctx.user_vault.total_balance, 0);
    assert_eq!(ctx.destination_vault_spl_token_account.amount, 0);
}

fn withdraw_ctx() -> WithdrawSPLTokens {
    let mut d = deposit_ctx(50);
    deposit_spl_tokens(&mut d, 40).unwrap();
    WithdrawSPLTokens {
        vault: d.user_vault,
        vault_spl_token_account: d.destination_vault_spl_token_account,
        user_spl_token_account: d.user_spl_token_account,
        payer: id(5),
        owner: id(5),
    }
}

#[test]
fn withdraw_rejects_amount_over_mirror_without_mutation() {
    let mut ctx = withdraw_ctx();
    let r = withdraw_spl_tokens(&mut ctx, 41);
    assert_eq!(r, Err(VaultError::InsufficientBalance));
    assert_eq!(ctx.vault.total_balance, 40);
    assert_eq!(ctx.vault_spl_token_account.amount, 40);
    assert_eq!(ctx.user_spl_token_account.amount, 10);
}

#[test]
fn withdraw_moves_funds_and_lowers_mirror() {
    let mut ctx = withdraw_ctx();
    assert!(withdraw_spl_tokens(&mut ctx, 15).is_ok());
    assert_eq!(ctx.vault.total_balance, 25);
    assert_eq!(ctx.vault_spl_token_account.amount, 25);
    assert_eq!(ctx.user_spl_token_account.amount, 25);
}

#[test]
fn withdraw_rejects_non_owner() {
    let mut ctx = withdraw_ctx();
    ctx.owner = id(6);
    let r = withdraw_spl_tokens(&mut ctx, 1);
    assert_eq!(r, Err(VaultError::InvalidVaultOwner));
    assert_eq!(ctx.vault.total_balance, 40);
}

#[test]
fn withdraw_rejects_wrong_asset_type() {
    let mut ctx = withdraw_ctx();
    ctx.user_spl_token_account.mint = id(21);
    let r = withdraw_spl_tokens(&mut ctx, 1);
    assert_eq!(r, Err(VaultError::InvalidSPLTokenType));
    assert_eq!(ctx.vault.total_balance, 40);
}

fn distribute_ctx(destination_external: u64, admin_external: u64) -> DistributeInterest {
    let mint = id(20);
    let admin_owner = id(1);
    let admin_vault = Vault::new(249, admin_owner, 0, id(30), mint, 0);
    let destination_vault = Vault::new(250, id(5), 0, id(10), mint, 1_000);
    DistributeInterest {
        admin_vault,
        destination_vault,
        admin_vault_spl_token_account: TokenAccount {
            address: id(30),
            mint,
            amount: admin_external,
        },
        destination_vault_spl_token_account: TokenAccount {
            address: id(10),
            mint,
            amount: destination_external,
        },
        program_info: ProgramInfo { admin: admin_owner, bump: 254, vaults_count: 1 },
    }
}

#[test]
fn distribute_pays_one_percent_floor() {
    let mut ctx = distribute_ctx(1_000, 500);
    let now = 1_000 + ONE_MONTH_SECONDS;
    assert!(distribute_interest(&mut ctx, now).is_ok());
    assert_eq!(ctx.admin_vault_spl_token_account.amount, 490);
    assert_eq!(ctx.destination_vault_spl_token_account.amount, 1_010);
    assert_eq!(ctx.destination_vault.total_balance, 10);
}

#[test]
fn distribute_with_small_balance_pays_zero_and_succeeds() {
    let mut ctx = distribute_ctx(99, 500);
    let now = 1_000 + ONE_MONTH_SECONDS;
    assert!(distribute_interest(&mut ctx, now).is_ok());
    assert_eq!(ctx.admin_vault_spl_token_account.amount, 500);
    assert_eq!(ctx.destination_vault_spl_token_account.amount, 99);
    assert_eq!(ctx.destination_vault.total_balance, 0);
}

#[test]
fn distribute_time_gate_is_boundary_inclusive() {
    let mut early = distribute_ctx(1_000, 500);
    let r = distribute_interest(&mut early, 1_000 + ONE_MONTH_SECONDS - 1);
    assert_eq!(r, Err(VaultError::InterestNotAccruedYet));
    assert_eq!(early.destination_vault.total_balance, 0);
    assert_eq!(early.admin_vault_spl_token_account.amount, 500);

    let mut on_time = distribute_ctx(1_000, 500);
    assert!(distribute_interest(&mut on_time, 1_000 + ONE_MONTH_SECONDS).is_ok());
}

#[test]
fn distribute_rejects_admin_vault_not_owned_by_admin() {
    let mut ctx = distribute_ctx(1_000, 500);
    ctx.program_info.admin = id(2);
    let r = distribute_interest(&mut ctx, 1_000 + ONE_MONTH_SECONDS);
    assert_eq!(r, Err(VaultError::InvalidVaultOwner));
    assert_eq!(ctx.destination_vault.total_balance, 0);
}

#[test]
fn distribute_rejects_uncovered_interest() {
    let mut ctx = distribute_ctx(1_000, 9);
    let r = distribute_interest(&mut ctx, 1_000 + ONE_MONTH_SECONDS);
    assert_eq!(r, Err(VaultError::InsufficientBalance));
    assert_eq!(ctx.admin_vault_spl_token_account.amount, 9);
    assert_eq!(ctx.destination_vault.total_balance, 0);
}

#[test]
fn interest_formula_and_gate_values() {
    assert_eq!(interest_amount(1_000), 10);
    assert_eq!(interest_amount(99), 0);
    assert_eq!(interest_amount(199), 1);
    assert_eq!(ONE_MONTH_SECONDS, 2_592_000);
    assert!(!interest_eligible(0, ONE_MONTH_SECONDS - 1));
    assert!(interest_eligible(0, ONE_MONTH_SECONDS));
}

#[test]
fn mint_never_alters_admin_vault_mirror() {
    let mint_addr = id(20);
    let admin_vault_address = id(40);
    let admin_vault = Vault::new(249, id(1), 0, id(30), mint_addr, 0);
    let mut ctx = MintTokensTo {
        mint: MintAccount { address: mint_addr, mint_authority: admin_vault_address, supply: 70 },
        destination_vault_spl_token_account: TokenAccount {
            address: id(10),
            mint: mint_addr,
            amount: 5,
        },
        admin_vault,
        admin_vault_address,
        fee_payer: id(9),
    };
    assert!(mint_tokens_to(&mut ctx, 25).is_ok());
    assert_eq!(ctx.destination_vault_spl_token_account.amount, 30);
    assert_eq!(ctx.mint.supply, 95);
    assert_eq!(ctx.admin_vault.total_balance, 0);

    ctx.mint.mint_authority = id(41);
    let r = mint_tokens_to(&mut ctx, 1);
    assert_eq!(r, Err(VaultError::InvalidVaultOwner));
    assert_eq!(ctx.destination_vault_spl_token_account.amount, 30);
    assert_eq!(ctx.admin_vault.total_balance, 0);
}

#[test]
fn vault_record_index_mismatch_is_a_derivation_mismatch() {
    let v = Vault::new(250, id(5), 7, id(10), id(20), 1_000);
    assert!(verify_vault_record(7, &v).is_ok());
    assert_eq!(verify_vault_record(8, &v), Err(VaultError::AddressDerivationMismatch));
}

#[test]
fn vault_asset_type_check() {
    let v = Vault::new(250, id(5), 0, id(10), id(20), 1_000);
    assert!(v.verify_spl_token_type(id(20)));
    assert!(!v.verify_spl_token_type(id(21)));
}

#[test]
fn lifecycle_balance_reconciles_with_event_net() {
    // deposits + interest received - withdrawals = mirrored balance
    let mut d = deposit_ctx(1_000);
    deposit_spl_tokens(&mut d, 600).unwrap();
    let mut w = WithdrawSPLTokens {
        vault: d.user_vault,
        vault_spl_token_account: d.destination_vault_spl_token_account,
        user_spl_token_account: d.user_spl_token_account,
        payer: id(5),
        owner: id(5),
    };
    withdraw_spl_tokens(&mut w, 150).unwrap();
    let mint = id(20);
    let admin_owner = id(1);
    let mut x = DistributeInterest {
        admin_vault: Vault::new(249, admin_owner, 0, id(30), mint, 0),
        destination_vault: w.vault,
        admin_vault_spl_token_account: TokenAccount { address: id(30), mint, amount: 500 },
        destination_vault_spl_token_account: w.vault_spl_token_account,
        program_info: ProgramInfo { admin: admin_owner, bump: 254, vaults_count: 1 },
    };
    distribute_interest(&mut x, 1_000 + ONE_MONTH_SECONDS).unwrap();
    // 600 deposited - 150 withdrawn + floor(450 / 100) interest
    assert_eq!(x.destination_vault.total_balance, 600 - 150 + 4);
    assert_eq!(x.destination_vault_spl_token_account.amount, 450 + 4);
    assert_eq!(x.admin_vault_spl_token_account.amount, 500 - 4);
}
