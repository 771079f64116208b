//! One test per rejection kind: each failing predicate returns its own error
//! and leaves every presented account exactly as it was.

use vaultbuilder::addresses::{
    derive_associated_token_address, derive_vault_address, derive_voucher_record_address, Address,
    ProgramConfig,
};
use vaultbuilder::errors::VaultError;
use vaultbuilder::instructions::burn_and_redeem::BurnAndRedeem;
use vaultbuilder::instructions::deposit_and_mint_voucher::DepositAndMintVoucher;
use vaultbuilder::state::{CreatorVault, TokenAccount, TokenMint, VoucherRecord};
use vaultbuilder::{burn_and_redeem, deposit_and_mint_voucher};

fn addr(n: u8) -> Address {
    Address { bytes: [n; 32] }
}

fn config() -> ProgramConfig {
    ProgramConfig {
        program_id: addr(7),
        ata_program_id: addr(8),
    }
}

/// A fully consistent deposit context for amount-1000 deposits.
fn valid_deposit() -> (ProgramConfig, DepositAndMintVoucher) {
    let cfg = config();
    let creator = addr(1);
    let asset = addr(2);
    let token_program = addr(3);
    let depositor = addr(4);
    let voucher_mint_addr = addr(5);
    let (vault_addr, vault_bump) =
        derive_vault_address(&cfg.program_id, &creator, &asset).unwrap();
    let (escrow_addr, _) =
        derive_associated_token_address(&cfg.ata_program_id, &vault_addr, &token_program, &asset)
            .unwrap();
    let (rec_addr, _) =
        derive_voucher_record_address(&cfg.program_id, &vault_addr, &voucher_mint_addr).unwrap();
    let ctx = DepositAndMintVoucher {
        depositor,
        creator_vault_address: vault_addr,
        creator_vault: CreatorVault {
            creator,
            token_mint: asset,
            token_program,
            vault_token_account: escrow_addr,
            total_deposited: 0,
            vault_bump,
        },
        token_mint: asset,
        depositor_token_account: TokenAccount {
            address: addr(20),
            mint: asset,
            owner: depositor,
            amount: 5000,
        },
        vault_token_account: TokenAccount {
            address: escrow_addr,
            mint: asset,
            owner: vault_addr,
            amount: 0,
        },
        voucher_mint: TokenMint {
            address: voucher_mint_addr,
            mint_authority: Some(depositor),
            supply: 0,
        },
        depositor_voucher_token_account: TokenAccount {
            address: addr(21),
            mint: voucher_mint_addr,
            owner: depositor,
            amount: 0,
        },
        voucher_record_address: rec_addr,
        voucher_record_exists: false,
        token_program,
    };
    (cfg, ctx)
}

/// A fully consistent redemption context for a 1000-unit voucher.
fn valid_redeem() -> (ProgramConfig, BurnAndRedeem) {
    let (cfg, mut dctx) = valid_deposit();
    let record = deposit_and_mint_voucher(&mut dctx, &cfg, 1000).unwrap();
    let rctx = BurnAndRedeem {
        redeemer: dctx.depositor,
        creator_vault_address: dctx.creator_vault_address,
        creator_vault: dctx.creator_vault,
        token_mint: dctx.token_mint,
        vault_token_account: dctx.vault_token_account,
        redeemer_token_account: dctx.depositor_token_account,
        voucher_mint: dctx.voucher_mint,
        redeemer_voucher_token_account: dctx.depositor_voucher_token_account,
        voucher_record_address: dctx.voucher_record_address,
        voucher_record: record,
        token_program: dctx.token_program,
    };
    (cfg, rctx)
}

fn expect_deposit_error(
    cfg: &ProgramConfig,
    mut ctx: DepositAndMintVoucher,
    amount: u64,
    expected: VaultError,
) {
    let snapshot = ctx;
    let r = deposit_and_mint_voucher(&mut ctx, cfg, amount);
    assert_eq!(r.unwrap_err(), expected);
    assert_eq!(ctx, snapshot);
}

fn expect_redeem_error(cfg: &ProgramConfig, mut ctx: BurnAndRedeem, expected: VaultError) {
    let snapshot = ctx;
    let r = burn_and_redeem(&mut ctx, cfg);
    assert_eq!(r.unwrap_err(), expected);
    assert_eq!(ctx, snapshot);
}

#[test]
fn deposit_wrong_asset_mint() {
    let (cfg, mut ctx) = valid_deposit();
    ctx.token_mint = addr(90);
    ctx.depositor_token_account.mint = addr(90);
    ctx.vault_token_account.mint = addr(90);
    expect_deposit_error(&cfg, ctx, 1000, VaultError::MintMismatch);
}

#[test]
fn deposit_foreign_source_account() {
    let (cfg, mut ctx) = valid_deposit();
    ctx.depositor_token_account.owner = addr(91);
    expect_deposit_error(&cfg, ctx, 1000, VaultError::NotOwner);
}

#[test]
fn deposit_source_account_of_other_asset() {
    let (cfg, mut ctx) = valid_deposit();
    ctx.depositor_token_account.mint = addr(92);
    expect_deposit_error(&cfg, ctx, 1000, VaultError::MintMismatch);
}

#[test]
fn deposit_wrong_escrow_account() {
    let (cfg, mut ctx) = valid_deposit();
    ctx.vault_token_account.address = addr(93);
    expect_deposit_error(&cfg, ctx, 1000, VaultError::VaultAtaMismatch);
}

#[test]
fn deposit_wrong_transfer_service() {
    let (cfg, mut ctx) = valid_deposit();
    ctx.token_program = addr(94);
    expect_deposit_error(&cfg, ctx, 1000, VaultError::TokenProgramMismatch);
}

#[test]
fn deposit_over_existing_record() {
    let (cfg, mut ctx) = valid_deposit();
    ctx.voucher_record_exists = true;
    expect_deposit_error(&cfg, ctx, 1000, VaultError::InvalidVoucherRecord);
}

#[test]
fn deposit_record_not_at_derived_address() {
    let (cfg, mut ctx) = valid_deposit();
    ctx.voucher_record_address = addr(95);
    expect_deposit_error(&cfg, ctx, 1000, VaultError::InvalidVoucherRecord);
}

#[test]
fn deposit_zero_amount() {
    let (cfg, ctx) = valid_deposit();
    expect_deposit_error(&cfg, ctx, 0, VaultError::InvalidAmount);
}

#[test]
fn redeem_wrong_asset_mint() {
    let (cfg, mut ctx) = valid_redeem();
    ctx.token_mint = addr(90);
    ctx.vault_token_account.mint = addr(90);
    ctx.redeemer_token_account.mint = addr(90);
    expect_redeem_error(&cfg, ctx, VaultError::MintMismatch);
}

#[test]
fn redeem_wrong_escrow_account() {
    let (cfg, mut ctx) = valid_redeem();
    ctx.vault_token_account.address = addr(93);
    expect_redeem_error(&cfg, ctx, VaultError::VaultAtaMismatch);
}

#[test]
fn redeem_foreign_payout_account() {
    let (cfg, mut ctx) = valid_redeem();
    ctx.redeemer_token_account.owner = addr(91);
    expect_redeem_error(&cfg, ctx, VaultError::NotOwner);
}

#[test]
fn redeem_voucher_account_of_other_token() {
    let (cfg, mut ctx) = valid_redeem();
    ctx.redeemer_voucher_token_account.mint = addr(92);
    expect_redeem_error(&cfg, ctx, VaultError::VoucherMintMismatch);
}

#[test]
fn redeem_wrong_transfer_service() {
    let (cfg, mut ctx) = valid_redeem();
    ctx.token_program = addr(94);
    expect_redeem_error(&cfg, ctx, VaultError::TokenProgramMismatch);
}

#[test]
fn redeem_record_of_other_vault() {
    let (cfg, mut ctx) = valid_redeem();
    ctx.voucher_record.vault = addr(96);
    expect_redeem_error(&cfg, ctx, VaultError::InvalidVoucherRecord);
}

#[test]
fn redeem_record_with_wrong_bump() {
    let (cfg, mut ctx) = valid_redeem();
    ctx.voucher_record.voucher_bump = ctx.voucher_record.voucher_bump.wrapping_add(1);
    expect_redeem_error(&cfg, ctx, VaultError::InvalidVoucherRecord);
}

#[test]
fn redeem_already_redeemed_record() {
    let (cfg, mut ctx) = valid_redeem();
    ctx.voucher_record.is_redeemed = true;
    expect_redeem_error(&cfg, ctx, VaultError::AlreadyRedeemed);
}

#[test]
fn redeem_without_custody_of_voucher() {
    let (cfg, mut ctx) = valid_redeem();
    ctx.redeemer_voucher_token_account.amount = 0;
    expect_redeem_error(&cfg, ctx, VaultError::NoVoucher);
}

#[test]
fn redeem_corrupt_zero_record() {
    let (cfg, mut ctx) = valid_redeem();
    ctx.voucher_record.deposit_amount = 0;
    expect_redeem_error(&cfg, ctx, VaultError::InvalidAmount);
}

#[test]
fn redeem_by_bearer_after_transfer_of_voucher() {
    // The claim is bearer-transferable: whoever custodies the voucher unit
    // and presents their own accounts may redeem.
    let (cfg, mut ctx) = valid_redeem();
    let bearer = addr(40);
    ctx.redeemer = bearer;
    ctx.redeemer_token_account.owner = bearer;
    ctx.redeemer_voucher_token_account.owner = bearer;
    let paid = burn_and_redeem(&mut ctx, &cfg).unwrap();
    assert_eq!(paid, 1000);
    assert!(ctx.voucher_record.is_redeemed);
}
