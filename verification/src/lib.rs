//! A custodial vault that escrows a fungible asset per (creator, asset) pair
//! and issues single-use voucher tokens redeemable for the escrowed value.
//!
//! The three transitions — opening a vault, depositing and issuing a voucher,
//! and burning a voucher to redeem its value — validate every presented record
//! before any mutation, so a rejected call leaves all state untouched, and a
//! voucher pays out exactly once.

pub mod addresses;
pub mod errors;
pub mod state;
pub mod gateway;
pub mod instructions;
pub mod laws;

use vstd::prelude::*;

use crate::addresses::ProgramConfig;
use crate::errors::VaultError;
use crate::state::{CreatorVault, VoucherRecord};
use crate::instructions::initialize_vault::{InitializeVault, initialize_vault_handler};
use crate::instructions::deposit_and_mint_voucher::{DepositAndMintVoucher, deposit_and_mint_voucher_handler};
use crate::instructions::burn_and_redeem::{BurnAndRedeem, burn_and_redeem_handler};

verus! {

/// Open a vault for `(ctx.creator, ctx.token_mint)`. See
/// [`initialize_vault_handler`] for the full contract.
pub fn initialize_vault(ctx: &InitializeVault, cfg: &ProgramConfig) -> (r: Result<
    CreatorVault,
    VaultError,
>)
    ensures
        r == crate::instructions::initialize_vault::initialize_result(
            *ctx,
            crate::addresses::vault_address_for(cfg.program_id, ctx.creator, ctx.token_mint),
            crate::addresses::associated_token_address_for(
                cfg.ata_program_id,
                ctx.creator_vault_address,
                ctx.token_program,
                ctx.token_mint,
            ),
        ),
{
    initialize_vault_handler(ctx, cfg)
}

/// Escrow `amount` of the vault's asset and issue a fresh single-unit voucher
/// for it. See [`deposit_and_mint_voucher_handler`] for the full contract.
pub fn deposit_and_mint_voucher(
    ctx: &mut DepositAndMintVoucher,
    cfg: &ProgramConfig,
    amount: u64,
) -> (r: Result<VoucherRecord, VaultError>)
    requires
        crate::instructions::deposit_and_mint_voucher::deposit_host_invariants(*old(ctx)),
        crate::instructions::deposit_and_mint_voucher::deposit_validated_except_record(
            *old(ctx),
            amount,
        ) ==> crate::instructions::deposit_and_mint_voucher::deposit_fits(*old(ctx), amount),
    ensures
        ({
            let derived = crate::addresses::voucher_record_address_for(
                cfg.program_id,
                old(ctx).creator_vault_address,
                old(ctx).voucher_mint.address,
            );
            match crate::instructions::deposit_and_mint_voucher::deposit_checks(
                *old(ctx),
                amount,
                derived,
            ) {
                Some(e) => r == Err::<VoucherRecord, VaultError>(e) && *final (ctx) == *old(ctx),
                None => {
                    &&& *final (ctx) == crate::instructions::deposit_and_mint_voucher::deposit_post(
                        *old(ctx),
                        amount,
                    )
                    &&& (match derived {
                        Some(p) => r == Ok::<VoucherRecord, VaultError>(
                            crate::instructions::deposit_and_mint_voucher::issued_voucher(
                                *old(ctx),
                                amount,
                                p.1,
                            ),
                        ),
                        None => false,
                    })
                },
            }
        }),
{
    deposit_and_mint_voucher_handler(ctx, cfg, amount)
}

/// Burn a voucher and pay its recorded amount out of escrow. See
/// [`burn_and_redeem_handler`] for the full contract.
pub fn burn_and_redeem(ctx: &mut BurnAndRedeem, cfg: &ProgramConfig) -> (r: Result<
    u64,
    VaultError,
>)
    requires
        crate::instructions::burn_and_redeem::redeem_validated_except_derivation(*old(ctx))
            ==> crate::instructions::burn_and_redeem::redeem_fits(*old(ctx)),
    ensures
        ({
            let derived = crate::addresses::voucher_record_address_for(
                cfg.program_id,
                old(ctx).creator_vault_address,
                old(ctx).voucher_mint.address,
            );
            match crate::instructions::burn_and_redeem::redeem_checks(*old(ctx), derived) {
                Some(e) => r == Err::<u64, VaultError>(e) && *final (ctx) == *old(ctx),
                None => r == Ok::<u64, VaultError>(old(ctx).voucher_record.deposit_amount)
                    && *final (ctx) == crate::instructions::burn_and_redeem::redeem_post(*old(ctx)),
            }
        }),
{
    burn_and_redeem_handler(ctx, cfg)
}

} // verus!
