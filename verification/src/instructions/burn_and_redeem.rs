//! Redeeming a voucher: burn the one voucher unit out of the redeemer's
//! custody, mark the record redeemed, and pay its recorded amount out of
//! escrow under the vault's re-derived authority.

use vstd::prelude::*;

use crate::addresses::{
    Address, ProgramConfig, derive_voucher_record_address, voucher_record_address_for,
};
use crate::errors::VaultError;
use crate::gateway;
use crate::state::{CreatorVault, TokenAccount, TokenMint, VoucherRecord};

verus! {

/// Everything the host presents to redeem a voucher.
#[derive(Clone, Copy, Debug, PartialEq, Eq)]
pub struct BurnAndRedeem {
    /// The signing redeemer.
    pub redeemer: Address,
    /// The vault's address.
    pub creator_vault_address: Address,
    /// The vault record presented for this redemption.
    pub creator_vault: CreatorVault,
    /// The asset mint presented; must match the vault's recorded one.
    pub token_mint: Address,
    /// The vault's escrow holding account.
    pub vault_token_account: TokenAccount,
    /// The redeemer's holding account for the asset, receiving the payout.
    pub redeemer_token_account: TokenAccount,
    /// The voucher token's mint.
    pub voucher_mint: TokenMint,
    /// The redeemer's holding account for the voucher token.
    pub redeemer_voucher_token_account: TokenAccount,
    /// The voucher record's address.
    pub voucher_record_address: Address,
    /// The voucher record presented.
    pub voucher_record: VoucherRecord,
    /// The transfer service presented; must match the vault's recorded one.
    pub token_program: Address,
}

/// The validation predicates that do not involve address derivation, all
/// passing: matching registries and transfer service, owned accounts, a
/// voucher record bound to this vault and token, unredeemed, owing a
/// positive amount, with the unit in the redeemer's custody.
pub open spec fn redeem_validated_except_derivation(ctx: BurnAndRedeem) -> bool {
    &&& ctx.token_mint == ctx.creator_vault.token_mint
    &&& ctx.vault_token_account.address == ctx.creator_vault.vault_token_account
    &&& ctx.vault_token_account.mint == ctx.token_mint
    &&& ctx.redeemer_token_account.owner == ctx.redeemer
    &&& ctx.redeemer_token_account.mint == ctx.token_mint
    &&& ctx.redeemer_voucher_token_account.owner == ctx.redeemer
    &&& ctx.redeemer_voucher_token_account.mint == ctx.voucher_mint.address
    &&& ctx.token_program == ctx.creator_vault.token_program
    &&& ctx.voucher_record.vault == ctx.creator_vault_address
    &&& ctx.voucher_record.voucher_mint == ctx.voucher_mint.address
    &&& !ctx.voucher_record.is_redeemed
    &&& ctx.redeemer_voucher_token_account.amount >= 1
    &&& ctx.voucher_record.deposit_amount > 0
}

/// The environment guarantees under which the transfer service accepts the
/// burn and the payout: the escrow is owned by the vault's authority and
/// covers the owed amount, the payout does not overflow the redeemer's
/// balance, and the voucher unit is backed by supply.
pub open spec fn redeem_fits(ctx: BurnAndRedeem) -> bool {
    &&& ctx.vault_token_account.owner == ctx.creator_vault_address
    &&& ctx.vault_token_account.amount >= ctx.voucher_record.deposit_amount
    &&& ctx.redeemer_token_account.amount + ctx.voucher_record.deposit_amount <= u64::MAX
    &&& ctx.voucher_mint.supply >= 1
}

/// The ordered validation of a redemption, given the derivation of the
/// voucher record's address: the first failing predicate decides the error;
/// `None` means all pass. The record's own checks run before the custody
/// check, so a voucher already spent reports `AlreadyRedeemed` rather than
/// `NoVoucher`.
pub open spec fn redeem_checks(ctx: BurnAndRedeem, derived: Option<(Seq<u8>, u8)>) -> Option<
    VaultError,
> {
    if ctx.token_mint != ctx.creator_vault.token_mint {
        Some(VaultError::MintMismatch)
    } else if ctx.vault_token_account.address != ctx.creator_vault.vault_token_account {
        Some(VaultError::VaultAtaMismatch)
    } else if ctx.vault_token_account.mint != ctx.token_mint {
        Some(VaultError::MintMismatch)
    } else if ctx.redeemer_token_account.owner != ctx.redeemer {
        Some(VaultError::NotOwner)
    } else if ctx.redeemer_token_account.mint != ctx.token_mint {
        Some(VaultError::MintMismatch)
    } else if ctx.redeemer_voucher_token_account.owner != ctx.redeemer {
        Some(VaultError::NotOwner)
    } else if ctx.redeemer_voucher_token_account.mint != ctx.voucher_mint.address {
        Some(VaultError::VoucherMintMismatch)
    } else if ctx.token_program != ctx.creator_vault.token_program {
        Some(VaultError::TokenProgramMismatch)
    } else if derived != Some((ctx.voucher_record_address@, ctx.voucher_record.voucher_bump)) {
        Some(VaultError::InvalidVoucherRecord)
    } else if ctx.voucher_record.vault != ctx.creator_vault_address {
        Some(VaultError::InvalidVoucherRecord)
    } else if ctx.voucher_record.voucher_mint != ctx.voucher_mint.address {
        Some(VaultError::InvalidVoucherRecord)
    } else if ctx.voucher_record.is_redeemed {
        Some(VaultError::AlreadyRedeemed)
    } else if ctx.redeemer_voucher_token_account.amount < 1 {
        Some(VaultError::NoVoucher)
    } else if ctx.voucher_record.deposit_amount == 0 {
        Some(VaultError::InvalidAmount)
    } else {
        None
    }
}

/// The saturating decrement of the vault's running total.
pub open spec fn total_after_redeem(total: u64, amount: u64) -> u64 {
    if total < amount {
        0
    } else {
        (total - amount) as u64
    }
}

/// The presented accounts after a successful redemption: the voucher unit
/// burned, the record marked redeemed forever, exactly the recorded amount
/// moved from escrow to the redeemer, and the running total decremented
/// (saturating).
pub open spec fn redeem_post(ctx: BurnAndRedeem) -> BurnAndRedeem {
    let amount = ctx.voucher_record.deposit_amount;
    BurnAndRedeem {
        voucher_mint: TokenMint {
            supply: (ctx.voucher_mint.supply - 1) as u64,
            ..ctx.voucher_mint
        },
        redeemer_voucher_token_account: TokenAccount {
            amount: (ctx.redeemer_voucher_token_account.amount - 1) as u64,
            ..ctx.redeemer_voucher_token_account
        },
        voucher_record: VoucherRecord { is_redeemed: true, ..ctx.voucher_record },
        vault_token_account: TokenAccount {
            amount: (ctx.vault_token_account.amount - amount) as u64,
            ..ctx.vault_token_account
        },
        redeemer_token_account: TokenAccount {
            amount: (ctx.redeemer_token_account.amount + amount) as u64,
            ..ctx.redeemer_token_account
        },
        creator_vault: CreatorVault {
            total_deposited: total_after_redeem(ctx.creator_vault.total_deposited, amount),
            ..ctx.creator_vault
        },
        ..ctx
    }
}

/// Decide at run time whether a redemption call meets the handler's
/// precondition: wherever the validation would pass, the escrow is under the
/// vault's authority and the movements fit the transfer service's limits.
pub fn redeem_precondition(ctx: &BurnAndRedeem) -> (r: bool)
    ensures
        r == (redeem_validated_except_derivation(*ctx) ==> redeem_fits(*ctx)),
{
    let validated = ctx.token_mint.eq_address(&ctx.creator_vault.token_mint)
        && ctx.vault_token_account.address.eq_address(&ctx.creator_vault.vault_token_account)
        && ctx.vault_token_account.mint.eq_address(&ctx.token_mint)
        && ctx.redeemer_token_account.owner.eq_address(&ctx.redeemer)
        && ctx.redeemer_token_account.mint.eq_address(&ctx.token_mint)
        && ctx.redeemer_voucher_token_account.owner.eq_address(&ctx.redeemer)
        && ctx.redeemer_voucher_token_account.mint.eq_address(&ctx.voucher_mint.address)
        && ctx.token_program.eq_address(&ctx.creator_vault.token_program)
        && ctx.voucher_record.vault.eq_address(&ctx.creator_vault_address)
        && ctx.voucher_record.voucher_mint.eq_address(&ctx.voucher_mint.address)
        && !ctx.voucher_record.is_redeemed && ctx.redeemer_voucher_token_account.amount >= 1
        && ctx.voucher_record.deposit_amount > 0;
    let fits = ctx.vault_token_account.owner.eq_address(&ctx.creator_vault_address)
        && ctx.vault_token_account.amount >= ctx.voucher_record.deposit_amount
        && ctx.voucher_record.deposit_amount <= u64::MAX - ctx.redeemer_token_account.amount
        && ctx.voucher_mint.supply >= 1;
    !validated || fits
}

/// Redeem the presented voucher: validation runs first, in order, and a
/// rejected call leaves every presented account exactly as it was. On
/// success the one voucher unit is burned, the record is marked redeemed —
/// the single point that prevents double redemption — and the redeemer
/// receives exactly the `deposit_amount` recorded at issuance, whatever else
/// was deposited since.
pub fn burn_and_redeem_handler(ctx: &mut BurnAndRedeem, cfg: &ProgramConfig) -> (r: Result<
    u64,
    VaultError,
>)
    requires
        redeem_validated_except_derivation(*old(ctx)) ==> redeem_fits(*old(ctx)),
    ensures
        ({
            let derived = voucher_record_address_for(
                cfg.program_id,
                old(ctx).creator_vault_address,
                old(ctx).voucher_mint.address,
            );
            match redeem_checks(*old(ctx), derived) {
                Some(e) => r == Err::<u64, VaultError>(e) && *final (ctx) == *old(ctx),
                None => r == Ok::<u64, VaultError>(old(ctx).voucher_record.deposit_amount)
                    && *final (ctx) == redeem_post(*old(ctx)),
            }
        }),
{
    if !ctx.token_mint.eq_address(&ctx.creator_vault.token_mint) {
        return Err(VaultError::MintMismatch);
    }
    if !ctx.vault_token_account.address.eq_address(&ctx.creator_vault.vault_token_account) {
        return Err(VaultError::VaultAtaMismatch);
    }
    if !ctx.vault_token_account.mint.eq_address(&ctx.token_mint) {
        return Err(VaultError::MintMismatch);
    }
    if !ctx.redeemer_token_account.owner.eq_address(&ctx.redeemer) {
        return Err(VaultError::NotOwner);
    }
    if !ctx.redeemer_token_account.mint.eq_address(&ctx.token_mint) {
        return Err(VaultError::MintMismatch);
    }
    if !ctx.redeemer_voucher_token_account.owner.eq_address(&ctx.redeemer) {
        return Err(VaultError::NotOwner);
    }
    if !ctx.redeemer_voucher_token_account.mint.eq_address(&ctx.voucher_mint.address) {
        return Err(VaultError::VoucherMintMismatch);
    }
    if !ctx.token_program.eq_address(&ctx.creator_vault.token_program) {
        return Err(VaultError::TokenProgramMismatch);
    }
    let derivation_ok: bool = match derive_voucher_record_address(
        &cfg.program_id,
        &ctx.creator_vault_address,
        &ctx.voucher_mint.address,
    ) {
        None => false,
        Some((record_addr, bump)) => record_addr.eq_address(&ctx.voucher_record_address) && bump
            == ctx.voucher_record.voucher_bump,
    };
    if !derivation_ok {
        return Err(VaultError::InvalidVoucherRecord);
    }
    if !ctx.voucher_record.vault.eq_address(&ctx.creator_vault_address) {
        return Err(VaultError::InvalidVoucherRecord);
    }
    if !ctx.voucher_record.voucher_mint.eq_address(&ctx.voucher_mint.address) {
        return Err(VaultError::InvalidVoucherRecord);
    }
    if ctx.voucher_record.is_redeemed {
        return Err(VaultError::AlreadyRedeemed);
    }
    if ctx.redeemer_voucher_token_account.amount < 1 {
        return Err(VaultError::NoVoucher);
    }
    let amount = ctx.voucher_record.deposit_amount;
    if amount == 0 {
        return Err(VaultError::InvalidAmount);
    }
    let redeemer = ctx.redeemer;
    match gateway::burn(
        &mut ctx.voucher_mint,
        &mut ctx.redeemer_voucher_token_account,
        &redeemer,
        1,
    ) {
        Ok(_) => {},
        Err(_) => {
            return Err(VaultError::InvalidAmount);
        },
    }
    ctx.voucher_record.is_redeemed = true;
    let asset = ctx.token_mint;
    let vault_authority = ctx.creator_vault_address;
    match gateway::transfer(
        &asset,
        &mut ctx.vault_token_account,
        &mut ctx.redeemer_token_account,
        &vault_authority,
        amount,
    ) {
        Ok(_) => {},
        Err(_) => {
            return Err(VaultError::InvalidAmount);
        },
    }
    ctx.creator_vault.total_deposited = ctx.creator_vault.total_deposited.saturating_sub(amount);
    Ok(amount)
}

} // verus!
