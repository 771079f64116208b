//! Depositing into a vault and issuing the voucher: escrow the amount, record
//! the claim, mint exactly one unit of a fresh voucher token to the depositor,
//! and revoke the token's mint authority forever.

use vstd::prelude::*;

use crate::addresses::{
    Address, ProgramConfig, derive_voucher_record_address, voucher_record_address_for,
};
use crate::errors::VaultError;
use crate::gateway;
use crate::state::{CreatorVault, TokenAccount, TokenMint, VoucherRecord};

verus! {

/// Everything the host presents to deposit and issue a voucher.
#[derive(Clone, Copy, Debug, PartialEq, Eq)]
pub struct DepositAndMintVoucher {
    /// The signing depositor.
    pub depositor: Address,
    /// The vault's address.
    pub creator_vault_address: Address,
    /// The vault record presented for this deposit.
    pub creator_vault: CreatorVault,
    /// The asset mint presented; must match the vault's recorded one.
    pub token_mint: Address,
    /// The depositor's holding account for the asset.
    pub depositor_token_account: TokenAccount,
    /// The vault's escrow holding account.
    pub vault_token_account: TokenAccount,
    /// The freshly created voucher token mint, still under the depositor's
    /// mint authority and with zero supply.
    pub voucher_mint: TokenMint,
    /// The depositor's holding account for the voucher token.
    pub depositor_voucher_token_account: TokenAccount,
    /// Where the host will create the voucher record.
    pub voucher_record_address: Address,
    /// Whether a record already sits at that address; issuing over an
    /// existing record must fail.
    pub voucher_record_exists: bool,
    /// The transfer service presented; must match the vault's recorded one.
    pub token_program: Address,
}

/// What the host guarantees by creating the voucher token and its holding
/// account fresh for this call: no unit exists yet, the depositor may mint,
/// and the depositor's voucher account is empty.
pub open spec fn deposit_host_invariants(ctx: DepositAndMintVoucher) -> bool {
    &&& ctx.voucher_mint.supply == 0
    &&& ctx.voucher_mint.mint_authority == Some(ctx.depositor)
    &&& ctx.depositor_voucher_token_account.mint == ctx.voucher_mint.address
    &&& ctx.depositor_voucher_token_account.owner == ctx.depositor
    &&& ctx.depositor_voucher_token_account.amount == 0
}

/// The validation predicates that do not involve address derivation, all
/// passing, with a positive amount.
pub open spec fn deposit_validated_except_record(ctx: DepositAndMintVoucher, amount: u64) -> bool {
    &&& ctx.token_mint == ctx.creator_vault.token_mint
    &&& ctx.depositor_token_account.owner == ctx.depositor
    &&& ctx.depositor_token_account.mint == ctx.token_mint
    &&& ctx.vault_token_account.address == ctx.creator_vault.vault_token_account
    &&& ctx.vault_token_account.mint == ctx.token_mint
    &&& ctx.token_program == ctx.creator_vault.token_program
    &&& !ctx.voucher_record_exists
    &&& amount > 0
}

/// The machine limits under which the transfer service accepts the escrow
/// movement: the depositor holds the amount and the escrow balance does not
/// overflow.
pub open spec fn deposit_fits(ctx: DepositAndMintVoucher, amount: u64) -> bool {
    &&& ctx.depositor_token_account.amount >= amount
    &&& ctx.vault_token_account.amount + amount <= u64::MAX
}

/// The ordered validation of a deposit, given the derivation of the voucher
/// record's address: the first failing predicate decides the error; `None`
/// means all pass.
pub open spec fn deposit_checks(
    ctx: DepositAndMintVoucher,
    amount: u64,
    derived: Option<(Seq<u8>, u8)>,
) -> Option<VaultError> {
    if ctx.token_mint != ctx.creator_vault.token_mint {
        Some(VaultError::MintMismatch)
    } else if ctx.depositor_token_account.owner != ctx.depositor {
        Some(VaultError::NotOwner)
    } else if ctx.depositor_token_account.mint != ctx.token_mint {
        Some(VaultError::MintMismatch)
    } else if ctx.vault_token_account.address != ctx.creator_vault.vault_token_account {
        Some(VaultError::VaultAtaMismatch)
    } else if ctx.vault_token_account.mint != ctx.token_mint {
        Some(VaultError::MintMismatch)
    } else if ctx.token_program != ctx.creator_vault.token_program {
        Some(VaultError::TokenProgramMismatch)
    } else if ctx.voucher_record_exists {
        Some(VaultError::InvalidVoucherRecord)
    } else {
        match derived {
            None => Some(VaultError::InvalidVoucherRecord),
            Some((record_addr, _)) => if record_addr != ctx.voucher_record_address@ {
                Some(VaultError::InvalidVoucherRecord)
            } else if amount == 0 {
                Some(VaultError::InvalidAmount)
            } else {
                None
            },
        }
    }
}

/// The saturating increment of the vault's running total.
pub open spec fn total_after_deposit(total: u64, amount: u64) -> u64 {
    if total + amount > u64::MAX {
        u64::MAX
    } else {
        (total + amount) as u64
    }
}

/// The presented accounts after a successful deposit: the amount moved into
/// escrow, the running total incremented, one voucher unit minted to the
/// depositor, and the voucher mint's authority revoked forever.
pub open spec fn deposit_post(ctx: DepositAndMintVoucher, amount: u64) -> DepositAndMintVoucher {
    DepositAndMintVoucher {
        depositor_token_account: TokenAccount {
            amount: (ctx.depositor_token_account.amount - amount) as u64,
            ..ctx.depositor_token_account
        },
        vault_token_account: TokenAccount {
            amount: (ctx.vault_token_account.amount + amount) as u64,
            ..ctx.vault_token_account
        },
        creator_vault: CreatorVault {
            total_deposited: total_after_deposit(ctx.creator_vault.total_deposited, amount),
            ..ctx.creator_vault
        },
        voucher_mint: TokenMint { supply: 1, mint_authority: None, ..ctx.voucher_mint },
        depositor_voucher_token_account: TokenAccount {
            amount: 1,
            ..ctx.depositor_voucher_token_account
        },
        ..ctx
    }
}

/// The voucher record issued by a successful deposit: bound to this vault,
/// this voucher token and this depositor, owing exactly `amount`, unredeemed.
pub open spec fn issued_voucher(ctx: DepositAndMintVoucher, amount: u64, bump: u8) -> VoucherRecord {
    VoucherRecord {
        vault: ctx.creator_vault_address,
        voucher_mint: ctx.voucher_mint.address,
        depositor: ctx.depositor,
        deposit_amount: amount,
        is_redeemed: false,
        voucher_bump: bump,
    }
}

/// Decide at run time whether a deposit call meets the handler's
/// preconditions: the host-created voucher token is fresh and, wherever the
/// validation would pass, the movements fit the transfer service's limits.
pub fn deposit_precondition(ctx: &DepositAndMintVoucher, amount: u64) -> (r: bool)
    ensures
        r == (deposit_host_invariants(*ctx) && (deposit_validated_except_record(*ctx, amount)
            ==> deposit_fits(*ctx, amount))),
{
    let fresh_authority: bool = match &ctx.voucher_mint.mint_authority {
        Some(a) => a.eq_address(&ctx.depositor),
        None => false,
    };
    let host = ctx.voucher_mint.supply == 0 && fresh_authority
        && ctx.depositor_voucher_token_account.mint.eq_address(&ctx.voucher_mint.address)
        && ctx.depositor_voucher_token_account.owner.eq_address(&ctx.depositor)
        && ctx.depositor_voucher_token_account.amount == 0;
    let validated = ctx.token_mint.eq_address(&ctx.creator_vault.token_mint)
        && ctx.depositor_token_account.owner.eq_address(&ctx.depositor)
        && ctx.depositor_token_account.mint.eq_address(&ctx.token_mint)
        && ctx.vault_token_account.address.eq_address(&ctx.creator_vault.vault_token_account)
        && ctx.vault_token_account.mint.eq_address(&ctx.token_mint)
        && ctx.token_program.eq_address(&ctx.creator_vault.token_program)
        && !ctx.voucher_record_exists && amount > 0;
    let fits = ctx.depositor_token_account.amount >= amount && amount <= u64::MAX
        - ctx.vault_token_account.amount;
    host && (!validated || fits)
}

/// Deposit `amount` into the vault and issue a single-unit voucher for it.
///
/// Validation runs first, in order, and a rejected call leaves every
/// presented account exactly as it was. On success the escrow grows by
/// `amount`, the running total is incremented (saturating), the returned
/// record owes exactly `amount`, the depositor holds the one voucher unit
/// ever minted, and the voucher token's supply is fixed at one forever.
pub fn deposit_and_mint_voucher_handler(
    ctx: &mut DepositAndMintVoucher,
    cfg: &ProgramConfig,
    amount: u64,
) -> (r: Result<VoucherRecord, VaultError>)
    requires
        deposit_host_invariants(*old(ctx)),
        deposit_validated_except_record(*old(ctx), amount) ==> deposit_fits(*old(ctx), amount),
    ensures
        ({
            let derived = voucher_record_address_for(
                cfg.program_id,
                old(ctx).creator_vault_address,
                old(ctx).voucher_mint.address,
            );
            match deposit_checks(*old(ctx), amount, derived) {
                Some(e) => r == Err::<VoucherRecord, VaultError>(e) && *final (ctx) == *old(ctx),
                None => {
                    &&& *final (ctx) == deposit_post(*old(ctx), amount)
                    &&& (match derived {
                        Some(p) => r == Ok::<VoucherRecord, VaultError>(
                            issued_voucher(*old(ctx), amount, p.1),
                        ),
                        None => false,
                    })
                },
            }
        }),
{
    if !ctx.token_mint.eq_address(&ctx.creator_vault.token_mint) {
        return Err(VaultError::MintMismatch);
    }
    if !ctx.depositor_token_account.owner.eq_address(&ctx.depositor) {
        return Err(VaultError::NotOwner);
    }
    if !ctx.depositor_token_account.mint.eq_address(&ctx.token_mint) {
        return Err(VaultError::MintMismatch);
    }
    if !ctx.vault_token_account.address.eq_address(&ctx.creator_vault.vault_token_account) {
        return Err(VaultError::VaultAtaMismatch);
    }
    if !ctx.vault_token_account.mint.eq_address(&ctx.token_mint) {
        return Err(VaultError::MintMismatch);
    }
    if !ctx.token_program.eq_address(&ctx.creator_vault.token_program) {
        return Err(VaultError::TokenProgramMismatch);
    }
    if ctx.voucher_record_exists {
        return Err(VaultError::InvalidVoucherRecord);
    }
    let bump: u8 = match derive_voucher_record_address(
        &cfg.program_id,
        &ctx.creator_vault_address,
        &ctx.voucher_mint.address,
    ) {
        None => {
            return Err(VaultError::InvalidVoucherRecord);
        },
        Some((record_addr, bump)) => {
            if !record_addr.eq_address(&ctx.voucher_record_address) {
                return Err(VaultError::InvalidVoucherRecord);
            }
            bump
        },
    };
    if amount == 0 {
        return Err(VaultError::InvalidAmount);
    }
    let asset = ctx.token_mint;
    let depositor = ctx.depositor;
    match gateway::transfer(
        &asset,
        &mut ctx.depositor_token_account,
        &mut ctx.vault_token_account,
        &depositor,
        amount,
    ) {
        Ok(_) => {},
        Err(_) => {
            return Err(VaultError::InvalidAmount);
        },
    }
    ctx.creator_vault.total_deposited = ctx.creator_vault.total_deposited.saturating_add(amount);
    let record = VoucherRecord {
        vault: ctx.creator_vault_address,
        voucher_mint: ctx.voucher_mint.address,
        depositor: ctx.depositor,
        deposit_amount: amount,
        is_redeemed: false,
        voucher_bump: bump,
    };
    match gateway::mint_to(
        &mut ctx.voucher_mint,
        &mut ctx.depositor_voucher_token_account,
        &depositor,
        1,
    ) {
        Ok(_) => {},
        Err(_) => {
            return Err(VaultError::InvalidAmount);
        },
    }
    match gateway::revoke_mint_authority(&mut ctx.voucher_mint, &depositor) {
        Ok(_) => {},
        Err(_) => {
            return Err(VaultError::InvalidAmount);
        },
    }
    Ok(record)
}

} // verus!
