//! The protocol-wide guarantees, stated over the transition specifications
//! and proved once and for all: a voucher token can never be minted again
//! after issuance, a voucher redeems at most once, the vault's running total
//! is exactly the sum still owed on its outstanding vouchers, and a
//! redemption pays exactly what was recorded at issuance.

use vstd::prelude::*;

use crate::addresses::Address;
use crate::errors::VaultError;
use crate::gateway::{GatewayError, mint_result};
use crate::instructions::burn_and_redeem::{
    BurnAndRedeem, redeem_checks, redeem_fits, redeem_post,
};
use crate::instructions::deposit_and_mint_voucher::{
    DepositAndMintVoucher, deposit_checks, deposit_fits, deposit_host_invariants, deposit_post,
    issued_voucher,
};
use crate::state::{TokenAccount, TokenMint, VoucherRecord};

verus! {

/// What one voucher still owes: its recorded amount while unredeemed,
/// nothing afterwards.
pub open spec fn outstanding_amount(record: VoucherRecord) -> int {
    if record.is_redeemed {
        0
    } else {
        record.deposit_amount as int
    }
}

/// The sum still owed on a vault's vouchers.
pub open spec fn outstanding_total(records: Seq<VoucherRecord>) -> int
    decreases records.len(),
{
    if records.len() == 0 {
        0
    } else {
        outstanding_total(records.drop_last()) + outstanding_amount(records.last())
    }
}

/// The sum owed is never negative.
pub proof fn lemma_outstanding_total_nonneg(records: Seq<VoucherRecord>)
    ensures
        outstanding_total(records) >= 0,
    decreases records.len(),
{
    if records.len() > 0 {
        lemma_outstanding_total_nonneg(records.drop_last());
    }
}

/// Appending a voucher adds what it owes to the sum.
pub proof fn lemma_outstanding_total_push(records: Seq<VoucherRecord>, record: VoucherRecord)
    ensures
        outstanding_total(records.push(record)) == outstanding_total(records) + outstanding_amount(
            record,
        ),
{
    assert(records.push(record).drop_last() =~= records);
}

/// Replacing one voucher shifts the sum by the difference of what the old
/// and new entries owe.
pub proof fn lemma_outstanding_total_update(
    records: Seq<VoucherRecord>,
    i: int,
    record: VoucherRecord,
)
    requires
        0 <= i < records.len(),
    ensures
        outstanding_total(records.update(i, record)) == outstanding_total(records)
            - outstanding_amount(records[i]) + outstanding_amount(record),
    decreases records.len(),
{
    let updated = records.update(i, record);
    if i == records.len() - 1 {
        assert(updated.drop_last() =~= records.drop_last());
    } else {
        assert(updated.drop_last() =~= records.drop_last().update(i, record));
        lemma_outstanding_total_update(records.drop_last(), i, record);
    }
}

/// No double mint of authority: a successful deposit leaves the voucher
/// token with its mint authority revoked, so the transfer service rejects
/// every further attempt to mint units of it, whoever asks and whatever the
/// quantity.
pub proof fn lemma_no_mint_after_deposit(
    ctx: DepositAndMintVoucher,
    amount: u64,
    derived: Option<(Seq<u8>, u8)>,
    to: TokenAccount,
    authority: Address,
    quantity: u64,
)
    requires
        deposit_checks(ctx, amount, derived) is None,
    ensures
        mint_result(deposit_post(ctx, amount).voucher_mint, to, authority, quantity) == Err::<
            (TokenMint, TokenAccount),
            GatewayError,
        >(GatewayError::NotAuthorized),
{
}

/// Exactly-once redemption: presenting the very state a successful
/// redemption leaves behind fails with `AlreadyRedeemed`, and by the
/// handler's contract such a rejected call mutates nothing.
pub proof fn lemma_redeem_at_most_once(ctx: BurnAndRedeem, derived: Option<(Seq<u8>, u8)>)
    requires
        redeem_checks(ctx, derived) is None,
    ensures
        redeem_checks(redeem_post(ctx), derived) == Some(VaultError::AlreadyRedeemed),
{
}

/// Conservation under deposit: when the vault's running total equals the sum
/// still owed on its vouchers, it still does after a deposit with the new
/// voucher appended — and as long as that sum fits in the counter, the
/// saturating increment is exact.
pub proof fn lemma_deposit_conserves(
    ctx: DepositAndMintVoucher,
    amount: u64,
    derived: Option<(Seq<u8>, u8)>,
    bump: u8,
    records: Seq<VoucherRecord>,
)
    requires
        deposit_checks(ctx, amount, derived) is None,
        ctx.creator_vault.total_deposited == outstanding_total(records),
        outstanding_total(records) + amount <= u64::MAX,
    ensures
        deposit_post(ctx, amount).creator_vault.total_deposited == outstanding_total(
            records.push(issued_voucher(ctx, amount, bump)),
        ),
{
    lemma_outstanding_total_push(records, issued_voucher(ctx, amount, bump));
}

/// Conservation under redemption: when the vault's running total equals the
/// sum still owed on its vouchers, it still does after redeeming any one of
/// them; the decrement is exactly the voucher's recorded amount, and the
/// total never falls below zero.
pub proof fn lemma_redeem_conserves(
    ctx: BurnAndRedeem,
    derived: Option<(Seq<u8>, u8)>,
    records: Seq<VoucherRecord>,
    i: int,
)
    requires
        redeem_checks(ctx, derived) is None,
        0 <= i < records.len(),
        records[i] == ctx.voucher_record,
        ctx.creator_vault.total_deposited == outstanding_total(records),
    ensures
        redeem_post(ctx).creator_vault.total_deposited == outstanding_total(
            records.update(i, redeem_post(ctx).voucher_record),
        ),
        redeem_post(ctx).creator_vault.total_deposited == ctx.creator_vault.total_deposited
            - ctx.voucher_record.deposit_amount,
{
    let updated = records.update(i, redeem_post(ctx).voucher_record);
    lemma_outstanding_total_update(records, i, redeem_post(ctx).voucher_record);
    lemma_outstanding_total_nonneg(updated);
}

/// A zero deposit is always rejected, and where every account check passes
/// the error is exactly `InvalidAmount`; by the handler's contract a
/// rejected deposit mutates nothing and calls nothing on the transfer
/// service.
pub proof fn lemma_zero_deposit_rejected(ctx: DepositAndMintVoucher, derived: Option<(Seq<u8>, u8)>)
    ensures
        deposit_checks(ctx, 0, derived) is Some,
        (ctx.token_mint == ctx.creator_vault.token_mint
            && ctx.depositor_token_account.owner == ctx.depositor
            && ctx.depositor_token_account.mint == ctx.token_mint
            && ctx.vault_token_account.address == ctx.creator_vault.vault_token_account
            && ctx.vault_token_account.mint == ctx.token_mint
            && ctx.token_program == ctx.creator_vault.token_program
            && !ctx.voucher_record_exists && (derived matches Some(p) && p.0
            == ctx.voucher_record_address@)) ==> deposit_checks(ctx, 0, derived) == Some(
            VaultError::InvalidAmount,
        ),
{
}

/// A voucher already redeemed is always rejected, and where every earlier
/// check passes the error is exactly `AlreadyRedeemed`; by the handler's
/// contract a rejected redemption leaves the vault's total, the record and
/// every balance unchanged.
pub proof fn lemma_redeemed_voucher_rejected(ctx: BurnAndRedeem, derived: Option<(Seq<u8>, u8)>)
    requires
        ctx.voucher_record.is_redeemed,
    ensures
        redeem_checks(ctx, derived) is Some,
        (ctx.token_mint == ctx.creator_vault.token_mint
            && ctx.vault_token_account.address == ctx.creator_vault.vault_token_account
            && ctx.vault_token_account.mint == ctx.token_mint
            && ctx.redeemer_token_account.owner == ctx.redeemer
            && ctx.redeemer_token_account.mint == ctx.token_mint
            && ctx.redeemer_voucher_token_account.owner == ctx.redeemer
            && ctx.redeemer_voucher_token_account.mint == ctx.voucher_mint.address
            && ctx.token_program == ctx.creator_vault.token_program && derived == Some(
            (ctx.voucher_record_address@, ctx.voucher_record.voucher_bump),
        ) && ctx.voucher_record.vault == ctx.creator_vault_address
            && ctx.voucher_record.voucher_mint == ctx.voucher_mint.address) ==> redeem_checks(
            ctx,
            derived,
        ) == Some(VaultError::AlreadyRedeemed),
{
}

/// The redemption that presents exactly what a successful deposit left
/// behind: the depositor redeems the voucher just issued, with the records
/// and accounts in their post-deposit state.
pub open spec fn redeem_of_issued(
    ctx: DepositAndMintVoucher,
    amount: u64,
    bump: u8,
) -> BurnAndRedeem {
    let post = deposit_post(ctx, amount);
    BurnAndRedeem {
        redeemer: ctx.depositor,
        creator_vault_address: ctx.creator_vault_address,
        creator_vault: post.creator_vault,
        token_mint: ctx.token_mint,
        vault_token_account: post.vault_token_account,
        redeemer_token_account: post.depositor_token_account,
        voucher_mint: post.voucher_mint,
        redeemer_voucher_token_account: post.depositor_voucher_token_account,
        voucher_record_address: ctx.voucher_record_address,
        voucher_record: issued_voucher(ctx, amount, bump),
        token_program: ctx.token_program,
    }
}

/// Round trip: redeeming the voucher a deposit just issued passes
/// validation and undoes the deposit's movements — the running total, the
/// escrow balance and the depositor's asset balance return to their values
/// before the deposit, and the voucher ends redeemed — as long as the
/// running total did not saturate.
pub proof fn lemma_issue_then_redeem_restores(
    ctx: DepositAndMintVoucher,
    amount: u64,
    derived: Option<(Seq<u8>, u8)>,
    bump: u8,
)
    requires
        deposit_checks(ctx, amount, derived) is None,
        deposit_host_invariants(ctx),
        deposit_fits(ctx, amount),
        derived == Some((ctx.voucher_record_address@, bump)),
        ctx.creator_vault.total_deposited + amount <= u64::MAX,
    ensures
        redeem_checks(redeem_of_issued(ctx, amount, bump), derived) is None,
        redeem_post(redeem_of_issued(ctx, amount, bump)).creator_vault.total_deposited
            == ctx.creator_vault.total_deposited,
        redeem_post(redeem_of_issued(ctx, amount, bump)).vault_token_account.amount
            == ctx.vault_token_account.amount,
        redeem_post(redeem_of_issued(ctx, amount, bump)).redeemer_token_account.amount
            == ctx.depositor_token_account.amount,
        redeem_post(redeem_of_issued(ctx, amount, bump)).voucher_record.is_redeemed,
{
}

/// Amount fidelity: a successful redemption pays out exactly the
/// `deposit_amount` recorded at issuance — the redeemer gains it and the
/// escrow loses it — independent of anything deposited since.
pub proof fn lemma_amount_fidelity(ctx: BurnAndRedeem, derived: Option<(Seq<u8>, u8)>)
    requires
        redeem_checks(ctx, derived) is None,
        redeem_fits(ctx),
    ensures
        redeem_post(ctx).redeemer_token_account.amount == ctx.redeemer_token_account.amount
            + ctx.voucher_record.deposit_amount,
        redeem_post(ctx).vault_token_account.amount == ctx.vault_token_account.amount
            - ctx.voucher_record.deposit_amount,
{
}

} // verus!

