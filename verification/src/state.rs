//! The persisted records of the protocol and the protocol's view of the
//! transfer service's accounts.

use vstd::prelude::*;

use crate::addresses::Address;

verus! {

/// The per-(creator, asset) escrow record. Created once, mutated only by
/// deposits (increment) and redemptions (saturating decrement), never deleted.
#[derive(Clone, Copy, Debug, PartialEq, Eq)]
pub struct CreatorVault {
    /// Identity of the vault's owner.
    pub creator: Address,
    /// Identity of the fungible asset escrowed.
    pub token_mint: Address,
    /// Identity of the transfer service authorized to move this asset.
    pub token_program: Address,
    /// The holding account of the escrowed balance, owned by the vault's
    /// derived authority.
    pub vault_token_account: Address,
    /// Running sum of unredeemed deposits.
    pub total_deposited: u64,
    /// Derivation parameter that lets the vault re-derive its own signing
    /// authority.
    pub vault_bump: u8,
}

/// The ledger entry backing one issued voucher token.
#[derive(Clone, Copy, Debug, PartialEq, Eq)]
pub struct VoucherRecord {
    /// Back-reference to the owning vault's address.
    pub vault: Address,
    /// Identity of the unique single-unit token representing this claim.
    pub voucher_mint: Address,
    /// The actor who deposited; the claim itself is bearer-transferable via
    /// custody of the voucher token.
    pub depositor: Address,
    /// The exact amount this voucher entitles its bearer to, fixed at
    /// issuance.
    pub deposit_amount: u64,
    /// False at creation; set true exactly once on redemption, never reset.
    pub is_redeemed: bool,
    /// Derivation parameter of this record's own deterministic address.
    pub voucher_bump: u8,
}

/// A token holding account of the transfer service, as the protocol reads it.
#[derive(Clone, Copy, Debug, PartialEq, Eq)]
pub struct TokenAccount {
    /// The account's own address.
    pub address: Address,
    /// The asset this account holds.
    pub mint: Address,
    /// The actor who may move funds out of this account.
    pub owner: Address,
    /// The held balance.
    pub amount: u64,
}

/// A token mint of the transfer service, as the protocol reads it.
#[derive(Clone, Copy, Debug, PartialEq, Eq)]
pub struct TokenMint {
    /// The mint's own address.
    pub address: Address,
    /// Who may mint further units; `None` once minting is revoked forever.
    pub mint_authority: Option<Address>,
    /// Total units in existence.
    pub supply: u64,
}

} // verus!
