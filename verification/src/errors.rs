//! The error taxonomy of the three transitions. Every rejection carries the
//! specific failed predicate's kind, and a rejected transition performs no
//! mutation at all.

use vstd::prelude::*;

verus! {

/// Why a transition was rejected before any state change.
#[derive(Clone, Copy, Debug, PartialEq, Eq, Structural)]
pub enum VaultError {
    /// The presented vault account is not the one derived for the creator and
    /// asset, or it already exists on re-initialization.
    InvalidVault,
    /// The presented asset mint does not match the vault's recorded one.
    MintMismatch,
    /// The presented escrow holding account is not the vault's recorded one.
    VaultAtaMismatch,
    /// The presented transfer service is not the vault's recorded one.
    TokenProgramMismatch,
    /// The presented actor does not own the token account they act from.
    NotOwner,
    /// The presented voucher holding account is not for the voucher's mint.
    VoucherMintMismatch,
    /// The redeemer holds no unit of the voucher token.
    NoVoucher,
    /// The presented voucher record does not belong to this vault and voucher
    /// token, or does not sit at its derived address.
    InvalidVoucherRecord,
    /// The voucher was already redeemed; redemption happens at most once.
    AlreadyRedeemed,
    /// A deposit of zero, or a corrupt voucher record owing zero.
    InvalidAmount,
}

} // verus!
