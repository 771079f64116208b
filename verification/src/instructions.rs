//! The three atomic transitions of the protocol. Each validates every
//! presented record with an ordered list of predicates before any mutation;
//! the first failing predicate's error kind is returned and nothing changes.

pub mod initialize_vault;
pub mod deposit_and_mint_voucher;
pub mod burn_and_redeem;

pub use initialize_vault::{InitializeVault, initialize_vault_handler};
pub use deposit_and_mint_voucher::{DepositAndMintVoucher, deposit_and_mint_voucher_handler};
pub use burn_and_redeem::{BurnAndRedeem, burn_and_redeem_handler};
