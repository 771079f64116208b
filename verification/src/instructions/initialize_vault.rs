//! Opening a vault: one per (creator, asset) pair, at its derived address,
//! with an empty escrow bound to the vault's own authority.

use vstd::prelude::*;

use crate::addresses::{
    Address, ProgramConfig, associated_token_address_for, derive_associated_token_address,
    derive_vault_address, vault_address_for,
};
use crate::errors::VaultError;
use crate::state::CreatorVault;

verus! {

/// Everything the host presents to open a vault.
#[derive(Clone, Copy, Debug, PartialEq, Eq)]
pub struct InitializeVault {
    /// The signing creator.
    pub creator: Address,
    /// The asset the vault will escrow.
    pub token_mint: Address,
    /// The transfer service that moves this asset.
    pub token_program: Address,
    /// Where the host will create the vault record.
    pub creator_vault_address: Address,
    /// Whether a record already sits at that address; re-initialization of the
    /// same (creator, asset) pair must fail, which is the replay guard for
    /// vault creation.
    pub creator_vault_exists: bool,
    /// The escrow holding account, owned by the vault's derived authority.
    pub vault_token_account: Address,
}

/// The vault record a successful initialization creates.
pub open spec fn initialized_vault(ctx: InitializeVault, bump: u8) -> CreatorVault {
    CreatorVault {
        creator: ctx.creator,
        token_mint: ctx.token_mint,
        token_program: ctx.token_program,
        vault_token_account: ctx.vault_token_account,
        total_deposited: 0,
        vault_bump: bump,
    }
}

/// The outcome of initialization, given the two derivations: the vault's own
/// address for (creator, asset) and the escrow's associated token address.
/// Checks run in order and the first failure decides the error.
pub open spec fn initialize_result(
    ctx: InitializeVault,
    derived_vault: Option<(Seq<u8>, u8)>,
    derived_escrow: Option<(Seq<u8>, u8)>,
) -> Result<CreatorVault, VaultError> {
    if ctx.creator_vault_exists {
        Err(VaultError::InvalidVault)
    } else {
        match derived_vault {
            None => Err(VaultError::InvalidVault),
            Some((vault_addr, bump)) => if vault_addr != ctx.creator_vault_address@ {
                Err(VaultError::InvalidVault)
            } else {
                match derived_escrow {
                    None => Err(VaultError::VaultAtaMismatch),
                    Some((escrow_addr, _)) => if escrow_addr != ctx.vault_token_account@ {
                        Err(VaultError::VaultAtaMismatch)
                    } else {
                        Ok(initialized_vault(ctx, bump))
                    },
                }
            },
        }
    }
}

/// Open the vault for `(ctx.creator, ctx.token_mint)`: reject a pair already
/// initialized, check that the presented vault and escrow accounts sit at
/// their derived addresses, and return the fresh record with
/// `total_deposited == 0` and the vault's stored bump.
pub fn initialize_vault_handler(ctx: &InitializeVault, cfg: &ProgramConfig) -> (r: Result<
    CreatorVault,
    VaultError,
>)
    ensures
        r == initialize_result(
            *ctx,
            vault_address_for(cfg.program_id, ctx.creator, ctx.token_mint),
            associated_token_address_for(
                cfg.ata_program_id,
                ctx.creator_vault_address,
                ctx.token_program,
                ctx.token_mint,
            ),
        ),
{
    if ctx.creator_vault_exists {
        return Err(VaultError::InvalidVault);
    }
    let bump: u8 = match derive_vault_address(&cfg.program_id, &ctx.creator, &ctx.token_mint) {
        None => {
            return Err(VaultError::InvalidVault);
        },
        Some((vault_addr, bump)) => {
            if !vault_addr.eq_address(&ctx.creator_vault_address) {
                return Err(VaultError::InvalidVault);
            }
            bump
        },
    };
    match derive_associated_token_address(
        &cfg.ata_program_id,
        &ctx.creator_vault_address,
        &ctx.token_program,
        &ctx.token_mint,
    ) {
        None => {
            return Err(VaultError::VaultAtaMismatch);
        },
        Some((escrow_addr, _)) => {
            if !escrow_addr.eq_address(&ctx.vault_token_account) {
                return Err(VaultError::VaultAtaMismatch);
            }
        },
    }
    Ok(
        CreatorVault {
            creator: ctx.creator,
            token_mint: ctx.token_mint,
            token_program: ctx.token_program,
            vault_token_account: ctx.vault_token_account,
            total_deposited: 0,
            vault_bump: bump,
        },
    )
}

} // verus!
