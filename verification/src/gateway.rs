//! The protocol's model of the external asset-transfer service: atomic-or-fail
//! primitives for moving, minting, burning and revoking, specified exactly at
//! their interface. The transitions drive these operations after validation;
//! the surrounding host performs the corresponding movements on its ledger.

use vstd::prelude::*;

use crate::addresses::Address;
use crate::state::{TokenAccount, TokenMint};

verus! {

/// Why the transfer service rejected an operation.
#[derive(Clone, Copy, Debug, PartialEq, Eq, Structural)]
pub enum GatewayError {
    /// The presented authority may not act on the account or mint.
    NotAuthorized,
    /// The account does not hold the asset being moved.
    MintMismatch,
    /// The source holds less than the amount being moved.
    InsufficientFunds,
    /// The movement would overflow a balance or the supply.
    BalanceOverflow,
}

/// What `transfer(asset, from, to, amount)` does: moves `amount` of `asset`
/// between the two holding accounts when `authority` owns the source.
pub open spec fn transfer_result(
    asset: Address,
    from: TokenAccount,
    to: TokenAccount,
    authority: Address,
    amount: u64,
) -> Result<(TokenAccount, TokenAccount), GatewayError> {
    if from.mint != asset || to.mint != asset {
        Err(GatewayError::MintMismatch)
    } else if from.owner != authority {
        Err(GatewayError::NotAuthorized)
    } else if from.amount < amount {
        Err(GatewayError::InsufficientFunds)
    } else if to.amount + amount > u64::MAX {
        Err(GatewayError::BalanceOverflow)
    } else {
        Ok(
            (
                TokenAccount { amount: (from.amount - amount) as u64, ..from },
                TokenAccount { amount: (to.amount + amount) as u64, ..to },
            ),
        )
    }
}

/// Move `amount` of `asset` from `from` to `to`, authorized by the source's
/// owner. Atomic-or-fail: on rejection neither account changes.
pub fn transfer(
    asset: &Address,
    from: &mut TokenAccount,
    to: &mut TokenAccount,
    authority: &Address,
    amount: u64,
) -> (r: Result<(), GatewayError>)
    ensures
        match transfer_result(*asset, *old(from), *old(to), *authority, amount) {
            Ok(p) => r == Ok::<(), GatewayError>(()) && *final (from) == p.0 && *final (to) == p.1,
            Err(e) => r == Err::<(), GatewayError>(e) && *final (from) == *old(from) && *final (to)
                == *old(to),
        },
{
    if !from.mint.eq_address(asset) || !to.mint.eq_address(asset) {
        return Err(GatewayError::MintMismatch);
    }
    if !from.owner.eq_address(authority) {
        return Err(GatewayError::NotAuthorized);
    }
    if from.amount < amount {
        return Err(GatewayError::InsufficientFunds);
    }
    if amount > u64::MAX - to.amount {
        return Err(GatewayError::BalanceOverflow);
    }
    from.amount = from.amount - amount;
    to.amount = to.amount + amount;
    Ok(())
}

/// What `mint(token, to, quantity)` does: creates `quantity` new units into
/// `to` when `authority` is the mint's current authority.
pub open spec fn mint_result(
    token: TokenMint,
    to: TokenAccount,
    authority: Address,
    quantity: u64,
) -> Result<(TokenMint, TokenAccount), GatewayError> {
    if token.mint_authority != Some(authority) {
        Err(GatewayError::NotAuthorized)
    } else if to.mint != token.address {
        Err(GatewayError::MintMismatch)
    } else if token.supply + quantity > u64::MAX || to.amount + quantity > u64::MAX {
        Err(GatewayError::BalanceOverflow)
    } else {
        Ok(
            (
                TokenMint { supply: (token.supply + quantity) as u64, ..token },
                TokenAccount { amount: (to.amount + quantity) as u64, ..to },
            ),
        )
    }
}

/// Mint `quantity` units of `token` into `to`, authorized by the mint's
/// current authority. Atomic-or-fail.
pub fn mint_to(
    token: &mut TokenMint,
    to: &mut TokenAccount,
    authority: &Address,
    quantity: u64,
) -> (r: Result<(), GatewayError>)
    ensures
        match mint_result(*old(token), *old(to), *authority, quantity) {
            Ok(p) => r == Ok::<(), GatewayError>(()) && *final (token) == p.0 && *final (to) == p.1,
            Err(e) => r == Err::<(), GatewayError>(e) && *final (token) == *old(token)
                && *final (to) == *old(to),
        },
{
    let authorized: bool = match &token.mint_authority {
        Some(a) => a.eq_address(authority),
        None => false,
    };
    if !authorized {
        return Err(GatewayError::NotAuthorized);
    }
    if !to.mint.eq_address(&token.address) {
        return Err(GatewayError::MintMismatch);
    }
    if quantity > u64::MAX - token.supply || quantity > u64::MAX - to.amount {
        return Err(GatewayError::BalanceOverflow);
    }
    token.supply = token.supply + quantity;
    to.amount = to.amount + quantity;
    Ok(())
}

/// What `burn(token, from, quantity)` does: destroys `quantity` units held in
/// `from` when `authority` owns that account.
pub open spec fn burn_result(
    token: TokenMint,
    from: TokenAccount,
    authority: Address,
    quantity: u64,
) -> Result<(TokenMint, TokenAccount), GatewayError> {
    if from.owner != authority {
        Err(GatewayError::NotAuthorized)
    } else if from.mint != token.address {
        Err(GatewayError::MintMismatch)
    } else if from.amount < quantity || token.supply < quantity {
        Err(GatewayError::InsufficientFunds)
    } else {
        Ok(
            (
                TokenMint { supply: (token.supply - quantity) as u64, ..token },
                TokenAccount { amount: (from.amount - quantity) as u64, ..from },
            ),
        )
    }
}

/// Burn `quantity` units of `token` out of `from`, authorized by that
/// account's owner. Atomic-or-fail.
pub fn burn(
    token: &mut TokenMint,
    from: &mut TokenAccount,
    authority: &Address,
    quantity: u64,
) -> (r: Result<(), GatewayError>)
    ensures
        match burn_result(*old(token), *old(from), *authority, quantity) {
            Ok(p) => r == Ok::<(), GatewayError>(()) && *final (token) == p.0 && *final (from)
                == p.1,
            Err(e) => r == Err::<(), GatewayError>(e) && *final (token) == *old(token)
                && *final (from) == *old(from),
        },
{
    if !from.owner.eq_address(authority) {
        return Err(GatewayError::NotAuthorized);
    }
    if !from.mint.eq_address(&token.address) {
        return Err(GatewayError::MintMismatch);
    }
    if from.amount < quantity || token.supply < quantity {
        return Err(GatewayError::InsufficientFunds);
    }
    token.supply = token.supply - quantity;
    from.amount = from.amount - quantity;
    Ok(())
}

/// What `revoke_mint_authority(token)` does: permanently clears the mint
/// authority when `authority` currently holds it, so the supply is fixed
/// forever.
pub open spec fn revoke_result(token: TokenMint, authority: Address) -> Result<
    TokenMint,
    GatewayError,
> {
    if token.mint_authority != Some(authority) {
        Err(GatewayError::NotAuthorized)
    } else {
        Ok(TokenMint { mint_authority: None, ..token })
    }
}

/// Permanently revoke the authority to mint further units of `token`.
/// Atomic-or-fail.
pub fn revoke_mint_authority(token: &mut TokenMint, authority: &Address) -> (r: Result<
    (),
    GatewayError,
>)
    ensures
        match revoke_result(*old(token), *authority) {
            Ok(t) => r == Ok::<(), GatewayError>(()) && *final (token) == t,
            Err(e) => r == Err::<(), GatewayError>(e) && *final (token) == *old(token),
        },
{
    let authorized: bool = match &token.mint_authority {
        Some(a) => a.eq_address(authority),
        None => false,
    };
    if !authorized {
        return Err(GatewayError::NotAuthorized);
    }
    token.mint_authority = None;
    Ok(())
}

} // verus!
