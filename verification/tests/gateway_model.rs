//! The transfer-service model: funds move exactly as asked, and a mint whose
//! authority was revoked can never issue another unit.

use vaultbuilder::addresses::Address;
use vaultbuilder::gateway::{burn, mint_to, revoke_mint_authority, transfer, GatewayError};
use vaultbuilder::state::{TokenAccount, TokenMint};

fn addr(n: u8) -> Address {
    Address { bytes: [n; 32] }
}

fn account(owner: u8, mint: u8, amount: u64) -> TokenAccount {
    TokenAccount {
        address: addr(owner.wrapping_add(100)),
        mint: addr(mint),
        owner: addr(owner),
        amount,
    }
}

#[test]
fn transfer_moves_exact_amount() {
    let asset = addr(2);
    let mut from = account(1, 2, 700);
    let mut to = account(3, 2, 50);
    transfer(&asset, &mut from, &mut to, &addr(1), 300).unwrap();
    assert_eq!(from.amount, 400);
    assert_eq!(to.amount, 350);
}

#[test]
fn transfer_rejects_non_owner() {
    let asset = addr(2);
    let mut from = account(1, 2, 700);
    let mut to = account(3, 2, 50);
    let r = transfer(&asset, &mut from, &mut to, &addr(9), 300);
    assert_eq!(r.unwrap_err(), GatewayError::NotAuthorized);
    assert_eq!(from.amount, 700);
    assert_eq!(to.amount, 50);
}

#[test]
fn transfer_rejects_insufficient_funds() {
    let asset = addr(2);
    let mut from = account(1, 2, 100);
    let mut to = account(3, 2, 0);
    let r = transfer(&asset, &mut from, &mut to, &addr(1), 300);
    assert_eq!(r.unwrap_err(), GatewayError::InsufficientFunds);
}

#[test]
fn transfer_rejects_foreign_asset() {
    let asset = addr(2);
    let mut from = account(1, 4, 700);
    let mut to = account(3, 2, 0);
    let r = transfer(&asset, &mut from, &mut to, &addr(1), 300);
    assert_eq!(r.unwrap_err(), GatewayError::MintMismatch);
}

#[test]
fn mint_then_revoke_fixes_supply_forever() {
    let authority = addr(1);
    let mut token = TokenMint {
        address: addr(5),
        mint_authority: Some(authority),
        supply: 0,
    };
    let mut holding = account(1, 5, 0);
    mint_to(&mut token, &mut holding, &authority, 1).unwrap();
    assert_eq!(token.supply, 1);
    assert_eq!(holding.amount, 1);

    revoke_mint_authority(&mut token, &authority).unwrap();
    assert_eq!(token.mint_authority, None);

    // No authority whatsoever can mint another unit.
    let r = mint_to(&mut token, &mut holding, &authority, 1);
    assert_eq!(r.unwrap_err(), GatewayError::NotAuthorized);
    let r = mint_to(&mut token, &mut holding, &addr(9), 1);
    assert_eq!(r.unwrap_err(), GatewayError::NotAuthorized);
    assert_eq!(token.supply, 1);
    assert_eq!(holding.amount, 1);
}

#[test]
fn mint_rejects_wrong_authority() {
    let mut token = TokenMint {
        address: addr(5),
        mint_authority: Some(addr(1)),
        supply: 0,
    };
    let mut holding = account(1, 5, 0);
    let r = mint_to(&mut token, &mut holding, &addr(2), 1);
    assert_eq!(r.unwrap_err(), GatewayError::NotAuthorized);
    assert_eq!(token.supply, 0);
}

#[test]
fn burn_destroys_units() {
    let mut token = TokenMint {
        address: addr(5),
        mint_authority: None,
        supply: 3,
    };
    let mut holding = account(1, 5, 2);
    burn(&mut token, &mut holding, &addr(1), 2).unwrap();
    assert_eq!(token.supply, 1);
    assert_eq!(holding.amount, 0);
}

#[test]
fn burn_rejects_non_owner() {
    let mut token = TokenMint {
        address: addr(5),
        mint_authority: None,
        supply: 3,
    };
    let mut holding = account(1, 5, 2);
    let r = burn(&mut token, &mut holding, &addr(9), 1);
    assert_eq!(r.unwrap_err(), GatewayError::NotAuthorized);
    assert_eq!(token.supply, 3);
    assert_eq!(holding.amount, 2);
}

#[test]
fn revoke_rejects_wrong_authority() {
    let mut token = TokenMint {
        address: addr(5),
        mint_authority: Some(addr(1)),
        supply: 1,
    };
    let r = revoke_mint_authority(&mut token, &addr(2));
    assert_eq!(r.unwrap_err(), GatewayError::NotAuthorized);
    assert_eq!(token.mint_authority, Some(addr(1)));
}
