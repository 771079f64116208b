//! Address derivation: a pure function of its seeds — repeatable, and
//! distinct entities land on distinct addresses.

use vaultbuilder::addresses::{
    derive_associated_token_address, derive_vault_address, derive_voucher_record_address, Address,
};

fn addr(n: u8) -> Address {
    Address { bytes: [n; 32] }
}

#[test]
fn vault_derivation_is_deterministic() {
    let pid = addr(7);
    let a = derive_vault_address(&pid, &addr(1), &addr(2)).unwrap();
    let b = derive_vault_address(&pid, &addr(1), &addr(2)).unwrap();
    assert_eq!(a, b);
}

#[test]
fn vault_derivation_depends_on_every_seed() {
    let pid = addr(7);
    let base = derive_vault_address(&pid, &addr(1), &addr(2)).unwrap();
    let other_creator = derive_vault_address(&pid, &addr(3), &addr(2)).unwrap();
    let other_asset = derive_vault_address(&pid, &addr(1), &addr(3)).unwrap();
    let other_program = derive_vault_address(&addr(9), &addr(1), &addr(2)).unwrap();
    assert_ne!(base.0, other_creator.0);
    assert_ne!(base.0, other_asset.0);
    assert_ne!(base.0, other_program.0);
}

#[test]
fn derived_address_is_not_an_input() {
    let pid = addr(7);
    let creator = addr(1);
    let asset = addr(2);
    let (vault_addr, _) = derive_vault_address(&pid, &creator, &asset).unwrap();
    assert_ne!(vault_addr, pid);
    assert_ne!(vault_addr, creator);
    assert_ne!(vault_addr, asset);
}

#[test]
fn record_and_vault_derivations_differ_by_tag() {
    // Same entity keys under the two seed tags land on different addresses.
    let pid = addr(7);
    let vault = derive_vault_address(&pid, &addr(1), &addr(2)).unwrap();
    let record = derive_voucher_record_address(&pid, &addr(1), &addr(2)).unwrap();
    assert_ne!(vault.0, record.0);
}

#[test]
fn associated_token_derivation_is_deterministic() {
    let ata_pid = addr(8);
    let a = derive_associated_token_address(&ata_pid, &addr(1), &addr(3), &addr(2)).unwrap();
    let b = derive_associated_token_address(&ata_pid, &addr(1), &addr(3), &addr(2)).unwrap();
    assert_eq!(a, b);
    let other_wallet =
        derive_associated_token_address(&ata_pid, &addr(4), &addr(3), &addr(2)).unwrap();
    assert_ne!(a.0, other_wallet.0);
}
