//! Deterministic, program-owned address derivation.
//!
//! Every vault and every voucher record lives at an address computed from
//! fixed seed tags plus the keys of the entities involved, so any client can
//! recompute a record's location, and the vault can authorize outgoing
//! transfers by re-deriving its own address instead of holding a private key.

use vstd::prelude::*;

verus! {

broadcast use vstd::array::group_array_axioms;

/// A 32-byte account address on the host ledger.
#[derive(Clone, Copy, Debug, PartialEq, Eq)]
pub struct Address {
    pub bytes: [u8; 32],
}

impl View for Address {
    type V = Seq<u8>;

    open spec fn view(&self) -> Seq<u8> {
        self.bytes@
    }
}

impl Address {
    /// Byte-wise equality of two addresses.
    pub fn eq_address(&self, other: &Address) -> (r: bool)
        ensures
            r == (*self == *other),
            r == (self@ == other@),
    {
        let mut i: usize = 0;
        while i < 32
            invariant
                0 <= i <= 32,
                forall|j: int| 0 <= j < i ==> self.bytes@[j] == other.bytes@[j],
            decreases 32 - i,
        {
            if self.bytes[i] != other.bytes[i] {
                return false;
            }
            i = i + 1;
        }
        proof {
            assert(self.bytes =~= other.bytes);
        }
        true
    }

    /// The address's bytes as an owned vector, for use as a derivation seed.
    pub fn to_bytes_vec(&self) -> (r: Vec<u8>)
        ensures
            r@ == self@,
    {
        let mut v: Vec<u8> = Vec::new();
        let mut i: usize = 0;
        while i < 32
            invariant
                0 <= i <= 32,
                v@.len() == i,
                forall|j: int| 0 <= j < i ==> v@[j] == self.bytes@[j],
            decreases 32 - i,
        {
            v.push(self.bytes[i]);
            i = i + 1;
        }
        proof {
            assert(v@ =~= self@);
        }
        v
    }
}

/// Immutable deployment configuration: the protocol's own program identity
/// and the derivation authority for associated token holding accounts. Loaded
/// once by the host and passed explicitly into every transition.
#[derive(Clone, Copy)]
pub struct ProgramConfig {
    pub program_id: Address,
    pub ata_program_id: Address,
}

/// Seed tag for vault addresses: the bytes of "creator_vault".
pub open spec fn creator_vault_seed() -> Seq<u8> {
    seq![0x63u8, 0x72, 0x65, 0x61, 0x74, 0x6f, 0x72, 0x5f, 0x76, 0x61, 0x75, 0x6c, 0x74]
}

/// Seed tag for voucher record addresses: the bytes of "voucher_record".
pub open spec fn voucher_record_seed() -> Seq<u8> {
    seq![0x76u8, 0x6f, 0x75, 0x63, 0x68, 0x65, 0x72, 0x5f, 0x72, 0x65, 0x63, 0x6f, 0x72, 0x64]
}

/// The vault seed tag as an owned vector.
pub fn creator_vault_seed_bytes() -> (r: Vec<u8>)
    ensures
        r@ == creator_vault_seed(),
{
    let mut v: Vec<u8> = Vec::new();
    v.push(0x63);
    v.push(0x72);
    v.push(0x65);
    v.push(0x61);
    v.push(0x74);
    v.push(0x6f);
    v.push(0x72);
    v.push(0x5f);
    v.push(0x76);
    v.push(0x61);
    v.push(0x75);
    v.push(0x6c);
    v.push(0x74);
    proof {
        assert(v@ =~= creator_vault_seed());
    }
    v
}

/// The voucher record seed tag as an owned vector.
pub fn voucher_record_seed_bytes() -> (r: Vec<u8>)
    ensures
        r@ == voucher_record_seed(),
{
    let mut v: Vec<u8> = Vec::new();
    v.push(0x76);
    v.push(0x6f);
    v.push(0x75);
    v.push(0x63);
    v.push(0x68);
    v.push(0x65);
    v.push(0x72);
    v.push(0x5f);
    v.push(0x72);
    v.push(0x65);
    v.push(0x63);
    v.push(0x6f);
    v.push(0x72);
    v.push(0x64);
    proof {
        assert(v@ =~= voucher_record_seed());
    }
    v
}

/// What `Pubkey::try_find_program_address` returns for the given seeds and
/// program id: the canonical derived address and bump, or `None` in the
/// statistically improbable event that no bump yields a valid address. The
/// result is a function of the arguments alone.
pub uninterp spec fn program_address_of(seeds: Seq<Seq<u8>>, program_id: Seq<u8>) -> Option<
    (Seq<u8>, u8),
>;

/// Relies on `solana_pubkey::Pubkey::try_find_program_address` (the `Pubkey`
/// that `anchor_lang`'s prelude re-exports): a deterministic derivation of an
/// off-curve address and bump from the seed slices and the program id, with
/// `None` when the seeds are over the allowed count or length, or no bump
/// yields an off-curve address.
#[verifier::external_body]
fn find_program_address(seeds: &Vec<Vec<u8>>, program_id: &Address) -> (r: Option<(Address, u8)>)
    ensures
        ({
            let d = program_address_of(
                seeds@.map_values(|s: Vec<u8>| s@),
                program_id@,
            );
            match r {
                Some(p) => d == Some((p.0@, p.1)),
                None => d is None,
            }
        }),
{
    let slices: Vec<&[u8]> = seeds.iter().map(|s| s.as_slice()).collect();
    let pid = solana_pubkey::Pubkey::new_from_array(program_id.bytes);
    solana_pubkey::Pubkey::try_find_program_address(&slices, &pid).map(
        |p: (solana_pubkey::Pubkey, u8)| (Address { bytes: p.0.to_bytes() }, p.1),
    )
}

/// The canonical address and bump of the vault for `(creator, asset)`.
pub open spec fn vault_address_for(program_id: Address, creator: Address, asset: Address) -> Option<
    (Seq<u8>, u8),
> {
    program_address_of(seq![creator_vault_seed(), creator@, asset@], program_id@)
}

/// The canonical address and bump of the voucher record for
/// `(vault, voucher_mint)`.
pub open spec fn voucher_record_address_for(
    program_id: Address,
    vault: Address,
    voucher_mint: Address,
) -> Option<(Seq<u8>, u8)> {
    program_address_of(seq![voucher_record_seed(), vault@, voucher_mint@], program_id@)
}

/// The canonical associated token holding account of `wallet` for `asset`
/// under `token_program`.
pub open spec fn associated_token_address_for(
    ata_program_id: Address,
    wallet: Address,
    token_program: Address,
    asset: Address,
) -> Option<(Seq<u8>, u8)> {
    program_address_of(seq![wallet@, token_program@, asset@], ata_program_id@)
}

/// Derive the vault address for `(creator, asset)`.
pub fn derive_vault_address(program_id: &Address, creator: &Address, asset: &Address) -> (r: Option<
    (Address, u8),
>)
    ensures
        ({
            let d = vault_address_for(*program_id, *creator, *asset);
            match r {
                Some(p) => d == Some((p.0@, p.1)),
                None => d is None,
            }
        }),
{
    let mut seeds: Vec<Vec<u8>> = Vec::new();
    seeds.push(creator_vault_seed_bytes());
    seeds.push(creator.to_bytes_vec());
    seeds.push(asset.to_bytes_vec());
    proof {
        assert(seeds@.map_values(|s: Vec<u8>| s@) =~~= seq![
            creator_vault_seed(),
            creator@,
            asset@,
        ]);
    }
    find_program_address(&seeds, program_id)
}

/// Derive the voucher record address for `(vault, voucher_mint)`.
pub fn derive_voucher_record_address(
    program_id: &Address,
    vault: &Address,
    voucher_mint: &Address,
) -> (r: Option<(Address, u8)>)
    ensures
        ({
            let d = voucher_record_address_for(*program_id, *vault, *voucher_mint);
            match r {
                Some(p) => d == Some((p.0@, p.1)),
                None => d is None,
            }
        }),
{
    let mut seeds: Vec<Vec<u8>> = Vec::new();
    seeds.push(voucher_record_seed_bytes());
    seeds.push(vault.to_bytes_vec());
    seeds.push(voucher_mint.to_bytes_vec());
    proof {
        assert(seeds@.map_values(|s: Vec<u8>| s@) =~~= seq![
            voucher_record_seed(),
            vault@,
            voucher_mint@,
        ]);
    }
    find_program_address(&seeds, program_id)
}

/// Derive the associated token holding account of `wallet` for `asset`.
pub fn derive_associated_token_address(
    ata_program_id: &Address,
    wallet: &Address,
    token_program: &Address,
    asset: &Address,
) -> (r: Option<(Address, u8)>)
    ensures
        ({
            let d = associated_token_address_for(*ata_program_id, *wallet, *token_program, *asset);
            match r {
                Some(p) => d == Some((p.0@, p.1)),
                None => d is None,
            }
        }),
{
    let mut seeds: Vec<Vec<u8>> = Vec::new();
    seeds.push(wallet.to_bytes_vec());
    seeds.push(token_program.to_bytes_vec());
    seeds.push(asset.to_bytes_vec());
    proof {
        assert(seeds@.map_values(|s: Vec<u8>| s@) =~~= seq![wallet@, token_program@, asset@]);
    }
    find_program_address(&seeds, ata_program_id)
}

} // verus!
