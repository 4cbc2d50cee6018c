use crate::address::{address_of, address_of_view, Address};
use vstd::prelude::*;

verus! {

/// What `Pubkey::try_find_program_address` returns for an ordered list of
/// seeds and a namespace: the bytes of the derived address and its bump, or
/// `None` where it derives none.
pub uninterp spec fn program_address(
    seeds: Seq<Seq<u8>>,
    namespace: Seq<u8>,
) -> Option<(Seq<u8>, u8)>;

/// A list of seeds as the sequence of their bytes.
pub open spec fn seed_list(seeds: Seq<Vec<u8>>) -> Seq<Seq<u8>> {
    seeds.map_values(|s: Vec<u8>| s@)
}

/// Calls `Pubkey::try_find_program_address` of solana-program, which
/// anchor-lang hands on. That function hashes the seeds, a bump and the
/// namespace, trying the bumps from 255 downwards, and returns the first
/// address that lies off the curve with its bump, or `None` where no bump
/// gives one or where the seeds are too many or too long. It reads nothing
/// but its arguments, so its result is named as a function of them. The
/// contract claims only that the wrapper returns that result, byte for byte;
/// nothing is claimed of what the result is.
#[verifier::external_body]
fn find_program_address(seeds: &Vec<Vec<u8>>, namespace: &Address) -> (r: Option<(Address, u8)>)
    ensures
        match r {
            Some((a, b)) => program_address(seed_list(seeds@), namespace@) == Some((a@, b)),
            None => program_address(seed_list(seeds@), namespace@) is None,
        },
{
    let parts: Vec<&[u8]> = seeds.iter().map(|s| s.as_slice()).collect();
    let id = anchor_lang::prelude::Pubkey::new_from_array(namespace.bytes);
    match anchor_lang::prelude::Pubkey::try_find_program_address(&parts, &id) {
        Some((key, bump)) => Some((Address { bytes: key.to_bytes() }, bump)),
        None => None,
    }
}

/// The label from which the delegate authority is derived: `pdakey` in
/// ASCII.
pub open spec fn delegate_label() -> Seq<u8> {
    seq![0x70u8, 0x64u8, 0x61u8, 0x6bu8, 0x65u8, 0x79u8]
}

/// The label that starts the seeds of a metadata and of an edition record:
/// `metadata` in ASCII.
pub open spec fn metadata_label() -> Seq<u8> {
    seq![0x6du8, 0x65u8, 0x74u8, 0x61u8, 0x64u8, 0x61u8, 0x74u8, 0x61u8]
}

/// The label that ends the seeds of an edition record: `edition` in ASCII.
pub open spec fn edition_label() -> Seq<u8> {
    seq![0x65u8, 0x64u8, 0x69u8, 0x74u8, 0x69u8, 0x6fu8, 0x6eu8]
}

/// The seeds of the delegate authority: the one fixed label, whatever the
/// asset and whoever the holder.
pub open spec fn delegate_seeds() -> Seq<Seq<u8>> {
    seq![delegate_label()]
}

/// The seeds of the metadata record of an asset.
pub open spec fn metadata_seeds(registry: Seq<u8>, asset: Seq<u8>) -> Seq<Seq<u8>> {
    seq![metadata_label(), registry, asset]
}

/// The seeds of the edition record of an asset.
pub open spec fn edition_seeds(registry: Seq<u8>, asset: Seq<u8>) -> Seq<Seq<u8>> {
    seq![metadata_label(), registry, asset, edition_label()]
}

/// The seeds of the canonical holding account of a holder for an asset.
pub open spec fn holding_seeds(owner: Seq<u8>, custody: Seq<u8>, asset: Seq<u8>) -> Seq<Seq<u8>> {
    seq![owner, custody, asset]
}

/// The seeds by which the delegate authority signs: its label, then its bump.
pub open spec fn signer_seeds(bump: u8) -> Seq<Seq<u8>> {
    seq![delegate_label(), seq![bump]]
}

/// What the derivation gives for the seeds under the namespace: the address
/// and its bump, or `None`.
pub open spec fn derivation(seeds: Seq<Seq<u8>>, namespace: Address) -> Option<(Address, u8)> {
    match program_address(seeds, namespace@) {
        Some((a, b)) => Some((address_of(a), b)),
        None => None,
    }
}

/// The derived address alone.
pub open spec fn derived(seeds: Seq<Seq<u8>>, namespace: Address) -> Option<Address> {
    match derivation(seeds, namespace) {
        Some((a, _)) => Some(a),
        None => None,
    }
}

/// The delegate authority of a program, with its bump.
pub open spec fn delegate_of(program: Address) -> Option<(Address, u8)> {
    derivation(delegate_seeds(), program)
}

/// The address of the metadata record of an asset.
pub open spec fn metadata_of(registry: Address, asset: Address) -> Option<Address> {
    derived(metadata_seeds(registry@, asset@), registry)
}

/// The address of the edition record of an asset.
pub open spec fn edition_of(registry: Address, asset: Address) -> Option<Address> {
    derived(edition_seeds(registry@, asset@), registry)
}

/// The address of the canonical holding account of a holder for an asset.
pub open spec fn holding_of(
    owner: Address,
    asset: Address,
    custody: Address,
    associated: Address,
) -> Option<Address> {
    derived(holding_seeds(owner@, custody@, asset@), associated)
}

/// The bytes of the delegate label.
pub fn delegate_label_bytes() -> (v: Vec<u8>)
    ensures
        v@ == delegate_label(),
{
    let v: Vec<u8> = vec![0x70u8, 0x64u8, 0x61u8, 0x6bu8, 0x65u8, 0x79u8];
    assert(v@ =~= delegate_label());
    v
}

/// The bytes of the metadata label.
pub fn metadata_label_bytes() -> (v: Vec<u8>)
    ensures
        v@ == metadata_label(),
{
    let v: Vec<u8> = vec![0x6du8, 0x65u8, 0x74u8, 0x61u8, 0x64u8, 0x61u8, 0x74u8, 0x61u8];
    assert(v@ =~= metadata_label());
    v
}

/// The bytes of the edition label.
pub fn edition_label_bytes() -> (v: Vec<u8>)
    ensures
        v@ == edition_label(),
{
    let v: Vec<u8> = vec![0x65u8, 0x64u8, 0x69u8, 0x74u8, 0x69u8, 0x6fu8, 0x6eu8];
    assert(v@ =~= edition_label());
    v
}

/// Derives the address and the bump for an ordered list of seeds under a
/// namespace. The same seeds under the same namespace give the same result;
/// `None` says that the derivation yields no address for them.
pub fn derive(seeds: &Vec<Vec<u8>>, namespace: &Address) -> (r: Option<(Address, u8)>)
    ensures
        r == derivation(seed_list(seeds@), *namespace),
{
    let r = find_program_address(seeds, namespace);
    proof {
        if let Some((a, _)) = r {
            address_of_view(a);
        }
    }
    r
}

/// The delegate authority of a program and its bump.
pub fn delegate_authority(program: &Address) -> (r: Option<(Address, u8)>)
    ensures
        r == delegate_of(*program),
{
    let mut seeds: Vec<Vec<u8>> = Vec::new();
    seeds.push(delegate_label_bytes());
    assert(seed_list(seeds@) =~= delegate_seeds());
    derive(&seeds, program)
}

/// The address of the metadata record of an asset under a registry.
pub fn metadata_address(registry: &Address, asset: &Address) -> (r: Option<Address>)
    ensures
        r == metadata_of(*registry, *asset),
{
    let mut seeds: Vec<Vec<u8>> = Vec::new();
    seeds.push(metadata_label_bytes());
    seeds.push(registry.to_seed());
    seeds.push(asset.to_seed());
    assert(seed_list(seeds@) =~= metadata_seeds(registry@, asset@));
    match derive(&seeds, registry) {
        Some((a, _)) => Some(a),
        None => None,
    }
}

/// The address of the edition record of an asset under a registry.
pub fn edition_address(registry: &Address, asset: &Address) -> (r: Option<Address>)
    ensures
        r == edition_of(*registry, *asset),
{
    let mut seeds: Vec<Vec<u8>> = Vec::new();
    seeds.push(metadata_label_bytes());
    seeds.push(registry.to_seed());
    seeds.push(asset.to_seed());
    seeds.push(edition_label_bytes());
    assert(seed_list(seeds@) =~= edition_seeds(registry@, asset@));
    match derive(&seeds, registry) {
        Some((a, _)) => Some(a),
        None => None,
    }
}

/// The address of the canonical holding account of `owner` for `asset`,
/// under the custody module and the module that keeps holding accounts.
pub fn holding_address(
    owner: &Address,
    asset: &Address,
    custody: &Address,
    associated: &Address,
) -> (r: Option<Address>)
    ensures
        r == holding_of(*owner, *asset, *custody, *associated),
{
    let mut seeds: Vec<Vec<u8>> = Vec::new();
    seeds.push(owner.to_seed());
    seeds.push(custody.to_seed());
    seeds.push(asset.to_seed());
    assert(seed_list(seeds@) =~= holding_seeds(owner@, custody@, asset@));
    match derive(&seeds, associated) {
        Some((a, _)) => Some(a),
        None => None,
    }
}

} // verus!
