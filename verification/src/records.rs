use crate::address::Address;
use vstd::prelude::*;

verus! {

/// The identities of the modules that an operation works with.
#[derive(Clone, Copy, Debug, PartialEq, Eq)]
pub struct Modules {
    /// The program that owns the delegate authority.
    pub program: Address,
    /// The asset-custody module.
    pub token_program: Address,
    /// The module that keeps the canonical holding accounts.
    pub associated_token_program: Address,
    /// The metadata and edition registry.
    pub token_metadata_program: Address,
    /// The module that creates accounts.
    pub system_program: Address,
    /// The storage-accounting record.
    pub rent: Address,
}

/// The longest name, symbol and uri, in bytes, that the registry accepts.
#[derive(Clone, Copy, Debug, PartialEq, Eq)]
pub struct Limits {
    pub name: usize,
    pub symbol: usize,
    pub uri: usize,
}

/// An asset identity as the custody module records it.
#[derive(Clone, Copy, Debug, PartialEq, Eq)]
pub struct Mint {
    pub address: Address,
    pub authority: Address,
    pub freeze_authority: Address,
    pub decimals: u8,
    pub supply: u64,
}

/// A holding account: the balance of one asset for one holder.
#[derive(Clone, Copy, Debug, PartialEq, Eq)]
pub struct HoldingAccount {
    pub address: Address,
    pub mint: Address,
    pub owner: Address,
    pub amount: u64,
}

/// The seal that marks an asset as one of a kind.
#[derive(Clone, Copy, Debug, PartialEq, Eq)]
pub struct EditionRecord {
    pub address: Address,
    pub mint: Address,
    pub metadata: Address,
    pub max_supply: u64,
}

/// The descriptive record of an asset, as the registry keeps it.
#[derive(Debug, PartialEq, Eq)]
pub struct MetadataRecord {
    pub address: Address,
    pub mint: Address,
    pub update_authority: Address,
    pub name: String,
    pub symbol: String,
    pub uri: String,
    pub seller_fee_basis_points: u16,
    pub is_mutable: bool,
}

/// A metadata record with its texts as sequences of characters.
pub ghost struct MetadataView {
    pub address: Address,
    pub mint: Address,
    pub update_authority: Address,
    pub name: Seq<char>,
    pub symbol: Seq<char>,
    pub uri: Seq<char>,
    pub seller_fee_basis_points: u16,
    pub is_mutable: bool,
}

impl View for MetadataRecord {
    type V = MetadataView;

    open spec fn view(&self) -> MetadataView {
        MetadataView {
            address: self.address,
            mint: self.mint,
            update_authority: self.update_authority,
            name: self.name@,
            symbol: self.symbol@,
            uri: self.uri@,
            seller_fee_basis_points: self.seller_fee_basis_points,
            is_mutable: self.is_mutable,
        }
    }
}

impl MetadataRecord {
    /// A copy of the record.
    pub fn duplicate(&self) -> (r: MetadataRecord)
        ensures
            r@ == self@,
    {
        MetadataRecord {
            address: self.address,
            mint: self.mint,
            update_authority: self.update_authority,
            name: self.name.clone(),
            symbol: self.symbol.clone(),
            uri: self.uri.clone(),
            seller_fee_basis_points: self.seller_fee_basis_points,
            is_mutable: self.is_mutable,
        }
    }
}

/// What the caller hands to the registry to describe an asset: a name, a
/// symbol, the place of the full description, and the seller's fee in basis
/// points. It names no creators, no collection and no uses.
#[derive(Debug)]
pub struct AssetData {
    pub name: String,
    pub symbol: String,
    pub uri: String,
    pub seller_fee_basis_points: u16,
}

/// The description of an asset with its texts as sequences of characters.
pub ghost struct Description {
    pub name: Seq<char>,
    pub symbol: Seq<char>,
    pub uri: Seq<char>,
    pub seller_fee_basis_points: u16,
}

impl View for AssetData {
    type V = Description;

    open spec fn view(&self) -> Description {
        Description {
            name: self.name@,
            symbol: self.symbol@,
            uri: self.uri@,
            seller_fee_basis_points: self.seller_fee_basis_points,
        }
    }
}

impl Limits {
    /// The limits of the registry as it is deployed.
    pub fn standard() -> (l: Limits)
        ensures
            l.name == 32,
            l.symbol == 10,
            l.uri == 200,
    {
        Limits { name: 32, symbol: 10, uri: 200 }
    }
}

} // verus!
