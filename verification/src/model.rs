use crate::address::Address;
use crate::records::{EditionRecord, HoldingAccount, Limits, MetadataView, Mint, Modules};
use vstd::prelude::*;

verus! {

/// The most units of one asset that may ever be outstanding.
pub const SUPPLY_CAP: u64 = 1;

/// What a holding account adds to the outstanding units of an asset.
pub open spec fn contribution(h: HoldingAccount, mint: Address) -> nat {
    if h.mint == mint {
        h.amount as nat
    } else {
        0
    }
}

/// The units of an asset that the given holding accounts hold together.
pub open spec fn units(hs: Seq<HoldingAccount>, mint: Address) -> nat
    decreases hs.len(),
{
    if hs.len() == 0 {
        0
    } else {
        units(hs.drop_last(), mint) + contribution(hs.last(), mint)
    }
}

/// The state of the ledger: the module identities and limits it was set up
/// with, and the records that the custody module and the registry keep.
#[verifier::ext_equal]
pub ghost struct LedgerView {
    pub modules: Modules,
    pub limits: Limits,
    pub mints: Seq<Mint>,
    pub holdings: Seq<HoldingAccount>,
    pub metadata: Seq<MetadataView>,
    pub editions: Seq<EditionRecord>,
}

impl LedgerView {
    /// Whether an asset identity is recorded at the address.
    pub open spec fn has_mint(self, a: Address) -> bool {
        exists|i: int| 0 <= i < self.mints.len() && (#[trigger] self.mints[i]).address == a
    }

    /// Where the asset identity at the address is recorded.
    pub open spec fn mint_slot(self, a: Address) -> int {
        choose|i: int| 0 <= i < self.mints.len() && (#[trigger] self.mints[i]).address == a
    }

    /// The asset identity at the address.
    pub open spec fn mint(self, a: Address) -> Mint {
        self.mints[self.mint_slot(a)]
    }

    /// Whether a holding account exists at the address.
    pub open spec fn has_holding(self, a: Address) -> bool {
        exists|i: int| 0 <= i < self.holdings.len() && (#[trigger] self.holdings[i]).address == a
    }

    /// Where the holding account at the address is recorded.
    pub open spec fn holding_slot(self, a: Address) -> int {
        choose|i: int| 0 <= i < self.holdings.len() && (#[trigger] self.holdings[i]).address == a
    }

    /// The holding account at the address.
    pub open spec fn holding(self, a: Address) -> HoldingAccount {
        self.holdings[self.holding_slot(a)]
    }

    /// Whether a metadata record exists at the address.
    pub open spec fn has_metadata(self, a: Address) -> bool {
        exists|i: int| 0 <= i < self.metadata.len() && (#[trigger] self.metadata[i]).address == a
    }

    /// Where the metadata record at the address is kept.
    pub open spec fn metadata_slot(self, a: Address) -> int {
        choose|i: int| 0 <= i < self.metadata.len() && (#[trigger] self.metadata[i]).address == a
    }

    /// The metadata record at the address.
    pub open spec fn metadata_at(self, a: Address) -> MetadataView {
        self.metadata[self.metadata_slot(a)]
    }

    /// Whether an edition record exists at the address.
    pub open spec fn has_edition(self, a: Address) -> bool {
        exists|i: int| 0 <= i < self.editions.len() && (#[trigger] self.editions[i]).address == a
    }

    /// Where the edition record at the address is kept.
    pub open spec fn edition_slot(self, a: Address) -> int {
        choose|i: int| 0 <= i < self.editions.len() && (#[trigger] self.editions[i]).address == a
    }

    /// The edition record at the address.
    pub open spec fn edition_at(self, a: Address) -> EditionRecord {
        self.editions[self.edition_slot(a)]
    }

    /// The balance of the holding account at the address; zero where there
    /// is none.
    pub open spec fn balance(self, a: Address) -> nat {
        if self.has_holding(a) {
            self.holding(a).amount as nat
        } else {
            0
        }
    }

    /// The recorded supply of an asset; zero where it was never issued.
    pub open spec fn supply(self, mint: Address) -> nat {
        if self.has_mint(mint) {
            self.mint(mint).supply as nat
        } else {
            0
        }
    }

    /// The units of an asset that all holding accounts hold together.
    pub open spec fn outstanding(self, mint: Address) -> nat {
        units(self.holdings, mint)
    }

    /// No address is recorded twice in a table.
    pub open spec fn addresses_distinct(self) -> bool {
        &&& forall|i: int, j: int|
            0 <= i < j < self.mints.len() ==> (#[trigger] self.mints[i]).address != (
            #[trigger] self.mints[j]).address
        &&& forall|i: int, j: int|
            0 <= i < j < self.holdings.len() ==> (#[trigger] self.holdings[i]).address != (
            #[trigger] self.holdings[j]).address
        &&& forall|i: int, j: int|
            0 <= i < j < self.metadata.len() ==> (#[trigger] self.metadata[i]).address != (
            #[trigger] self.metadata[j]).address
        &&& forall|i: int, j: int|
            0 <= i < j < self.editions.len() ==> (#[trigger] self.editions[i]).address != (
            #[trigger] self.editions[j]).address
    }

    /// Every holding account is bound to a recorded asset.
    pub open spec fn holdings_bound(self) -> bool {
        forall|i: int|
            0 <= i < self.holdings.len() ==> self.has_mint((#[trigger] self.holdings[i]).mint)
    }

    /// Every asset has no decimal places, a supply within the cap, and as
    /// many units outstanding as its supply says.
    pub open spec fn supplies_exact(self) -> bool {
        forall|i: int|
            0 <= i < self.mints.len() ==> {
                let m = #[trigger] self.mints[i];
                &&& m.decimals == 0
                &&& m.supply <= SUPPLY_CAP
                &&& units(self.holdings, m.address) == m.supply
            }
    }

    /// The ledger is well formed.
    pub open spec fn wf(self) -> bool {
        &&& self.addresses_distinct()
        &&& self.holdings_bound()
        &&& self.supplies_exact()
    }
}

/// Adding a holding account adds its contribution.
pub proof fn units_push(hs: Seq<HoldingAccount>, h: HoldingAccount, mint: Address)
    ensures
        units(hs.push(h), mint) == units(hs, mint) + contribution(h, mint),
{
    assert(hs.push(h).drop_last() =~= hs);
}

/// Replacing a holding account replaces its contribution.
pub proof fn units_update(hs: Seq<HoldingAccount>, i: int, h: HoldingAccount, mint: Address)
    requires
        0 <= i < hs.len(),
    ensures
        units(hs.update(i, h), mint) + contribution(hs[i], mint) == units(hs, mint) + contribution(
            h,
            mint,
        ),
    decreases hs.len(),
{
    if i == hs.len() - 1 {
        assert(hs.update(i, h).drop_last() =~= hs.drop_last());
    } else {
        units_update(hs.drop_last(), i, h, mint);
        assert(hs.update(i, h).drop_last() =~= hs.drop_last().update(i, h));
    }
}

/// No holding account holds more than all of them together.
pub proof fn units_bound(hs: Seq<HoldingAccount>, i: int, mint: Address)
    requires
        0 <= i < hs.len(),
    ensures
        contribution(hs[i], mint) <= units(hs, mint),
    decreases hs.len(),
{
    if i < hs.len() - 1 {
        units_bound(hs.drop_last(), i, mint);
    }
}

/// Where no holding account is bound to an asset, none of it is outstanding.
pub proof fn units_unbound(hs: Seq<HoldingAccount>, mint: Address)
    requires
        forall|i: int| 0 <= i < hs.len() ==> (#[trigger] hs[i]).mint != mint,
    ensures
        units(hs, mint) == 0,
    decreases hs.len(),
{
    if hs.len() > 0 {
        units_unbound(hs.drop_last(), mint);
    }
}

/// The first holding accounts hold no more than all of them together.
pub proof fn units_prefix(hs: Seq<HoldingAccount>, i: int, mint: Address)
    requires
        0 <= i <= hs.len(),
    ensures
        units(hs.take(i), mint) <= units(hs, mint),
    decreases hs.len() - i,
{
    if i < hs.len() {
        units_prefix(hs, i + 1, mint);
        assert(hs.take(i + 1).drop_last() =~= hs.take(i));
    } else {
        assert(hs.take(i) =~= hs);
    }
}

} // verus!
