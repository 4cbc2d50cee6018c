use crate::address::Address;
use crate::derivation::{edition_of, holding_of, metadata_of};
use crate::error::Error;
use crate::model::{
    units, units_bound, units_push, units_unbound, units_update, LedgerView, SUPPLY_CAP,
};
use crate::records::{Description, EditionRecord, HoldingAccount, MetadataView, Mint};
use vstd::prelude::*;
use vstd::utf8::encode_utf8;

verus! {

/// The number of bytes that a text takes.
pub open spec fn byte_len(text: Seq<char>) -> nat {
    encode_utf8(text).len()
}

impl LedgerView {
    /// The canonical holding account of a holder for an asset.
    pub open spec fn canonical_holding(self, owner: Address, mint: Address) -> Option<Address> {
        holding_of(
            owner,
            mint,
            self.modules.token_program,
            self.modules.associated_token_program,
        )
    }

    /// The address at which the registry keeps the metadata of an asset.
    pub open spec fn metadata_target(self, mint: Address) -> Option<Address> {
        metadata_of(self.modules.token_metadata_program, mint)
    }

    /// The address at which the registry keeps the edition of an asset.
    pub open spec fn edition_target(self, mint: Address) -> Option<Address> {
        edition_of(self.modules.token_metadata_program, mint)
    }

    /// Records a new asset identity with no unit issued yet; refused where
    /// the identity is recorded already.
    pub open spec fn create_mint(
        self,
        mint: Address,
        authority: Address,
        freeze_authority: Address,
    ) -> Result<LedgerView, Error> {
        if self.has_mint(mint) {
            Err(Error::AlreadyInitializedMismatched)
        } else {
            Ok(
                LedgerView {
                    mints: self.mints.push(
                        Mint { address: mint, authority, freeze_authority, decimals: 0, supply: 0 },
                    ),
                    ..self
                },
            )
        }
    }

    /// Opens an empty holding account at an address, bound to an asset and
    /// a holder; refused where the address is taken or the asset is not
    /// recorded.
    pub open spec fn open_holding_account(
        self,
        address: Address,
        mint: Address,
        owner: Address,
    ) -> Result<LedgerView, Error> {
        if self.has_holding(address) {
            Err(Error::AlreadyInitializedMismatched)
        } else if !self.has_mint(mint) {
            Err(Error::ExternalModuleRejection)
        } else {
            Ok(
                LedgerView {
                    holdings: self.holdings.push(
                        HoldingAccount { address, mint, owner, amount: 0 },
                    ),
                    ..self
                },
            )
        }
    }

    /// Settles the holding account of `owner` for `mint` at the address
    /// that the derivation gave for the pair: creates it where it is absent,
    /// changes nothing where it is there with these bindings, and refuses
    /// where it is there with others or where the derivation gave none.
    pub open spec fn settle_holding_account(
        self,
        owner: Address,
        mint: Address,
        payer: Address,
        canonical: Option<Address>,
    ) -> Result<LedgerView, Error> {
        match canonical {
            None => Err(Error::DerivationFailed),
            Some(a) => if !self.has_holding(a) {
                self.open_holding_account(a, mint, owner)
            } else if self.holding(a).owner == owner && self.holding(a).mint == mint {
                Ok(self)
            } else {
                Err(Error::AlreadyInitializedMismatched)
            },
        }
    }

    /// Creates the canonical holding account of `owner` for `mint` where it
    /// is absent, changes nothing where it is there with these bindings, and
    /// refuses where it is there with others.
    pub open spec fn create_holding_account(
        self,
        owner: Address,
        mint: Address,
        payer: Address,
    ) -> Result<LedgerView, Error> {
        self.settle_holding_account(owner, mint, payer, self.canonical_holding(owner, mint))
    }

    /// Takes up an asset identity as it is seen elsewhere. Where no one is
    /// its authority, it is recorded as its own: an asset identity signs
    /// nothing, so no one can issue it.
    pub open spec fn observe_mint(
        self,
        mint: Address,
        authority: Option<Address>,
        freeze_authority: Option<Address>,
    ) -> Result<LedgerView, Error> {
        self.create_mint(
            mint,
            match authority {
                Some(a) => a,
                None => mint,
            },
            match freeze_authority {
                Some(a) => a,
                None => mint,
            },
        )
    }

    /// Takes up a holding account as it is seen elsewhere, with what it
    /// holds: changes nothing where the very same account is recorded
    /// already, refuses where another is recorded at its address, and else
    /// opens it and issues its balance into it, within the supply cap.
    pub open spec fn observe_holding_account(self, h: HoldingAccount) -> Result<LedgerView, Error> {
        if self.has_holding(h.address) {
            if self.holding(h.address) == h {
                Ok(self)
            } else {
                Err(Error::AlreadyInitializedMismatched)
            }
        } else {
            match self.open_holding_account(h.address, h.mint, h.owner) {
                Err(e) => Err(e),
                Ok(l1) => l1.mint_to(h.mint, h.address, l1.mint(h.mint).authority, h.amount),
            }
        }
    }

    /// Issues `amount` units of `mint` into `destination` on the word of the
    /// asset's authority, within the supply cap.
    pub open spec fn mint_to(
        self,
        mint: Address,
        destination: Address,
        authority: Address,
        amount: u64,
    ) -> Result<LedgerView, Error> {
        if !self.has_mint(mint) || !self.has_holding(destination) || self.holding(
            destination,
        ).mint != mint {
            Err(Error::ExternalModuleRejection)
        } else if self.mint(mint).authority != authority {
            Err(Error::AuthorityBindingViolation)
        } else if self.mint(mint).supply + amount > SUPPLY_CAP {
            Err(Error::ExternalModuleRejection)
        } else {
            let m = self.mint(mint);
            let h = self.holding(destination);
            Ok(
                LedgerView {
                    mints: self.mints.update(
                        self.mint_slot(mint),
                        Mint { supply: (m.supply + amount) as u64, ..m },
                    ),
                    holdings: self.holdings.update(
                        self.holding_slot(destination),
                        HoldingAccount { amount: (h.amount + amount) as u64, ..h },
                    ),
                    ..self
                },
            )
        }
    }

    /// Moves `amount` units from `source` to `destination` on the word of
    /// the owner of `source`.
    pub open spec fn transfer(
        self,
        source: Address,
        destination: Address,
        authority: Address,
        amount: u64,
    ) -> Result<LedgerView, Error> {
        if !self.has_holding(source) || !self.has_holding(destination) || self.holding(
            source,
        ).mint != self.holding(destination).mint {
            Err(Error::ExternalModuleRejection)
        } else if self.holding(source).owner != authority {
            Err(Error::AuthorityBindingViolation)
        } else if self.holding(source).amount < amount {
            Err(Error::InsufficientBalance)
        } else if source == destination {
            Ok(self)
        } else {
            let s = self.holding(source);
            let d = self.holding(destination);
            Ok(
                LedgerView {
                    holdings: self.holdings.update(
                        self.holding_slot(source),
                        HoldingAccount { amount: (s.amount - amount) as u64, ..s },
                    ).update(
                        self.holding_slot(destination),
                        HoldingAccount { amount: (d.amount + amount) as u64, ..d },
                    ),
                    ..self
                },
            )
        }
    }

    /// Whether the registry takes texts of these sizes.
    pub open spec fn within_limits(self, d: Description) -> bool {
        &&& byte_len(d.name) <= self.limits.name
        &&& byte_len(d.symbol) <= self.limits.symbol
        &&& byte_len(d.uri) <= self.limits.uri
    }

    /// Records the metadata of an asset at `target`, which must be the
    /// address that the derivation gave for the asset, with the asset's
    /// authority as the update authority.
    pub open spec fn record_metadata(
        self,
        target: Address,
        mint: Address,
        authority: Address,
        payer: Address,
        d: Description,
        is_mutable: bool,
        derived: Option<Address>,
    ) -> Result<LedgerView, Error> {
        if !self.has_mint(mint) {
            Err(Error::ExternalModuleRejection)
        } else if self.mint(mint).authority != authority || derived != Some(target) {
            Err(Error::AuthorityBindingViolation)
        } else if self.has_metadata(target) || !self.within_limits(d) {
            Err(Error::ExternalModuleRejection)
        } else {
            Ok(
                LedgerView {
                    metadata: self.metadata.push(
                        MetadataView {
                            address: target,
                            mint,
                            update_authority: authority,
                            name: d.name,
                            symbol: d.symbol,
                            uri: d.uri,
                            seller_fee_basis_points: d.seller_fee_basis_points,
                            is_mutable,
                        },
                    ),
                    ..self
                },
            )
        }
    }

    /// Registers the metadata of an asset at its derived address, with the
    /// asset's authority as the update authority.
    pub open spec fn register_metadata(
        self,
        target: Address,
        mint: Address,
        authority: Address,
        payer: Address,
        d: Description,
        is_mutable: bool,
    ) -> Result<LedgerView, Error> {
        self.record_metadata(
            target,
            mint,
            authority,
            payer,
            d,
            is_mutable,
            self.metadata_target(mint),
        )
    }

    /// Records the edition of an asset at `target`, which must be the
    /// address that the derivation gave for the asset. The asset's one unit
    /// must be issued and its metadata recorded.
    pub open spec fn record_edition(
        self,
        target: Address,
        mint: Address,
        authority: Address,
        payer: Address,
        metadata: Address,
        max_supply: u64,
        derived: Option<Address>,
    ) -> Result<LedgerView, Error> {
        if !self.has_mint(mint) {
            Err(Error::ExternalModuleRejection)
        } else if self.mint(mint).authority != authority || derived != Some(target) {
            Err(Error::AuthorityBindingViolation)
        } else if !self.has_metadata(metadata) || self.metadata_at(metadata).mint != mint
            || self.has_edition(target) || self.mint(mint).supply != SUPPLY_CAP {
            Err(Error::ExternalModuleRejection)
        } else {
            Ok(
                LedgerView {
                    editions: self.editions.push(
                        EditionRecord { address: target, mint, metadata, max_supply },
                    ),
                    ..self
                },
            )
        }
    }

    /// Seals an asset whose one unit is issued and whose metadata is
    /// registered, at the derived address of its edition.
    pub open spec fn register_edition(
        self,
        target: Address,
        mint: Address,
        authority: Address,
        payer: Address,
        metadata: Address,
        max_supply: u64,
    ) -> Result<LedgerView, Error> {
        self.record_edition(
            target,
            mint,
            authority,
            payer,
            metadata,
            max_supply,
            self.edition_target(mint),
        )
    }
}

/// In a well-formed ledger a recorded asset is found where it is recorded.
pub proof fn mint_found(l: LedgerView, i: int)
    requires
        l.addresses_distinct(),
        0 <= i < l.mints.len(),
    ensures
        l.has_mint(l.mints[i].address),
        l.mint_slot(l.mints[i].address) == i,
        l.mint(l.mints[i].address) == l.mints[i],
{
    let j = l.mint_slot(l.mints[i].address);
    if i < j {
        assert(l.mints[i].address != l.mints[j].address);
    } else if j < i {
        assert(l.mints[j].address != l.mints[i].address);
    }
}

/// In a well-formed ledger a holding account is found where it is recorded.
pub proof fn holding_found(l: LedgerView, i: int)
    requires
        l.addresses_distinct(),
        0 <= i < l.holdings.len(),
    ensures
        l.has_holding(l.holdings[i].address),
        l.holding_slot(l.holdings[i].address) == i,
        l.holding(l.holdings[i].address) == l.holdings[i],
{
    let j = l.holding_slot(l.holdings[i].address);
    if i < j {
        assert(l.holdings[i].address != l.holdings[j].address);
    } else if j < i {
        assert(l.holdings[j].address != l.holdings[i].address);
    }
}

/// In a well-formed ledger a metadata record is found where it is kept.
pub proof fn metadata_found(l: LedgerView, i: int)
    requires
        l.addresses_distinct(),
        0 <= i < l.metadata.len(),
    ensures
        l.has_metadata(l.metadata[i].address),
        l.metadata_slot(l.metadata[i].address) == i,
        l.metadata_at(l.metadata[i].address) == l.metadata[i],
{
    let j = l.metadata_slot(l.metadata[i].address);
    if i < j {
        assert(l.metadata[i].address != l.metadata[j].address);
    } else if j < i {
        assert(l.metadata[j].address != l.metadata[i].address);
    }
}

/// In a well-formed ledger an edition record is found where it is kept.
pub proof fn edition_found(l: LedgerView, i: int)
    requires
        l.addresses_distinct(),
        0 <= i < l.editions.len(),
    ensures
        l.has_edition(l.editions[i].address),
        l.edition_slot(l.editions[i].address) == i,
        l.edition_at(l.editions[i].address) == l.editions[i],
{
    let j = l.edition_slot(l.editions[i].address);
    if i < j {
        assert(l.editions[i].address != l.editions[j].address);
    } else if j < i {
        assert(l.editions[j].address != l.editions[i].address);
    }
}

/// Whether an operation ended as the model says: with the next state where
/// the model accepts, and with the model's error and the state unchanged
/// where it refuses.
pub open spec fn settles(
    before: LedgerView,
    after: LedgerView,
    expected: Result<LedgerView, Error>,
    r: Result<(), Error>,
) -> bool {
    match expected {
        Ok(next) => r is Ok && after == next,
        Err(e) => r == Err::<(), Error>(e) && after == before,
    }
}

/// Recording a new asset identity keeps the ledger well formed.
pub proof fn create_mint_keeps_wf(
    l: LedgerView,
    mint: Address,
    authority: Address,
    freeze_authority: Address,
)
    requires
        l.wf(),
        l.create_mint(mint, authority, freeze_authority) is Ok,
    ensures
        l.create_mint(mint, authority, freeze_authority).unwrap().wf(),
{
    let n = l.create_mint(mint, authority, freeze_authority).unwrap();
    assert forall|i: int| 0 <= i < n.holdings.len() implies n.has_mint(
        (#[trigger] n.holdings[i]).mint,
    ) by {
        let k = l.mint_slot(l.holdings[i].mint);
        assert(n.mints[k].address == l.holdings[i].mint);
    }
    assert forall|i: int| 0 <= i < l.holdings.len() implies (#[trigger] l.holdings[i]).mint
        != mint by {
        assert(l.has_mint(l.holdings[i].mint));
    }
    units_unbound(l.holdings, mint);
    assert(n.supplies_exact());
}

/// Opening a holding account keeps the ledger well formed.
pub proof fn open_holding_account_keeps_wf(
    l: LedgerView,
    address: Address,
    mint: Address,
    owner: Address,
)
    requires
        l.wf(),
        l.open_holding_account(address, mint, owner) is Ok,
    ensures
        l.open_holding_account(address, mint, owner).unwrap().wf(),
{
    let n = l.open_holding_account(address, mint, owner).unwrap();
    let h = HoldingAccount { address, mint, owner, amount: 0 };
    assert(n.holdings == l.holdings.push(h));
    assert forall|i: int| 0 <= i < n.mints.len() implies units(
        n.holdings,
        (#[trigger] n.mints[i]).address,
    ) == n.mints[i].supply by {
        units_push(l.holdings, h, n.mints[i].address);
    }
    assert(n.supplies_exact());
}

/// Taking up a holding account keeps the ledger well formed.
pub proof fn observe_holding_account_keeps_wf(l: LedgerView, h: HoldingAccount)
    requires
        l.wf(),
        l.observe_holding_account(h) is Ok,
    ensures
        l.observe_holding_account(h).unwrap().wf(),
{
    if !l.has_holding(h.address) {
        let l1 = l.open_holding_account(h.address, h.mint, h.owner).unwrap();
        open_holding_account_keeps_wf(l, h.address, h.mint, h.owner);
        mint_to_keeps_wf(l1, h.mint, h.address, l1.mint(h.mint).authority, h.amount);
    }
}

/// Settling a holding account keeps the ledger well formed.
pub proof fn settle_holding_account_keeps_wf(
    l: LedgerView,
    owner: Address,
    mint: Address,
    payer: Address,
    canonical: Option<Address>,
)
    requires
        l.wf(),
        l.settle_holding_account(owner, mint, payer, canonical) is Ok,
    ensures
        l.settle_holding_account(owner, mint, payer, canonical).unwrap().wf(),
{
    let a = canonical.unwrap();
    if !l.has_holding(a) {
        open_holding_account_keeps_wf(l, a, mint, owner);
    }
}

/// Issuing units keeps the ledger well formed.
pub proof fn mint_to_keeps_wf(
    l: LedgerView,
    mint: Address,
    destination: Address,
    authority: Address,
    amount: u64,
)
    requires
        l.wf(),
        l.mint_to(mint, destination, authority, amount) is Ok,
    ensures
        l.mint_to(mint, destination, authority, amount).unwrap().wf(),
        l.holding(destination).amount + amount <= SUPPLY_CAP,
{
    let n = l.mint_to(mint, destination, authority, amount).unwrap();
    let k = l.mint_slot(mint);
    let j = l.holding_slot(destination);
    let h = l.holding(destination);
    let h2 = HoldingAccount { amount: (h.amount + amount) as u64, ..h };
    units_bound(l.holdings, j, mint);
    assert(l.mints[k].address == mint);
    assert(h.amount + amount <= SUPPLY_CAP);
    assert forall|i: int| 0 <= i < n.holdings.len() implies n.has_mint(
        (#[trigger] n.holdings[i]).mint,
    ) by {
        let s = l.mint_slot(l.holdings[i].mint);
        assert(l.has_mint(l.holdings[i].mint));
        assert(n.mints[s].address == l.holdings[i].mint);
    }
    assert forall|i: int| 0 <= i < n.mints.len() implies ({
        let m = #[trigger] n.mints[i];
        &&& m.decimals == 0
        &&& m.supply <= SUPPLY_CAP
        &&& units(n.holdings, m.address) == m.supply
    }) by {
        units_update(l.holdings, j, h2, n.mints[i].address);
        if i != k {
            if i < k {
                assert(l.mints[i].address != l.mints[k].address);
            } else {
                assert(l.mints[k].address != l.mints[i].address);
            }
        }
    }
}

/// Moving units keeps the ledger well formed.
pub proof fn transfer_keeps_wf(
    l: LedgerView,
    source: Address,
    destination: Address,
    authority: Address,
    amount: u64,
)
    requires
        l.wf(),
        l.transfer(source, destination, authority, amount) is Ok,
    ensures
        l.transfer(source, destination, authority, amount).unwrap().wf(),
        source != destination ==> l.holding(destination).amount + amount <= SUPPLY_CAP,
{
    let n = l.transfer(source, destination, authority, amount).unwrap();
    if source != destination {
        let i = l.holding_slot(source);
        let j = l.holding_slot(destination);
        let s = l.holding(source);
        let d = l.holding(destination);
        let s2 = HoldingAccount { amount: (s.amount - amount) as u64, ..s };
        let d2 = HoldingAccount { amount: (d.amount + amount) as u64, ..d };
        let mid = l.holdings.update(i, s2);
        assert(i != j);
        assert(mid[j] == d);
        assert(l.has_mint(l.holdings[i].mint));
        let k = l.mint_slot(s.mint);
        units_update(l.holdings, i, s2, s.mint);
        units_update(mid, j, d2, s.mint);
        assert(l.mints[k].address == s.mint);
        units_bound(mid, j, s.mint);
        assert(d.amount + amount <= SUPPLY_CAP);
        assert forall|x: int| 0 <= x < n.holdings.len() implies n.has_mint(
            (#[trigger] n.holdings[x]).mint,
        ) by {
            assert(n.holdings[x].mint == l.holdings[x].mint);
            assert(l.has_mint(l.holdings[x].mint));
            let w = l.mint_slot(l.holdings[x].mint);
            assert(n.mints[w].address == l.holdings[x].mint);
        }
        assert forall|x: int| 0 <= x < n.mints.len() implies units(
            n.holdings,
            (#[trigger] n.mints[x]).address,
        ) == n.mints[x].supply by {
            units_update(l.holdings, i, s2, n.mints[x].address);
            units_update(mid, j, d2, n.mints[x].address);
        }
        assert(n.supplies_exact());
    }
}

/// Recording metadata keeps the ledger well formed.
pub proof fn record_metadata_keeps_wf(
    l: LedgerView,
    target: Address,
    mint: Address,
    authority: Address,
    payer: Address,
    d: Description,
    is_mutable: bool,
    derived: Option<Address>,
)
    requires
        l.wf(),
        l.record_metadata(target, mint, authority, payer, d, is_mutable, derived) is Ok,
    ensures
        l.record_metadata(target, mint, authority, payer, d, is_mutable, derived).unwrap().wf(),
{
    let n = l.record_metadata(target, mint, authority, payer, d, is_mutable, derived).unwrap();
    assert(n.supplies_exact());
    assert forall|i: int| 0 <= i < n.holdings.len() implies n.has_mint(
        (#[trigger] n.holdings[i]).mint,
    ) by {
        assert(l.has_mint(l.holdings[i].mint));
        let k = l.mint_slot(l.holdings[i].mint);
        assert(n.mints[k].address == l.holdings[i].mint);
    }
}

/// Recording an edition keeps the ledger well formed.
pub proof fn record_edition_keeps_wf(
    l: LedgerView,
    target: Address,
    mint: Address,
    authority: Address,
    payer: Address,
    metadata: Address,
    max_supply: u64,
    derived: Option<Address>,
)
    requires
        l.wf(),
        l.record_edition(target, mint, authority, payer, metadata, max_supply, derived) is Ok,
    ensures
        l.record_edition(
            target,
            mint,
            authority,
            payer,
            metadata,
            max_supply,
            derived,
        ).unwrap().wf(),
{
    let n = l.record_edition(
        target,
        mint,
        authority,
        payer,
        metadata,
        max_supply,
        derived,
    ).unwrap();
    assert(n.supplies_exact());
    assert forall|i: int| 0 <= i < n.holdings.len() implies n.has_mint(
        (#[trigger] n.holdings[i]).mint,
    ) by {
        assert(l.has_mint(l.holdings[i].mint));
        let k = l.mint_slot(l.holdings[i].mint);
        assert(n.mints[k].address == l.holdings[i].mint);
    }
}

} // verus!
