use crate::address::Address;
use crate::derivation::{edition_address, holding_address, metadata_address};
use crate::error::Error;
use crate::effects::{open_holding_account_effect, outstanding_is_supply};
use crate::model::{units, units_prefix, LedgerView, SUPPLY_CAP};
use crate::operations::{
    create_mint_keeps_wf, edition_found, holding_found, metadata_found, mint_found,
    mint_to_keeps_wf, observe_holding_account_keeps_wf, open_holding_account_keeps_wf,
    record_edition_keeps_wf,
    record_metadata_keeps_wf, settles, transfer_keeps_wf,
};
use crate::records::{
    AssetData, EditionRecord, HoldingAccount, Limits, MetadataRecord, Mint, Modules,
};
use vstd::prelude::*;

verus! {

/// An in-memory ledger: the records of the custody module and of the
/// registry, with the operations that the two modules offer.
pub struct Ledger {
    modules: Modules,
    limits: Limits,
    mints: Vec<Mint>,
    holdings: Vec<HoldingAccount>,
    metadata: Vec<MetadataRecord>,
    editions: Vec<EditionRecord>,
}

impl View for Ledger {
    type V = LedgerView;

    closed spec fn view(&self) -> LedgerView {
        LedgerView {
            modules: self.modules,
            limits: self.limits,
            mints: self.mints@,
            holdings: self.holdings@,
            metadata: self.metadata@.map_values(|r: MetadataRecord| r@),
            editions: self.editions@,
        }
    }
}

impl Ledger {
    /// Whether the ledger is well formed.
    pub open spec fn wf(&self) -> bool {
        self@.wf()
    }

    /// A ledger without records, for the given modules and registry limits.
    pub fn new(modules: Modules, limits: Limits) -> (l: Ledger)
        ensures
            l.wf(),
            l@.modules == modules,
            l@.limits == limits,
            l@.mints.len() == 0,
            l@.holdings.len() == 0,
            l@.metadata.len() == 0,
            l@.editions.len() == 0,
    {
        Ledger {
            modules,
            limits,
            mints: Vec::new(),
            holdings: Vec::new(),
            metadata: Vec::new(),
            editions: Vec::new(),
        }
    }

    /// The module identities that the ledger was set up with.
    pub fn modules(&self) -> (m: Modules)
        ensures
            m == self@.modules,
    {
        self.modules
    }

    /// The registry limits that the ledger was set up with.
    pub fn limits(&self) -> (l: Limits)
        ensures
            l == self@.limits,
    {
        self.limits
    }

    fn find_mint(&self, a: &Address) -> (r: Option<usize>)
        ensures
            match r {
                Some(i) => i < self.mints.len() && self.mints[i as int].address == *a,
                None => !self@.has_mint(*a),
            },
    {
        let mut i: usize = 0;
        while i < self.mints.len()
            invariant
                i <= self.mints.len(),
                forall|j: int| 0 <= j < i ==> (#[trigger] self.mints[j]).address != *a,
            decreases self.mints.len() - i,
        {
            if self.mints[i].address.same(a) {
                return Some(i);
            }
            i = i + 1;
        }
        None
    }

    fn find_holding(&self, a: &Address) -> (r: Option<usize>)
        ensures
            match r {
                Some(i) => i < self.holdings.len() && self.holdings[i as int].address == *a,
                None => !self@.has_holding(*a),
            },
    {
        let mut i: usize = 0;
        while i < self.holdings.len()
            invariant
                i <= self.holdings.len(),
                forall|j: int| 0 <= j < i ==> (#[trigger] self.holdings[j]).address != *a,
            decreases self.holdings.len() - i,
        {
            if self.holdings[i].address.same(a) {
                return Some(i);
            }
            i = i + 1;
        }
        None
    }

    fn find_metadata(&self, a: &Address) -> (r: Option<usize>)
        ensures
            match r {
                Some(i) => i < self.metadata.len() && self.metadata[i as int].address == *a,
                None => !self@.has_metadata(*a),
            },
    {
        let mut i: usize = 0;
        while i < self.metadata.len()
            invariant
                i <= self.metadata.len(),
                forall|j: int| 0 <= j < i ==> (#[trigger] self.metadata[j]).address != *a,
            decreases self.metadata.len() - i,
        {
            if self.metadata[i].address.same(a) {
                return Some(i);
            }
            i = i + 1;
        }
        assert forall|j: int| 0 <= j < self@.metadata.len() implies (
        #[trigger] self@.metadata[j]).address != *a by {
            assert(self@.metadata[j] == self.metadata[j]@);
        }
        None
    }

    fn find_edition(&self, a: &Address) -> (r: Option<usize>)
        ensures
            match r {
                Some(i) => i < self.editions.len() && self.editions[i as int].address == *a,
                None => !self@.has_edition(*a),
            },
    {
        let mut i: usize = 0;
        while i < self.editions.len()
            invariant
                i <= self.editions.len(),
                forall|j: int| 0 <= j < i ==> (#[trigger] self.editions[j]).address != *a,
            decreases self.editions.len() - i,
        {
            if self.editions[i].address.same(a) {
                return Some(i);
            }
            i = i + 1;
        }
        None
    }

    /// The asset identity recorded at the address, if any.
    pub fn mint_account(&self, a: &Address) -> (r: Option<Mint>)
        requires
            self.wf(),
        ensures
            r == if self@.has_mint(*a) { Some(self@.mint(*a)) } else { None },
    {
        match self.find_mint(a) {
            Some(i) => {
                proof {
                    mint_found(self@, i as int);
                }
                Some(self.mints[i])
            },
            None => None,
        }
    }

    /// The holding account at the address, if any.
    pub fn holding_account(&self, a: &Address) -> (r: Option<HoldingAccount>)
        requires
            self.wf(),
        ensures
            r == if self@.has_holding(*a) { Some(self@.holding(*a)) } else { None },
    {
        match self.find_holding(a) {
            Some(i) => {
                proof {
                    holding_found(self@, i as int);
                }
                Some(self.holdings[i])
            },
            None => None,
        }
    }

    /// The metadata record at the address, if any.
    pub fn metadata_record(&self, a: &Address) -> (r: Option<MetadataRecord>)
        requires
            self.wf(),
        ensures
            match r {
                Some(rec) => self@.has_metadata(*a) && rec@ == self@.metadata_at(*a),
                None => !self@.has_metadata(*a),
            },
    {
        match self.find_metadata(a) {
            Some(i) => {
                proof {
                    assert(self@.metadata[i as int] == self.metadata[i as int]@);
                    metadata_found(self@, i as int);
                }
                Some(self.metadata[i].duplicate())
            },
            None => None,
        }
    }

    /// The edition record at the address, if any.
    pub fn edition_record(&self, a: &Address) -> (r: Option<EditionRecord>)
        requires
            self.wf(),
        ensures
            r == if self@.has_edition(*a) { Some(self@.edition_at(*a)) } else { None },
    {
        match self.find_edition(a) {
            Some(i) => {
                proof {
                    edition_found(self@, i as int);
                }
                Some(self.editions[i])
            },
            None => None,
        }
    }

    /// The balance of the holding account at the address; zero where there
    /// is none.
    pub fn balance_of(&self, a: &Address) -> (r: u64)
        requires
            self.wf(),
        ensures
            r == self@.balance(*a),
    {
        match self.holding_account(a) {
            Some(h) => h.amount,
            None => 0,
        }
    }

    /// The recorded supply of an asset; zero where it was never issued.
    pub fn supply_of(&self, mint: &Address) -> (r: u64)
        requires
            self.wf(),
        ensures
            r == self@.supply(*mint),
    {
        match self.mint_account(mint) {
            Some(m) => m.supply,
            None => 0,
        }
    }

    /// The units of an asset that all holding accounts hold together.
    pub fn outstanding_of(&self, mint: &Address) -> (r: u64)
        requires
            self.wf(),
        ensures
            r == self@.outstanding(*mint),
            r == self@.supply(*mint),
            r <= SUPPLY_CAP,
    {
        proof {
            outstanding_is_supply(self@, *mint);
        }
        let mut total: u64 = 0;
        let mut i: usize = 0;
        while i < self.holdings.len()
            invariant
                i <= self.holdings.len(),
                total == units(self.holdings@.take(i as int), *mint),
                units(self.holdings@, *mint) <= SUPPLY_CAP,
            decreases self.holdings.len() - i,
        {
            proof {
                units_prefix(self.holdings@, i + 1, *mint);
                assert(self.holdings@.take(i + 1).drop_last() =~= self.holdings@.take(i as int));
            }
            if self.holdings[i].mint.same(mint) {
                total = total + self.holdings[i].amount;
            }
            i = i + 1;
        }
        assert(self.holdings@.take(i as int) =~= self.holdings@);
        total
    }

    /// Records a new asset identity with no unit issued yet.
    pub fn create_mint(
        &mut self,
        mint: &Address,
        authority: &Address,
        freeze_authority: &Address,
    ) -> (r: Result<(), Error>)
        requires
            old(self).wf(),
        ensures
            final(self).wf(),
            settles(
                old(self)@,
                final(self)@,
                old(self)@.create_mint(*mint, *authority, *freeze_authority),
                r,
            ),
    {
        match self.find_mint(mint) {
            Some(_) => Err(Error::AlreadyInitializedMismatched),
            None => {
                proof {
                    create_mint_keeps_wf(self@, *mint, *authority, *freeze_authority);
                }
                self.mints.push(
                    Mint {
                        address: *mint,
                        authority: *authority,
                        freeze_authority: *freeze_authority,
                        decimals: 0,
                        supply: 0,
                    },
                );
                assert(self@ =~= old(self)@.create_mint(
                    *mint,
                    *authority,
                    *freeze_authority,
                ).unwrap());
                Ok(())
            },
        }
    }

    /// Opens an empty holding account at an address, bound to an asset and
    /// a holder.
    pub fn open_holding_account(
        &mut self,
        address: &Address,
        mint: &Address,
        owner: &Address,
    ) -> (r: Result<(), Error>)
        requires
            old(self).wf(),
        ensures
            final(self).wf(),
            settles(
                old(self)@,
                final(self)@,
                old(self)@.open_holding_account(*address, *mint, *owner),
                r,
            ),
    {
        match self.find_holding(address) {
            Some(i) => {
                proof {
                    holding_found(self@, i as int);
                }
                return Err(Error::AlreadyInitializedMismatched);
            },
            None => {},
        }
        if self.find_mint(mint).is_none() {
            return Err(Error::ExternalModuleRejection);
        }
        proof {
            let i = choose|i: int|
                0 <= i < self.mints.len() && (#[trigger] self.mints[i]).address == *mint;
            assert(self@.mints[i].address == *mint);
            open_holding_account_keeps_wf(self@, *address, *mint, *owner);
        }
        self.holdings.push(
            HoldingAccount { address: *address, mint: *mint, owner: *owner, amount: 0 },
        );
        assert(self@ =~= old(self)@.open_holding_account(*address, *mint, *owner).unwrap());
        Ok(())
    }

    /// Takes up an asset identity as it is seen elsewhere. Where no one is
    /// its authority, it is recorded as its own.
    pub fn observe_mint(
        &mut self,
        mint: &Address,
        authority: Option<Address>,
        freeze_authority: Option<Address>,
    ) -> (r: Result<(), Error>)
        requires
            old(self).wf(),
        ensures
            final(self).wf(),
            settles(
                old(self)@,
                final(self)@,
                old(self)@.observe_mint(*mint, authority, freeze_authority),
                r,
            ),
    {
        let a = match authority {
            Some(a) => a,
            None => *mint,
        };
        let f = match freeze_authority {
            Some(f) => f,
            None => *mint,
        };
        self.create_mint(mint, &a, &f)
    }

    /// Takes up a holding account as it is seen elsewhere, with what it
    /// holds: changes nothing where the very same account is recorded
    /// already, and else opens it and issues its balance into it.
    pub fn observe_holding_account(&mut self, h: &HoldingAccount) -> (r: Result<(), Error>)
        requires
            old(self).wf(),
        ensures
            final(self).wf(),
            settles(old(self)@, final(self)@, old(self)@.observe_holding_account(*h), r),
    {
        match self.holding_account(&h.address) {
            Some(seen) => {
                assert(seen.address == h.address);
                if seen.mint.same(&h.mint) && seen.owner.same(&h.owner) && seen.amount
                    == h.amount {
                    return Ok(());
                }
                return Err(Error::AlreadyInitializedMismatched);
            },
            None => {},
        }
        let m = match self.mint_account(&h.mint) {
            Some(m) => m,
            None => {
                return Err(Error::ExternalModuleRejection);
            },
        };
        proof {
            let k = self@.mint_slot(h.mint);
            assert(self@.mints[k].supply <= SUPPLY_CAP);
        }
        if h.amount > SUPPLY_CAP - m.supply {
            return Err(Error::ExternalModuleRejection);
        }
        proof {
            open_holding_account_effect(self@, h.address, h.mint, h.owner, h.address);
            observe_holding_account_keeps_wf(self@, *h);
        }
        match self.open_holding_account(&h.address, &h.mint, &h.owner) {
            Err(e) => {
                return Err(e);
            },
            Ok(_) => {},
        }
        self.mint_to(&h.mint, &h.address, &m.authority, h.amount)
    }

    /// Settles the holding account of `owner` for `mint` at the address
    /// that the derivation gave for the pair: creates it where it is absent
    /// and changes nothing where it is there with these bindings.
    pub fn settle_holding_account(
        &mut self,
        owner: &Address,
        mint: &Address,
        payer: &Address,
        canonical: Option<Address>,
    ) -> (r: Result<(), Error>)
        requires
            old(self).wf(),
        ensures
            final(self).wf(),
            settles(
                old(self)@,
                final(self)@,
                old(self)@.settle_holding_account(*owner, *mint, *payer, canonical),
                r,
            ),
    {
        let a = match canonical {
            Some(a) => a,
            None => {
                return Err(Error::DerivationFailed);
            },
        };
        match self.holding_account(&a) {
            None => self.open_holding_account(&a, mint, owner),
            Some(h) => if h.owner.same(owner) && h.mint.same(mint) {
                Ok(())
            } else {
                Err(Error::AlreadyInitializedMismatched)
            },
        }
    }

    /// Creates the canonical holding account of `owner` for `mint` where it
    /// is absent, and changes nothing where it is there with these bindings.
    pub fn create_holding_account(
        &mut self,
        owner: &Address,
        mint: &Address,
        payer: &Address,
    ) -> (r: Result<(), Error>)
        requires
            old(self).wf(),
        ensures
            final(self).wf(),
            settles(
                old(self)@,
                final(self)@,
                old(self)@.create_holding_account(*owner, *mint, *payer),
                r,
            ),
    {
        let canonical = holding_address(
            owner,
            mint,
            &self.modules.token_program,
            &self.modules.associated_token_program,
        );
        self.settle_holding_account(owner, mint, payer, canonical)
    }

    /// Issues `amount` units of `mint` into `destination` on the word of the
    /// asset's authority, within the supply cap.
    pub fn mint_to(
        &mut self,
        mint: &Address,
        destination: &Address,
        authority: &Address,
        amount: u64,
    ) -> (r: Result<(), Error>)
        requires
            old(self).wf(),
        ensures
            final(self).wf(),
            settles(
                old(self)@,
                final(self)@,
                old(self)@.mint_to(*mint, *destination, *authority, amount),
                r,
            ),
    {
        let k = match self.find_mint(mint) {
            Some(k) => k,
            None => {
                return Err(Error::ExternalModuleRejection);
            },
        };
        let j = match self.find_holding(destination) {
            Some(j) => j,
            None => {
                return Err(Error::ExternalModuleRejection);
            },
        };
        proof {
            mint_found(self@, k as int);
            holding_found(self@, j as int);
        }
        let m = self.mints[k];
        let h = self.holdings[j];
        if !h.mint.same(mint) {
            return Err(Error::ExternalModuleRejection);
        }
        if !m.authority.same(authority) {
            return Err(Error::AuthorityBindingViolation);
        }
        if amount > SUPPLY_CAP - m.supply {
            return Err(Error::ExternalModuleRejection);
        }
        proof {
            mint_to_keeps_wf(self@, *mint, *destination, *authority, amount);
        }
        self.mints.set(k, Mint { supply: m.supply + amount, ..m });
        self.holdings.set(j, HoldingAccount { amount: h.amount + amount, ..h });
        assert(self@ =~= old(self)@.mint_to(*mint, *destination, *authority, amount).unwrap());
        Ok(())
    }

    /// Moves `amount` units from `source` to `destination` on the word of
    /// the owner of `source`.
    pub fn transfer(
        &mut self,
        source: &Address,
        destination: &Address,
        authority: &Address,
        amount: u64,
    ) -> (r: Result<(), Error>)
        requires
            old(self).wf(),
        ensures
            final(self).wf(),
            settles(
                old(self)@,
                final(self)@,
                old(self)@.transfer(*source, *destination, *authority, amount),
                r,
            ),
    {
        let i = match self.find_holding(source) {
            Some(i) => i,
            None => {
                return Err(Error::ExternalModuleRejection);
            },
        };
        let j = match self.find_holding(destination) {
            Some(j) => j,
            None => {
                return Err(Error::ExternalModuleRejection);
            },
        };
        proof {
            holding_found(self@, i as int);
            holding_found(self@, j as int);
        }
        let s = self.holdings[i];
        let d = self.holdings[j];
        if !s.mint.same(&d.mint) {
            return Err(Error::ExternalModuleRejection);
        }
        if !s.owner.same(authority) {
            return Err(Error::AuthorityBindingViolation);
        }
        if s.amount < amount {
            return Err(Error::InsufficientBalance);
        }
        if i == j {
            return Ok(());
        }
        proof {
            transfer_keeps_wf(self@, *source, *destination, *authority, amount);
        }
        self.holdings.set(i, HoldingAccount { amount: s.amount - amount, ..s });
        self.holdings.set(j, HoldingAccount { amount: d.amount + amount, ..d });
        assert(self@ =~= old(self)@.transfer(*source, *destination, *authority, amount).unwrap());
        Ok(())
    }

    /// Records the metadata of an asset at `target`, which must be the
    /// address that the derivation gave for the asset, with the asset's
    /// authority as the update authority.
    pub fn record_metadata(
        &mut self,
        target: &Address,
        mint: &Address,
        authority: &Address,
        payer: &Address,
        data: AssetData,
        is_mutable: bool,
        derived: Option<Address>,
    ) -> (r: Result<(), Error>)
        requires
            old(self).wf(),
        ensures
            final(self).wf(),
            settles(
                old(self)@,
                final(self)@,
                old(self)@.record_metadata(
                    *target,
                    *mint,
                    *authority,
                    *payer,
                    data@,
                    is_mutable,
                    derived,
                ),
                r,
            ),
    {
        let k = match self.find_mint(mint) {
            Some(k) => k,
            None => {
                return Err(Error::ExternalModuleRejection);
            },
        };
        proof {
            mint_found(self@, k as int);
        }
        if !self.mints[k].authority.same(authority) {
            return Err(Error::AuthorityBindingViolation);
        }
        match derived {
            Some(a) => {
                if !a.same(target) {
                    return Err(Error::AuthorityBindingViolation);
                }
            },
            None => {
                return Err(Error::AuthorityBindingViolation);
            },
        }
        if self.find_metadata(target).is_some() {
            proof {
                let i = choose|i: int|
                    0 <= i < self.metadata.len() && (#[trigger] self.metadata[i]).address
                        == *target;
                assert(self@.metadata[i] == self.metadata[i]@);
            }
            return Err(Error::ExternalModuleRejection);
        }
        if data.name.as_str().as_bytes().len() > self.limits.name
            || data.symbol.as_str().as_bytes().len() > self.limits.symbol
            || data.uri.as_str().as_bytes().len() > self.limits.uri {
            return Err(Error::ExternalModuleRejection);
        }
        proof {
            record_metadata_keeps_wf(
                self@,
                *target,
                *mint,
                *authority,
                *payer,
                data@,
                is_mutable,
                derived,
            );
        }
        let record = MetadataRecord {
            address: *target,
            mint: *mint,
            update_authority: *authority,
            name: data.name,
            symbol: data.symbol,
            uri: data.uri,
            seller_fee_basis_points: data.seller_fee_basis_points,
            is_mutable,
        };
        self.metadata.push(record);
        assert(self@ =~= old(self)@.record_metadata(
            *target,
            *mint,
            *authority,
            *payer,
            data@,
            is_mutable,
            derived,
        ).unwrap());
        Ok(())
    }

    /// Registers the metadata of an asset at its derived address, with the
    /// asset's authority as the update authority.
    pub fn register_metadata(
        &mut self,
        target: &Address,
        mint: &Address,
        authority: &Address,
        payer: &Address,
        data: AssetData,
        is_mutable: bool,
    ) -> (r: Result<(), Error>)
        requires
            old(self).wf(),
        ensures
            final(self).wf(),
            settles(
                old(self)@,
                final(self)@,
                old(self)@.register_metadata(*target, *mint, *authority, *payer, data@, is_mutable),
                r,
            ),
    {
        let derived = metadata_address(&self.modules.token_metadata_program, mint);
        self.record_metadata(target, mint, authority, payer, data, is_mutable, derived)
    }

    /// Records the edition of an asset at `target`, which must be the
    /// address that the derivation gave for the asset. The asset's one unit
    /// must be issued and its metadata recorded.
    pub fn record_edition(
        &mut self,
        target: &Address,
        mint: &Address,
        authority: &Address,
        payer: &Address,
        metadata: &Address,
        max_supply: u64,
        derived: Option<Address>,
    ) -> (r: Result<(), Error>)
        requires
            old(self).wf(),
        ensures
            final(self).wf(),
            settles(
                old(self)@,
                final(self)@,
                old(self)@.record_edition(
                    *target,
                    *mint,
                    *authority,
                    *payer,
                    *metadata,
                    max_supply,
                    derived,
                ),
                r,
            ),
    {
        let k = match self.find_mint(mint) {
            Some(k) => k,
            None => {
                return Err(Error::ExternalModuleRejection);
            },
        };
        proof {
            mint_found(self@, k as int);
        }
        if !self.mints[k].authority.same(authority) {
            return Err(Error::AuthorityBindingViolation);
        }
        match derived {
            Some(a) => {
                if !a.same(target) {
                    return Err(Error::AuthorityBindingViolation);
                }
            },
            None => {
                return Err(Error::AuthorityBindingViolation);
            },
        }
        let i = match self.find_metadata(metadata) {
            Some(i) => i,
            None => {
                return Err(Error::ExternalModuleRejection);
            },
        };
        proof {
            assert(self@.metadata[i as int] == self.metadata[i as int]@);
            metadata_found(self@, i as int);
        }
        if !self.metadata[i].mint.same(mint) {
            return Err(Error::ExternalModuleRejection);
        }
        if self.find_edition(target).is_some() {
            return Err(Error::ExternalModuleRejection);
        }
        if self.mints[k].supply != SUPPLY_CAP {
            return Err(Error::ExternalModuleRejection);
        }
        proof {
            record_edition_keeps_wf(
                self@,
                *target,
                *mint,
                *authority,
                *payer,
                *metadata,
                max_supply,
                derived,
            );
        }
        self.editions.push(
            EditionRecord { address: *target, mint: *mint, metadata: *metadata, max_supply },
        );
        assert(self@ =~= old(self)@.record_edition(
            *target,
            *mint,
            *authority,
            *payer,
            *metadata,
            max_supply,
            derived,
        ).unwrap());
        Ok(())
    }

    /// Seals an asset whose one unit is issued and whose metadata is
    /// registered, at the derived address of its edition.
    pub fn register_edition(
        &mut self,
        target: &Address,
        mint: &Address,
        authority: &Address,
        payer: &Address,
        metadata: &Address,
        max_supply: u64,
    ) -> (r: Result<(), Error>)
        requires
            old(self).wf(),
        ensures
            final(self).wf(),
            settles(
                old(self)@,
                final(self)@,
                old(self)@.register_edition(
                    *target,
                    *mint,
                    *authority,
                    *payer,
                    *metadata,
                    max_supply,
                ),
                r,
            ),
    {
        let derived = edition_address(&self.modules.token_metadata_program, mint);
        self.record_edition(target, mint, authority, payer, metadata, max_supply, derived)
    }

    /// A copy of the ledger as it stands.
    pub fn snapshot(&self) -> (c: Ledger)
        ensures
            c@ == self@,
    {
        let mut metadata: Vec<MetadataRecord> = Vec::new();
        let mut i: usize = 0;
        while i < self.metadata.len()
            invariant
                i <= self.metadata.len(),
                metadata@.len() == i,
                forall|j: int| 0 <= j < i ==> (#[trigger] metadata@[j])@ == self.metadata@[j]@,
            decreases self.metadata.len() - i,
        {
            metadata.push(self.metadata[i].duplicate());
            i = i + 1;
        }
        let c = Ledger {
            modules: self.modules,
            limits: self.limits,
            mints: self.mints.clone(),
            holdings: self.holdings.clone(),
            metadata,
            editions: self.editions.clone(),
        };
        assert(c.mints@ =~= self.mints@);
        assert(c.holdings@ =~= self.holdings@);
        assert(c.editions@ =~= self.editions@);
        assert(c@ =~= self@);
        c
    }
}

} // verus!
