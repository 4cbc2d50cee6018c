use crate::address::Address;
use crate::model::LedgerView;
use crate::operations::{edition_found, holding_found, metadata_found, mint_found};
use crate::records::{EditionRecord, HoldingAccount, MetadataView, Mint};
use vstd::prelude::*;

verus! {

/// After a holding account is added, it is found at its address, and every
/// other address finds what it found before.
pub proof fn holding_pushed(l: LedgerView, n: LedgerView, h: HoldingAccount, a: Address)
    requires
        l.addresses_distinct(),
        n.addresses_distinct(),
        n.holdings == l.holdings.push(h),
    ensures
        n.has_holding(a) == (a == h.address || l.has_holding(a)),
        a == h.address ==> n.holding(a) == h,
        a != h.address && l.has_holding(a) ==> n.holding(a) == l.holding(a),
{
    let len = l.holdings.len() as int;
    holding_found(n, len);
    if a != h.address {
        if l.has_holding(a) {
            let i = l.holding_slot(a);
            assert(n.holdings[i] == l.holdings[i]);
            holding_found(n, i);
        } else if n.has_holding(a) {
            let j = n.holding_slot(a);
            if j < len {
                assert(l.holdings[j].address == a);
            }
        }
    }
}

/// After a holding account is replaced by one at the same address, that
/// address finds the new one, and every other address finds what it found
/// before.
pub proof fn holding_updated(l: LedgerView, n: LedgerView, i: int, h: HoldingAccount, a: Address)
    requires
        l.addresses_distinct(),
        n.addresses_distinct(),
        0 <= i < l.holdings.len(),
        h.address == l.holdings[i].address,
        n.holdings == l.holdings.update(i, h),
    ensures
        n.has_holding(a) == l.has_holding(a),
        a == h.address ==> n.has_holding(a) && n.holding(a) == h,
        a != h.address && l.has_holding(a) ==> n.holding(a) == l.holding(a),
{
    holding_found(n, i);
    holding_found(l, i);
    if a != h.address {
        if l.has_holding(a) {
            let j = l.holding_slot(a);
            assert(n.holdings[j] == l.holdings[j]);
            holding_found(n, j);
        } else if n.has_holding(a) {
            let j = n.holding_slot(a);
            assert(l.holdings[j].address == a);
        }
    }
}

/// After an asset identity is added, it is found at its address, and every
/// other address finds what it found before.
pub proof fn mint_pushed(l: LedgerView, n: LedgerView, m: Mint, a: Address)
    requires
        l.addresses_distinct(),
        n.addresses_distinct(),
        n.mints == l.mints.push(m),
    ensures
        n.has_mint(a) == (a == m.address || l.has_mint(a)),
        a == m.address ==> n.mint(a) == m,
        a != m.address && l.has_mint(a) ==> n.mint(a) == l.mint(a),
{
    let len = l.mints.len() as int;
    mint_found(n, len);
    if a != m.address {
        if l.has_mint(a) {
            let i = l.mint_slot(a);
            assert(n.mints[i] == l.mints[i]);
            mint_found(n, i);
        } else if n.has_mint(a) {
            let j = n.mint_slot(a);
            if j < len {
                assert(l.mints[j].address == a);
            }
        }
    }
}

/// After an asset identity is replaced by one at the same address, that
/// address finds the new one, and every other address finds what it found
/// before.
pub proof fn mint_updated(l: LedgerView, n: LedgerView, i: int, m: Mint, a: Address)
    requires
        l.addresses_distinct(),
        n.addresses_distinct(),
        0 <= i < l.mints.len(),
        m.address == l.mints[i].address,
        n.mints == l.mints.update(i, m),
    ensures
        n.has_mint(a) == l.has_mint(a),
        a == m.address ==> n.has_mint(a) && n.mint(a) == m,
        a != m.address && l.has_mint(a) ==> n.mint(a) == l.mint(a),
{
    mint_found(n, i);
    mint_found(l, i);
    if a != m.address {
        if l.has_mint(a) {
            let j = l.mint_slot(a);
            assert(n.mints[j] == l.mints[j]);
            mint_found(n, j);
        } else if n.has_mint(a) {
            let j = n.mint_slot(a);
            assert(l.mints[j].address == a);
        }
    }
}

/// After a metadata record is added, it is found at its address, and every
/// other address finds what it found before.
pub proof fn metadata_pushed(l: LedgerView, n: LedgerView, r: MetadataView, a: Address)
    requires
        l.addresses_distinct(),
        n.addresses_distinct(),
        n.metadata == l.metadata.push(r),
    ensures
        n.has_metadata(a) == (a == r.address || l.has_metadata(a)),
        a == r.address ==> n.metadata_at(a) == r,
        a != r.address && l.has_metadata(a) ==> n.metadata_at(a) == l.metadata_at(a),
{
    let len = l.metadata.len() as int;
    metadata_found(n, len);
    if a != r.address {
        if l.has_metadata(a) {
            let i = l.metadata_slot(a);
            assert(n.metadata[i] == l.metadata[i]);
            metadata_found(n, i);
        } else if n.has_metadata(a) {
            let j = n.metadata_slot(a);
            if j < len {
                assert(l.metadata[j].address == a);
            }
        }
    }
}

/// After an edition record is added, it is found at its address, and every
/// other address finds what it found before.
pub proof fn edition_pushed(l: LedgerView, n: LedgerView, r: EditionRecord, a: Address)
    requires
        l.addresses_distinct(),
        n.addresses_distinct(),
        n.editions == l.editions.push(r),
    ensures
        n.has_edition(a) == (a == r.address || l.has_edition(a)),
        a == r.address ==> n.edition_at(a) == r,
        a != r.address && l.has_edition(a) ==> n.edition_at(a) == l.edition_at(a),
{
    let len = l.editions.len() as int;
    edition_found(n, len);
    if a != r.address {
        if l.has_edition(a) {
            let i = l.edition_slot(a);
            assert(n.editions[i] == l.editions[i]);
            edition_found(n, i);
        } else if n.has_edition(a) {
            let j = n.edition_slot(a);
            if j < len {
                assert(l.editions[j].address == a);
            }
        }
    }
}

} // verus!
