use crate::address::Address;
use crate::lookups::{holding_pushed, holding_updated, mint_pushed, mint_updated};
use crate::model::{units_unbound, LedgerView, SUPPLY_CAP};
use crate::operations::{
    create_mint_keeps_wf, mint_to_keeps_wf, open_holding_account_keeps_wf, transfer_keeps_wf,
};
use crate::records::{HoldingAccount, Mint};
use vstd::prelude::*;

verus! {

/// In a well-formed ledger, as many units of an asset are outstanding as
/// its supply says, and never more than the cap.
pub proof fn outstanding_is_supply(l: LedgerView, mint: Address)
    requires
        l.wf(),
    ensures
        l.outstanding(mint) == l.supply(mint),
        l.outstanding(mint) <= SUPPLY_CAP,
{
    if l.has_mint(mint) {
        let k = l.mint_slot(mint);
        assert(l.mints[k].address == mint);
    } else {
        assert forall|i: int| 0 <= i < l.holdings.len() implies (#[trigger] l.holdings[i]).mint
            != mint by {
            assert(l.has_mint(l.holdings[i].mint));
        }
        units_unbound(l.holdings, mint);
    }
}

/// What recording a new asset identity does: the identity is recorded with
/// no unit issued, and nothing else changes.
pub proof fn create_mint_effect(
    l: LedgerView,
    mint: Address,
    authority: Address,
    freeze_authority: Address,
    a: Address,
)
    requires
        l.wf(),
        l.create_mint(mint, authority, freeze_authority) is Ok,
    ensures
        ({
            let n = l.create_mint(mint, authority, freeze_authority).unwrap();
            &&& !l.has_mint(mint)
            &&& n.has_mint(mint)
            &&& n.mint(mint) == (Mint {
                address: mint,
                authority,
                freeze_authority,
                decimals: 0,
                supply: 0,
            })
            &&& n.has_mint(a) == (a == mint || l.has_mint(a))
            &&& (a != mint && l.has_mint(a) ==> n.mint(a) == l.mint(a))
            &&& n.holdings == l.holdings
            &&& n.metadata == l.metadata
            &&& n.editions == l.editions
            &&& n.modules == l.modules
            &&& n.limits == l.limits
        }),
{
    let n = l.create_mint(mint, authority, freeze_authority).unwrap();
    let m = Mint { address: mint, authority, freeze_authority, decimals: 0, supply: 0 };
    create_mint_keeps_wf(l, mint, authority, freeze_authority);
    mint_pushed(l, n, m, a);
    mint_pushed(l, n, m, mint);
}

/// What settling a holding account does: the account at the address that
/// the derivation gave exists afterwards with these bindings, no balance
/// changes, and no other record changes.
pub proof fn settle_holding_account_effect(
    l: LedgerView,
    owner: Address,
    mint: Address,
    payer: Address,
    canonical: Option<Address>,
    a: Address,
)
    requires
        l.wf(),
        l.settle_holding_account(owner, mint, payer, canonical) is Ok,
    ensures
        ({
            let n = l.settle_holding_account(owner, mint, payer, canonical).unwrap();
            let c = canonical.unwrap();
            &&& canonical is Some
            &&& n.has_holding(c)
            &&& n.holding(c).mint == mint
            &&& n.holding(c).owner == owner
            &&& n.has_holding(a) == (a == c || l.has_holding(a))
            &&& (l.has_holding(a) ==> n.holding(a) == l.holding(a))
            &&& (!l.has_holding(c) ==> n.holding(c).amount == 0)
            &&& n.balance(a) == l.balance(a)
            &&& n.mints == l.mints
            &&& n.metadata == l.metadata
            &&& n.editions == l.editions
            &&& n.modules == l.modules
            &&& n.limits == l.limits
        }),
{
    let c = canonical.unwrap();
    if !l.has_holding(c) {
        open_holding_account_effect(l, c, mint, owner, a);
        open_holding_account_effect(l, c, mint, owner, c);
    }
}

/// What opening a holding account does: an empty account with these
/// bindings exists at the address afterwards, no balance changes, and no
/// other record changes.
pub proof fn open_holding_account_effect(
    l: LedgerView,
    address: Address,
    mint: Address,
    owner: Address,
    a: Address,
)
    requires
        l.wf(),
        l.open_holding_account(address, mint, owner) is Ok,
    ensures
        ({
            let n = l.open_holding_account(address, mint, owner).unwrap();
            &&& !l.has_holding(address)
            &&& n.has_holding(address)
            &&& n.holding(address) == (HoldingAccount { address, mint, owner, amount: 0 })
            &&& n.has_holding(a) == (a == address || l.has_holding(a))
            &&& (l.has_holding(a) ==> n.holding(a) == l.holding(a))
            &&& n.balance(a) == l.balance(a)
            &&& n.mints == l.mints
            &&& n.metadata == l.metadata
            &&& n.editions == l.editions
            &&& n.modules == l.modules
            &&& n.limits == l.limits
        }),
{
    let n = l.open_holding_account(address, mint, owner).unwrap();
    let h = HoldingAccount { address, mint, owner, amount: 0 };
    open_holding_account_keeps_wf(l, address, mint, owner);
    holding_pushed(l, n, h, a);
    holding_pushed(l, n, h, address);
}

/// What issuing units does: the supply of the asset and the balance of the
/// destination grow by the amount, and nothing else changes.
pub proof fn mint_to_effect(
    l: LedgerView,
    mint: Address,
    destination: Address,
    authority: Address,
    amount: u64,
    a: Address,
)
    requires
        l.wf(),
        l.mint_to(mint, destination, authority, amount) is Ok,
    ensures
        ({
            let n = l.mint_to(mint, destination, authority, amount).unwrap();
            &&& n.supply(mint) == l.supply(mint) + amount
            &&& n.balance(destination) == l.balance(destination) + amount
            &&& n.has_mint(a) == l.has_mint(a)
            &&& n.has_mint(mint)
            &&& n.mint(mint).authority == l.mint(mint).authority
            &&& (a != mint ==> n.supply(a) == l.supply(a))
            &&& n.has_holding(a) == l.has_holding(a)
            &&& (a != destination ==> n.balance(a) == l.balance(a))
            &&& (l.has_holding(a) ==> n.holding(a).mint == l.holding(a).mint && n.holding(a).owner
                == l.holding(a).owner)
            &&& n.metadata == l.metadata
            &&& n.editions == l.editions
            &&& n.modules == l.modules
            &&& n.limits == l.limits
        }),
{
    let n = l.mint_to(mint, destination, authority, amount).unwrap();
    let k = l.mint_slot(mint);
    let j = l.holding_slot(destination);
    let m = l.mint(mint);
    let h = l.holding(destination);
    let m2 = Mint { supply: (m.supply + amount) as u64, ..m };
    let h2 = HoldingAccount { amount: (h.amount + amount) as u64, ..h };
    mint_to_keeps_wf(l, mint, destination, authority, amount);
    mint_updated(l, n, k, m2, a);
    mint_updated(l, n, k, m2, mint);
    holding_updated(l, n, j, h2, a);
    holding_updated(l, n, j, h2, destination);
}

/// What moving units between two holding accounts does: the source loses
/// the amount, the destination gains it, no other balance and no supply
/// changes, and as many units of every asset are outstanding as before.
pub proof fn transfer_effect(
    l: LedgerView,
    source: Address,
    destination: Address,
    authority: Address,
    amount: u64,
    a: Address,
)
    requires
        l.wf(),
        l.transfer(source, destination, authority, amount) is Ok,
        source != destination,
    ensures
        ({
            let n = l.transfer(source, destination, authority, amount).unwrap();
            &&& l.balance(source) >= amount
            &&& n.balance(source) == l.balance(source) - amount
            &&& n.balance(destination) == l.balance(destination) + amount
            &&& (a != source && a != destination ==> n.balance(a) == l.balance(a))
            &&& n.has_holding(a) == l.has_holding(a)
            &&& (l.has_holding(a) ==> n.holding(a).mint == l.holding(a).mint && n.holding(a).owner
                == l.holding(a).owner)
            &&& n.mints == l.mints
            &&& n.supply(a) == l.supply(a)
            &&& n.outstanding(a) == l.outstanding(a)
            &&& n.metadata == l.metadata
            &&& n.editions == l.editions
            &&& n.modules == l.modules
            &&& n.limits == l.limits
        }),
{
    let n = l.transfer(source, destination, authority, amount).unwrap();
    let i = l.holding_slot(source);
    let j = l.holding_slot(destination);
    let s = l.holding(source);
    let d = l.holding(destination);
    let s2 = HoldingAccount { amount: (s.amount - amount) as u64, ..s };
    let d2 = HoldingAccount { amount: (d.amount + amount) as u64, ..d };
    let mid = LedgerView { holdings: l.holdings.update(i, s2), ..l };
    transfer_keeps_wf(l, source, destination, authority, amount);
    assert(mid.addresses_distinct());
    assert(i != j);
    assert(mid.holdings[j] == d);
    holding_updated(l, mid, i, s2, a);
    holding_updated(l, mid, i, s2, source);
    holding_updated(l, mid, i, s2, destination);
    holding_updated(mid, n, j, d2, a);
    holding_updated(mid, n, j, d2, source);
    holding_updated(mid, n, j, d2, destination);
    outstanding_is_supply(l, a);
    outstanding_is_supply(n, a);
}

} // verus!
