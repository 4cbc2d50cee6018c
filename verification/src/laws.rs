use crate::accounts::{CreateNFT, IssuanceTargets, TokenTransferFromPDA, TokenTransferFromWallet};
use crate::address::Address;
use crate::derivation::derivation;
use crate::effects::{
    create_mint_effect, mint_to_effect, outstanding_is_supply, settle_holding_account_effect,
    transfer_effect,
};
use crate::error::Error;
use crate::lookups::{edition_pushed, metadata_pushed};
use crate::model::{units_bound, LedgerView, SUPPLY_CAP};
use crate::operations::{
    create_mint_keeps_wf, mint_to_keeps_wf, record_edition_keeps_wf, record_metadata_keeps_wf,
    settle_holding_account_keeps_wf, settles, transfer_keeps_wf,
};
use crate::outcomes::{EDITION_MAX_SUPPLY, ISSUED_MUTABLE, ONE_UNIT};
use crate::records::{Description, EditionRecord, MetadataView};
use vstd::prelude::*;

verus! {

/// The derivation is a function: equal seeds under equal namespaces give
/// the same address and the same bump, or fail alike.
pub proof fn derivation_is_deterministic(
    seeds: Seq<Seq<u8>>,
    namespace: Address,
    again: Seq<Seq<u8>>,
    namespace_again: Address,
)
    requires
        seeds =~= again,
        namespace == namespace_again,
    ensures
        derivation(seeds, namespace) == derivation(again, namespace_again),
{
}

/// An operation that is refused leaves the ledger as it was: every balance,
/// every supply and the units outstanding of every asset.
pub proof fn refusal_changes_nothing(
    before: LedgerView,
    after: LedgerView,
    expected: Result<LedgerView, Error>,
    r: Result<(), Error>,
    a: Address,
)
    requires
        settles(before, after, expected, r),
        expected is Err,
    ensures
        r is Err,
        after == before,
        after.balance(a) == before.balance(a),
        after.supply(a) == before.supply(a),
        after.outstanding(a) == before.outstanding(a),
{
}

/// In a well-formed ledger no holding account holds more than the cap.
pub proof fn balance_within_cap(l: LedgerView, a: Address)
    requires
        l.wf(),
    ensures
        l.balance(a) <= SUPPLY_CAP,
{
    if l.has_holding(a) {
        let i = l.holding_slot(a);
        units_bound(l.holdings, i, l.holdings[i].mint);
        outstanding_is_supply(l, l.holdings[i].mint);
    }
}

/// In a well-formed ledger no more than one unit of an asset is
/// outstanding, and as many as its supply says.
pub proof fn supply_invariant(l: LedgerView, mint: Address)
    requires
        l.wf(),
    ensures
        l.outstanding(mint) <= 1,
        l.outstanding(mint) == l.supply(mint),
{
    outstanding_is_supply(l, mint);
}

/// A wallet-authorized transfer keeps the ledger well formed, whatever the
/// derivation gave.
pub proof fn wallet_transfer_keeps_wf(
    l: LedgerView,
    ctx: TokenTransferFromWallet,
    delegate: Option<Address>,
    destination: Option<Address>,
)
    requires
        l.wf(),
        l.wallet_transfer_with(ctx, delegate, destination) is Ok,
    ensures
        l.wallet_transfer_with(ctx, delegate, destination).unwrap().wf(),
{
    let d = delegate.unwrap();
    let l1 = l.settle_holding_account(d, ctx.mint, ctx.signer, destination).unwrap();
    settle_holding_account_keeps_wf(l, d, ctx.mint, ctx.signer, destination);
    transfer_keeps_wf(l1, ctx.from_token_account, ctx.to_token_account, ctx.signer, ONE_UNIT);
}

/// A delegate-authorized transfer keeps the ledger well formed, whatever
/// the derivation gave.
pub proof fn delegate_transfer_keeps_wf(
    l: LedgerView,
    ctx: TokenTransferFromPDA,
    issuer: Address,
    delegate: Option<Address>,
    destination: Option<Address>,
)
    requires
        l.wf(),
        l.delegate_transfer_with(ctx, issuer, delegate, destination) is Ok,
    ensures
        l.delegate_transfer_with(ctx, issuer, delegate, destination).unwrap().wf(),
{
    let d = delegate.unwrap();
    let l1 = l.settle_holding_account(ctx.recipient, ctx.mint, ctx.payer, destination).unwrap();
    settle_holding_account_keeps_wf(l, ctx.recipient, ctx.mint, ctx.payer, destination);
    transfer_keeps_wf(l1, ctx.from_token_account, ctx.to_token_account, d, ONE_UNIT);
}

/// An issuance keeps the ledger well formed, whatever the derivation gave.
pub proof fn issuance_keeps_wf(
    l: LedgerView,
    ctx: CreateNFT,
    d: Description,
    targets: IssuanceTargets,
)
    requires
        l.wf(),
        l.issuance_with(ctx, d, targets) is Ok,
    ensures
        l.issuance_with(ctx, d, targets).unwrap().wf(),
{
    let l1 = l.create_mint(ctx.mint, ctx.signer, ctx.signer).unwrap();
    create_mint_keeps_wf(l, ctx.mint, ctx.signer, ctx.signer);
    let l2 = l1.settle_holding_account(ctx.signer, ctx.mint, ctx.signer, targets.holding).unwrap();
    settle_holding_account_keeps_wf(l1, ctx.signer, ctx.mint, ctx.signer, targets.holding);
    let l3 = l2.mint_to(ctx.mint, ctx.associated_token_account, ctx.signer, ONE_UNIT).unwrap();
    mint_to_keeps_wf(l2, ctx.mint, ctx.associated_token_account, ctx.signer, ONE_UNIT);
    let l4 = l3.record_metadata(
        ctx.metadata_account,
        ctx.mint,
        ctx.signer,
        ctx.signer,
        d,
        ISSUED_MUTABLE,
        targets.metadata,
    ).unwrap();
    record_metadata_keeps_wf(
        l3,
        ctx.metadata_account,
        ctx.mint,
        ctx.signer,
        ctx.signer,
        d,
        ISSUED_MUTABLE,
        targets.metadata,
    );
    record_edition_keeps_wf(
        l4,
        ctx.master_edition_account,
        ctx.mint,
        ctx.signer,
        ctx.signer,
        ctx.metadata_account,
        EDITION_MAX_SUPPLY,
        targets.edition,
    );
}

/// Every successful wallet-authorized transfer between two different
/// holding accounts takes exactly one unit from the source and gives exactly
/// one to the destination, which belongs to the delegate authority; it
/// changes no other balance and no supply. The source then holds nothing
/// and the destination the unit.
pub proof fn wallet_transfer_conserves(
    l: LedgerView,
    ctx: TokenTransferFromWallet,
    delegate: Option<Address>,
    destination: Option<Address>,
    a: Address,
)
    requires
        l.wf(),
        l.wallet_transfer_with(ctx, delegate, destination) is Ok,
        ctx.from_token_account != ctx.to_token_account,
    ensures
        ({
            let n = l.wallet_transfer_with(ctx, delegate, destination).unwrap();
            &&& n.balance(ctx.from_token_account) == l.balance(ctx.from_token_account) - 1
            &&& n.balance(ctx.to_token_account) == l.balance(ctx.to_token_account) + 1
            &&& n.balance(ctx.from_token_account) == 0
            &&& n.balance(ctx.to_token_account) == 1
            &&& (a != ctx.from_token_account && a != ctx.to_token_account ==> n.balance(a)
                == l.balance(a))
            &&& n.supply(a) == l.supply(a)
            &&& n.outstanding(a) == l.outstanding(a)
            &&& n.has_mint(a) == l.has_mint(a)
            &&& (l.has_holding(a) ==> n.has_holding(a) && n.holding(a).owner == l.holding(a).owner
                && n.holding(a).mint == l.holding(a).mint)
            &&& n.has_holding(ctx.to_token_account)
            &&& delegate == Some(n.holding(ctx.to_token_account).owner)
            &&& n.holding(ctx.to_token_account).mint == ctx.mint
        }),
{
    let n = l.wallet_transfer_with(ctx, delegate, destination).unwrap();
    let d = delegate.unwrap();
    let l1 = l.settle_holding_account(d, ctx.mint, ctx.signer, destination).unwrap();
    let from = ctx.from_token_account;
    let to = ctx.to_token_account;
    settle_holding_account_keeps_wf(l, d, ctx.mint, ctx.signer, destination);
    settle_holding_account_effect(l, d, ctx.mint, ctx.signer, destination, a);
    settle_holding_account_effect(l, d, ctx.mint, ctx.signer, destination, from);
    settle_holding_account_effect(l, d, ctx.mint, ctx.signer, destination, to);
    transfer_effect(l1, from, to, ctx.signer, ONE_UNIT, a);
    transfer_effect(l1, from, to, ctx.signer, ONE_UNIT, to);
    wallet_transfer_keeps_wf(l, ctx, delegate, destination);
    outstanding_is_supply(l, a);
    outstanding_is_supply(l1, a);
    balance_within_cap(l, from);
    balance_within_cap(n, to);
}

/// Every successful delegate-authorized transfer between two different
/// holding accounts takes exactly one unit from the source, which belongs to
/// the delegate authority, and gives exactly one to the destination, which
/// belongs to the recipient, whoever pays; it changes no other balance and
/// no supply. The source then holds nothing and the destination the unit.
/// The delegate authority under which the move was made is the one derived
/// under the ledger's program.
pub proof fn delegate_transfer_conserves(
    l: LedgerView,
    ctx: TokenTransferFromPDA,
    issuer: Address,
    delegate: Option<Address>,
    destination: Option<Address>,
    a: Address,
)
    requires
        l.wf(),
        l.delegate_transfer_with(ctx, issuer, delegate, destination) is Ok,
        ctx.from_token_account != ctx.to_token_account,
    ensures
        ({
            let n = l.delegate_transfer_with(ctx, issuer, delegate, destination).unwrap();
            &&& n.balance(ctx.from_token_account) == l.balance(ctx.from_token_account) - 1
            &&& n.balance(ctx.to_token_account) == l.balance(ctx.to_token_account) + 1
            &&& n.balance(ctx.from_token_account) == 0
            &&& n.balance(ctx.to_token_account) == 1
            &&& (a != ctx.from_token_account && a != ctx.to_token_account ==> n.balance(a)
                == l.balance(a))
            &&& n.supply(a) == l.supply(a)
            &&& n.outstanding(a) == l.outstanding(a)
            &&& n.has_mint(a) == l.has_mint(a)
            &&& (l.has_holding(a) ==> n.has_holding(a) && n.holding(a).owner == l.holding(a).owner
                && n.holding(a).mint == l.holding(a).mint)
            &&& n.has_holding(ctx.to_token_account)
            &&& n.holding(ctx.to_token_account).owner == ctx.recipient
            &&& n.holding(ctx.to_token_account).mint == ctx.mint
            &&& issuer == l.modules.program
            &&& delegate == Some(ctx.pda_account)
            &&& delegate == Some(l.holding(ctx.from_token_account).owner)
        }),
{
    let n = l.delegate_transfer_with(ctx, issuer, delegate, destination).unwrap();
    let d = delegate.unwrap();
    let l1 = l.settle_holding_account(ctx.recipient, ctx.mint, ctx.payer, destination).unwrap();
    let from = ctx.from_token_account;
    let to = ctx.to_token_account;
    settle_holding_account_keeps_wf(l, ctx.recipient, ctx.mint, ctx.payer, destination);
    settle_holding_account_effect(l, ctx.recipient, ctx.mint, ctx.payer, destination, a);
    settle_holding_account_effect(l, ctx.recipient, ctx.mint, ctx.payer, destination, from);
    settle_holding_account_effect(l, ctx.recipient, ctx.mint, ctx.payer, destination, to);
    transfer_effect(l1, from, to, d, ONE_UNIT, a);
    transfer_effect(l1, from, to, d, ONE_UNIT, to);
    delegate_transfer_keeps_wf(l, ctx, issuer, delegate, destination);
    outstanding_is_supply(l, a);
    outstanding_is_supply(l1, a);
    balance_within_cap(l, from);
    balance_within_cap(n, to);
}

/// A wallet-authorized transfer is accepted exactly where its accounts are
/// validated and the source holds the unit; where they are validated and it
/// does not, the transfer fails for want of balance; where they are not,
/// with the error of the validation.
pub proof fn wallet_transfer_accepts_exactly(
    l: LedgerView,
    ctx: TokenTransferFromWallet,
    delegate: Option<Address>,
    destination: Option<Address>,
)
    requires
        l.wf(),
    ensures
        l.wallet_transfer_with(ctx, delegate, destination) is Ok <==> l.wallet_transfer_checked(
            ctx,
            delegate,
            destination,
        ) is Ok && l.balance(ctx.from_token_account) >= 1,
        l.wallet_transfer_checked(ctx, delegate, destination) matches Err(e)
            ==> l.wallet_transfer_with(ctx, delegate, destination) == Err::<LedgerView, Error>(e),
        l.wallet_transfer_checked(ctx, delegate, destination) is Ok && l.balance(
            ctx.from_token_account,
        ) < 1 ==> l.wallet_transfer_with(ctx, delegate, destination) == Err::<LedgerView, Error>(
            Error::InsufficientBalance,
        ),
{
    if l.wallet_transfer_checked(ctx, delegate, destination) is Ok {
        let d = delegate.unwrap();
        let from = ctx.from_token_account;
        let to = ctx.to_token_account;
        assert(l.settle_holding_account(d, ctx.mint, ctx.signer, destination) is Ok);
        settle_holding_account_effect(l, d, ctx.mint, ctx.signer, destination, from);
        settle_holding_account_effect(l, d, ctx.mint, ctx.signer, destination, to);
    }
}

/// A delegate-authorized transfer is accepted exactly where its accounts
/// are validated, the delegate authority was derived under the ledger's
/// program and the source holds the unit. Where the accounts are not
/// validated, it fails with the error of the validation; where the delegate
/// authority is another program's, as a binding violation; where the source
/// does not hold the unit, for want of balance.
pub proof fn delegate_transfer_accepts_exactly(
    l: LedgerView,
    ctx: TokenTransferFromPDA,
    issuer: Address,
    delegate: Option<Address>,
    destination: Option<Address>,
)
    requires
        l.wf(),
    ensures
        l.delegate_transfer_with(ctx, issuer, delegate, destination) is Ok
            <==> l.delegate_transfer_checked(ctx, delegate, destination) is Ok && issuer
            == l.modules.program && l.balance(ctx.from_token_account) >= 1,
        l.delegate_transfer_checked(ctx, delegate, destination) matches Err(e)
            ==> l.delegate_transfer_with(ctx, issuer, delegate, destination) == Err::<
            LedgerView,
            Error,
        >(e),
        l.delegate_transfer_checked(ctx, delegate, destination) is Ok && issuer
            != l.modules.program ==> l.delegate_transfer_with(ctx, issuer, delegate, destination)
            == Err::<LedgerView, Error>(Error::AuthorityBindingViolation),
        l.delegate_transfer_checked(ctx, delegate, destination) is Ok && issuer
            == l.modules.program && l.balance(ctx.from_token_account) < 1
            ==> l.delegate_transfer_with(ctx, issuer, delegate, destination) == Err::<
            LedgerView,
            Error,
        >(Error::InsufficientBalance),
{
    if l.delegate_transfer_checked(ctx, delegate, destination) is Ok {
        let from = ctx.from_token_account;
        let to = ctx.to_token_account;
        assert(l.settle_holding_account(ctx.recipient, ctx.mint, ctx.payer, destination) is Ok);
        settle_holding_account_effect(l, ctx.recipient, ctx.mint, ctx.payer, destination, from);
        settle_holding_account_effect(l, ctx.recipient, ctx.mint, ctx.payer, destination, to);
    }
}

/// Where the signer's holding account holds the unit and the accounts are
/// the expected ones, a wallet-authorized transfer succeeds: it leaves the
/// source empty and the unit in the delegate authority's holding account,
/// which it creates where absent.
pub proof fn wallet_transfer_reaches_the_delegate(
    l: LedgerView,
    ctx: TokenTransferFromWallet,
    delegate: Address,
    destination: Address,
)
    requires
        l.wf(),
        l.custody_modules_are(
            ctx.token_program,
            ctx.associated_token_program,
            ctx.system_program,
            ctx.rent,
        ),
        l.has_mint(ctx.mint),
        l.has_holding(ctx.from_token_account),
        l.holding(ctx.from_token_account).mint == ctx.mint,
        l.holding(ctx.from_token_account).owner == ctx.signer,
        l.balance(ctx.from_token_account) == 1,
        ctx.pda_account == delegate,
        ctx.to_token_account == destination,
        ctx.to_token_account != ctx.from_token_account,
        l.has_holding(ctx.to_token_account) ==> l.holding(ctx.to_token_account).mint == ctx.mint
            && l.holding(ctx.to_token_account).owner == delegate,
    ensures
        l.wallet_transfer_with(ctx, Some(delegate), Some(destination)) matches Ok(n) && n.wf()
            && n.balance(ctx.from_token_account) == 0 && n.balance(ctx.to_token_account) == 1
            && n.has_holding(ctx.to_token_account) && n.holding(ctx.to_token_account).owner
            == delegate && n.holding(ctx.to_token_account).mint == ctx.mint,
{
    wallet_transfer_accepts_exactly(l, ctx, Some(delegate), Some(destination));
    wallet_transfer_conserves(l, ctx, Some(delegate), Some(destination), ctx.mint);
    wallet_transfer_keeps_wf(l, ctx, Some(delegate), Some(destination));
}

/// Where the delegate authority's holding account holds the unit and the
/// accounts are the expected ones, a delegate-authorized transfer under the
/// ledger's program succeeds for any recipient, whoever pays: it leaves
/// the source empty and the unit in the recipient's holding account, which
/// it creates where absent.
pub proof fn delegate_transfer_reaches_the_recipient(
    l: LedgerView,
    ctx: TokenTransferFromPDA,
    delegate: Address,
    destination: Address,
)
    requires
        l.wf(),
        l.custody_modules_are(
            ctx.token_program,
            ctx.associated_token_program,
            ctx.system_program,
            ctx.rent,
        ),
        l.has_mint(ctx.mint),
        l.has_holding(ctx.from_token_account),
        l.holding(ctx.from_token_account).mint == ctx.mint,
        l.holding(ctx.from_token_account).owner == delegate,
        l.balance(ctx.from_token_account) == 1,
        ctx.pda_account == delegate,
        ctx.to_token_account == destination,
        ctx.to_token_account != ctx.from_token_account,
        l.has_holding(ctx.to_token_account) ==> l.holding(ctx.to_token_account).mint == ctx.mint
            && l.holding(ctx.to_token_account).owner == ctx.recipient,
    ensures
        l.delegate_transfer_with(ctx, l.modules.program, Some(delegate), Some(destination))
            matches Ok(n) && n.wf() && n.balance(ctx.from_token_account) == 0 && n.balance(
            ctx.to_token_account,
        ) == 1 && n.has_holding(ctx.to_token_account) && n.holding(ctx.to_token_account).owner
            == ctx.recipient && n.holding(ctx.to_token_account).mint == ctx.mint,
{
    let issuer = l.modules.program;
    delegate_transfer_accepts_exactly(l, ctx, issuer, Some(delegate), Some(destination));
    delegate_transfer_conserves(l, ctx, issuer, Some(delegate), Some(destination), ctx.mint);
    delegate_transfer_keeps_wf(l, ctx, issuer, Some(delegate), Some(destination));
}

/// A wallet-authorized transfer whose source holding account is not the
/// signer's is refused as a binding violation, whatever the derivation gave;
/// so is one whose destination holding account is not the delegate
/// authority's, wherever the delegate authority is derived.
pub proof fn wallet_transfer_rejects_foreign_owner(
    l: LedgerView,
    ctx: TokenTransferFromWallet,
    delegate: Option<Address>,
    destination: Option<Address>,
)
    requires
        ({
            ||| l.has_holding(ctx.from_token_account) && l.holding(ctx.from_token_account).owner
                != ctx.signer
            ||| delegate matches Some(d) && l.has_holding(ctx.to_token_account) && l.holding(
                ctx.to_token_account,
            ).owner != d
        }),
    ensures
        l.wallet_transfer_checked(ctx, delegate, destination) == Err::<Address, Error>(
            Error::AuthorityBindingViolation,
        ),
        l.wallet_transfer_with(ctx, delegate, destination) == Err::<LedgerView, Error>(
            Error::AuthorityBindingViolation,
        ),
{
}

/// A delegate-authorized transfer whose destination holding account is not
/// the recipient's is refused as a binding violation, whatever the
/// derivation gave; so is one whose source holding account is not the
/// delegate authority's, wherever the delegate authority is derived.
pub proof fn delegate_transfer_rejects_foreign_owner(
    l: LedgerView,
    ctx: TokenTransferFromPDA,
    issuer: Address,
    delegate: Option<Address>,
    destination: Option<Address>,
)
    requires
        ({
            ||| l.has_holding(ctx.to_token_account) && l.holding(ctx.to_token_account).owner
                != ctx.recipient
            ||| delegate matches Some(d) && l.has_holding(ctx.from_token_account) && l.holding(
                ctx.from_token_account,
            ).owner != d
        }),
    ensures
        l.delegate_transfer_checked(ctx, delegate, destination) == Err::<Address, Error>(
            Error::AuthorityBindingViolation,
        ),
        l.delegate_transfer_with(ctx, issuer, delegate, destination) == Err::<LedgerView, Error>(
            Error::AuthorityBindingViolation,
        ),
{
}

/// A transfer whose holding account on either leg is bound to another asset
/// than the one named is refused as a binding violation, on the same
/// conditions as one whose holding account has another owner.
pub proof fn transfers_reject_foreign_asset(
    l: LedgerView,
    from_wallet: TokenTransferFromWallet,
    from_delegate: TokenTransferFromPDA,
    issuer: Address,
    delegate: Option<Address>,
    destination: Option<Address>,
)
    ensures
        l.has_holding(from_wallet.from_token_account) && l.holding(
            from_wallet.from_token_account,
        ).mint != from_wallet.mint ==> l.wallet_transfer_with(from_wallet, delegate, destination)
            == Err::<LedgerView, Error>(Error::AuthorityBindingViolation),
        delegate is Some && l.has_holding(from_wallet.to_token_account) && l.holding(
            from_wallet.to_token_account,
        ).mint != from_wallet.mint ==> l.wallet_transfer_with(from_wallet, delegate, destination)
            == Err::<LedgerView, Error>(Error::AuthorityBindingViolation),
        l.has_holding(from_delegate.to_token_account) && l.holding(
            from_delegate.to_token_account,
        ).mint != from_delegate.mint ==> l.delegate_transfer_with(
            from_delegate,
            issuer,
            delegate,
            destination,
        ) == Err::<LedgerView, Error>(Error::AuthorityBindingViolation),
        delegate is Some && l.has_holding(from_delegate.from_token_account) && l.holding(
            from_delegate.from_token_account,
        ).mint != from_delegate.mint ==> l.delegate_transfer_with(
            from_delegate,
            issuer,
            delegate,
            destination,
        ) == Err::<LedgerView, Error>(Error::AuthorityBindingViolation),
{
}

/// Whether nothing stands in the way of the steps of an issuance: the asset
/// identity is fresh, the places of its two records are free, and the
/// registry takes the texts.
pub open spec fn issuance_unhindered(l: LedgerView, ctx: CreateNFT, d: Description) -> bool {
    &&& !l.has_mint(ctx.mint)
    &&& !l.has_metadata(ctx.metadata_account)
    &&& !l.has_edition(ctx.master_edition_account)
    &&& l.within_limits(d)
}

/// The error of an issuance on validated accounts: an asset identity that
/// is recorded already is not overwritten, and a registry that refuses the
/// metadata or the edition refuses the issuance.
pub open spec fn issuance_hindrance(l: LedgerView, ctx: CreateNFT, d: Description) -> Error {
    if l.has_mint(ctx.mint) {
        Error::AlreadyInitializedMismatched
    } else {
        Error::ExternalModuleRejection
    }
}

/// What a successful issuance leaves behind: the asset identity with the
/// signer as its authorities and a supply of one, the one unit in the
/// signer's holding account, the metadata with the given texts and fee and
/// the signer as update authority, closed to change, and the edition of one.
pub open spec fn issued(n: LedgerView, ctx: CreateNFT, d: Description) -> bool {
    &&& n.has_mint(ctx.mint)
    &&& n.mint(ctx.mint).authority == ctx.signer
    &&& n.mint(ctx.mint).freeze_authority == ctx.signer
    &&& n.mint(ctx.mint).decimals == 0
    &&& n.supply(ctx.mint) == 1
    &&& n.outstanding(ctx.mint) == 1
    &&& n.has_holding(ctx.associated_token_account)
    &&& n.holding(ctx.associated_token_account).owner == ctx.signer
    &&& n.holding(ctx.associated_token_account).mint == ctx.mint
    &&& n.balance(ctx.associated_token_account) == 1
    &&& n.has_metadata(ctx.metadata_account)
    &&& n.metadata_at(ctx.metadata_account) == (MetadataView {
        address: ctx.metadata_account,
        mint: ctx.mint,
        update_authority: ctx.signer,
        name: d.name,
        symbol: d.symbol,
        uri: d.uri,
        seller_fee_basis_points: d.seller_fee_basis_points,
        is_mutable: ISSUED_MUTABLE,
    })
    &&& n.has_edition(ctx.master_edition_account)
    &&& n.edition_at(ctx.master_edition_account) == (EditionRecord {
        address: ctx.master_edition_account,
        mint: ctx.mint,
        metadata: ctx.metadata_account,
        max_supply: EDITION_MAX_SUPPLY,
    })
}

/// An issuance is accepted exactly where its accounts are validated and
/// nothing stands in the way of its steps, and then leaves the asset issued.
/// Where the validation fails, its error is the result; where a step is
/// refused, the error of that step.
pub proof fn issuance_accepts_exactly(
    l: LedgerView,
    ctx: CreateNFT,
    d: Description,
    targets: IssuanceTargets,
)
    requires
        l.wf(),
    ensures
        l.issuance_with(ctx, d, targets) is Ok <==> l.issuance_checked(ctx, targets) is Ok
            && issuance_unhindered(l, ctx, d),
        l.issuance_with(ctx, d, targets) matches Ok(n) ==> n.wf() && issued(n, ctx, d),
        l.issuance_checked(ctx, targets) matches Err(e) ==> l.issuance_with(ctx, d, targets)
            == Err::<LedgerView, Error>(e),
        l.issuance_checked(ctx, targets) is Ok && !issuance_unhindered(l, ctx, d)
            ==> l.issuance_with(ctx, d, targets) == Err::<LedgerView, Error>(
            issuance_hindrance(l, ctx, d),
        ),
{
    if l.issuance_checked(ctx, targets) is Ok && !l.has_mint(ctx.mint) {
        let ata = ctx.associated_token_account;
        let l1 = l.create_mint(ctx.mint, ctx.signer, ctx.signer).unwrap();
        create_mint_keeps_wf(l, ctx.mint, ctx.signer, ctx.signer);
        create_mint_effect(l, ctx.mint, ctx.signer, ctx.signer, ctx.mint);
        assert(!l.has_holding(ata)) by {
            if l.has_holding(ata) {
                let i = l.holding_slot(ata);
                assert(l.has_mint(l.holdings[i].mint));
            }
        }
        assert(l1.settle_holding_account(ctx.signer, ctx.mint, ctx.signer, targets.holding) is Ok);
        let l2 = l1.settle_holding_account(
            ctx.signer,
            ctx.mint,
            ctx.signer,
            targets.holding,
        ).unwrap();
        settle_holding_account_keeps_wf(l1, ctx.signer, ctx.mint, ctx.signer, targets.holding);
        settle_holding_account_effect(l1, ctx.signer, ctx.mint, ctx.signer, targets.holding, ata);
        assert(l2.mint(ctx.mint) == l1.mint(ctx.mint));
        assert(l2.mint_to(ctx.mint, ata, ctx.signer, ONE_UNIT) is Ok);
        let l3 = l2.mint_to(ctx.mint, ata, ctx.signer, ONE_UNIT).unwrap();
        mint_to_keeps_wf(l2, ctx.mint, ata, ctx.signer, ONE_UNIT);
        mint_to_effect(l2, ctx.mint, ata, ctx.signer, ONE_UNIT, ata);
        mint_to_effect(l2, ctx.mint, ata, ctx.signer, ONE_UNIT, ctx.mint);
        assert(l3.metadata == l.metadata);
        assert(l3.editions == l.editions);
        assert(l3.has_metadata(ctx.metadata_account) == l.has_metadata(ctx.metadata_account));
        assert(l3.within_limits(d) == l.within_limits(d));
        let step4 = l3.record_metadata(
            ctx.metadata_account,
            ctx.mint,
            ctx.signer,
            ctx.signer,
            d,
            ISSUED_MUTABLE,
            targets.metadata,
        );
        if !l.has_metadata(ctx.metadata_account) && l.within_limits(d) {
            assert(step4 is Ok);
            let l4 = step4.unwrap();
            record_metadata_keeps_wf(
                l3,
                ctx.metadata_account,
                ctx.mint,
                ctx.signer,
                ctx.signer,
                d,
                ISSUED_MUTABLE,
                targets.metadata,
            );
            let record = MetadataView {
                address: ctx.metadata_account,
                mint: ctx.mint,
                update_authority: ctx.signer,
                name: d.name,
                symbol: d.symbol,
                uri: d.uri,
                seller_fee_basis_points: d.seller_fee_basis_points,
                is_mutable: ISSUED_MUTABLE,
            };
            metadata_pushed(l3, l4, record, ctx.metadata_account);
            assert(l4.mints == l3.mints);
            assert(l4.holdings == l3.holdings);
            assert(l4.has_edition(ctx.master_edition_account) == l.has_edition(
                ctx.master_edition_account,
            ));
            let step5 = l4.record_edition(
                ctx.master_edition_account,
                ctx.mint,
                ctx.signer,
                ctx.signer,
                ctx.metadata_account,
                EDITION_MAX_SUPPLY,
                targets.edition,
            );
            if !l.has_edition(ctx.master_edition_account) {
                assert(step5 is Ok);
                let n = step5.unwrap();
                record_edition_keeps_wf(
                    l4,
                    ctx.master_edition_account,
                    ctx.mint,
                    ctx.signer,
                    ctx.signer,
                    ctx.metadata_account,
                    EDITION_MAX_SUPPLY,
                    targets.edition,
                );
                let seal = EditionRecord {
                    address: ctx.master_edition_account,
                    mint: ctx.mint,
                    metadata: ctx.metadata_account,
                    max_supply: EDITION_MAX_SUPPLY,
                };
                edition_pushed(l4, n, seal, ctx.master_edition_account);
                assert(n.mints == l3.mints);
                assert(n.holdings == l3.holdings);
                assert(n.metadata == l4.metadata);
                outstanding_is_supply(n, ctx.mint);
                assert(issued(n, ctx, d));
            } else {
                assert(step5 == Err::<LedgerView, Error>(Error::ExternalModuleRejection));
            }
        } else {
            assert(step4 == Err::<LedgerView, Error>(Error::ExternalModuleRejection));
        }
    }
}

/// The asset identity of every issuance is fresh: an issuance is accepted
/// only for an identity that the ledger does not record yet, and once it is
/// accepted, no issuance of the same identity is accepted again, whoever
/// asks and whatever the other accounts and the texts are.
pub proof fn issuance_is_unique(
    l: LedgerView,
    ctx: CreateNFT,
    d: Description,
    targets: IssuanceTargets,
    again: CreateNFT,
    d_again: Description,
    targets_again: IssuanceTargets,
)
    requires
        l.wf(),
        l.issuance_with(ctx, d, targets) is Ok,
        again.mint == ctx.mint,
    ensures
        !l.has_mint(ctx.mint),
        l.issuance_with(ctx, d, targets).unwrap().has_mint(ctx.mint),
        l.issuance_with(ctx, d, targets).unwrap().issuance_with(again, d_again, targets_again)
            is Err,
        l.issuance_with(ctx, d, targets).unwrap().issuance_checked(again, targets_again) is Ok
            ==> l.issuance_with(ctx, d, targets).unwrap().issuance_with(
            again,
            d_again,
            targets_again,
        ) == Err::<LedgerView, Error>(Error::AlreadyInitializedMismatched),
{
    issuance_accepts_exactly(l, ctx, d, targets);
    let n = l.issuance_with(ctx, d, targets).unwrap();
    issuance_accepts_exactly(n, again, d_again, targets_again);
}

/// An issuance whose registry step is refused after the unit was issued is
/// refused as a whole, with the registry's error; the asset identity was
/// not recorded before.
pub proof fn issuance_is_atomic(
    l: LedgerView,
    ctx: CreateNFT,
    d: Description,
    targets: IssuanceTargets,
)
    requires
        l.wf(),
        l.issuance_checked(ctx, targets) is Ok,
        l.create_mint(ctx.mint, ctx.signer, ctx.signer) matches Ok(l1)
            && l1.settle_holding_account(ctx.signer, ctx.mint, ctx.signer, targets.holding)
            matches Ok(l2) && l2.mint_to(
            ctx.mint,
            ctx.associated_token_account,
            ctx.signer,
            ONE_UNIT,
        ) matches Ok(l3) && ({
            ||| l3.record_metadata(
                ctx.metadata_account,
                ctx.mint,
                ctx.signer,
                ctx.signer,
                d,
                ISSUED_MUTABLE,
                targets.metadata,
            ) is Err
            ||| l3.record_metadata(
                ctx.metadata_account,
                ctx.mint,
                ctx.signer,
                ctx.signer,
                d,
                ISSUED_MUTABLE,
                targets.metadata,
            ) matches Ok(l4) && l4.record_edition(
                ctx.master_edition_account,
                ctx.mint,
                ctx.signer,
                ctx.signer,
                ctx.metadata_account,
                EDITION_MAX_SUPPLY,
                targets.edition,
            ) is Err
        }),
    ensures
        l.issuance_with(ctx, d, targets) == Err::<LedgerView, Error>(
            Error::ExternalModuleRejection,
        ),
        !issuance_unhindered(l, ctx, d),
        !l.has_mint(ctx.mint),
{
    issuance_accepts_exactly(l, ctx, d, targets);
}

} // verus!
