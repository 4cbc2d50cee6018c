use crate::accounts::{CreateNFT, IssuanceTargets, TokenTransferFromPDA, TokenTransferFromWallet};
use crate::address::Address;
use crate::capability::{signs_as, SigningCapability};
use crate::error::Error;
use crate::ledger::Ledger;
use crate::operations::settles;
use crate::outcomes::{
    issued_description, EDITION_MAX_SUPPLY, ISSUED_FEE, ISSUED_MUTABLE, ONE_UNIT,
};
use crate::records::AssetData;
use crate::validator::{
    check_delegate_transfer, check_issuance, check_wallet_transfer, derive_delegate,
    derive_holding, derive_issuance_targets,
};
use vstd::prelude::*;

verus! {

/// Issues a new asset on the addresses that the derivation gave: validates
/// the accounts against them, records the asset identity with the signer as
/// mint and freeze authority, issues its one unit into the signer's holding
/// account, registers its metadata and seals it with its edition. Where
/// any step is refused the ledger stays as it was.
pub fn create_nft_with(
    ledger: &mut Ledger,
    ctx: &CreateNFT,
    name: String,
    symbol: String,
    uri: String,
    targets: &IssuanceTargets,
) -> (r: Result<(), Error>)
    requires
        old(ledger).wf(),
    ensures
        final(ledger).wf(),
        settles(
            old(ledger)@,
            final(ledger)@,
            old(ledger)@.issuance_with(*ctx, issued_description(name@, symbol@, uri@), *targets),
            r,
        ),
{
    match check_issuance(ledger, ctx, targets) {
        Err(e) => {
            return Err(e);
        },
        Ok(_) => {},
    }
    let mut draft = ledger.snapshot();
    match draft.create_mint(&ctx.mint, &ctx.signer, &ctx.signer) {
        Err(e) => {
            return Err(e);
        },
        Ok(_) => {},
    }
    match draft.settle_holding_account(&ctx.signer, &ctx.mint, &ctx.signer, targets.holding) {
        Err(e) => {
            return Err(e);
        },
        Ok(_) => {},
    }
    match draft.mint_to(&ctx.mint, &ctx.associated_token_account, &ctx.signer, ONE_UNIT) {
        Err(e) => {
            return Err(e);
        },
        Ok(_) => {},
    }
    let data = AssetData { name, symbol, uri, seller_fee_basis_points: ISSUED_FEE };
    match draft.record_metadata(
        &ctx.metadata_account,
        &ctx.mint,
        &ctx.signer,
        &ctx.signer,
        data,
        ISSUED_MUTABLE,
        targets.metadata,
    ) {
        Err(e) => {
            return Err(e);
        },
        Ok(_) => {},
    }
    match draft.record_edition(
        &ctx.master_edition_account,
        &ctx.mint,
        &ctx.signer,
        &ctx.signer,
        &ctx.metadata_account,
        EDITION_MAX_SUPPLY,
        targets.edition,
    ) {
        Err(e) => {
            return Err(e);
        },
        Ok(_) => {},
    }
    *ledger = draft;
    Ok(())
}

/// Issues a new asset: derives the addresses of the signer's holding
/// account and of the two records, validates the accounts against them,
/// records the asset identity with the signer as mint and freeze authority,
/// issues its one unit into the signer's holding account, registers its
/// metadata and seals it with its edition. Where any step is refused the
/// ledger stays as it was.
pub fn create_nft(
    ledger: &mut Ledger,
    ctx: &CreateNFT,
    name: String,
    symbol: String,
    uri: String,
) -> (r: Result<(), Error>)
    requires
        old(ledger).wf(),
    ensures
        final(ledger).wf(),
        settles(
            old(ledger)@,
            final(ledger)@,
            old(ledger)@.issuance(*ctx, issued_description(name@, symbol@, uri@)),
            r,
        ),
{
    let targets = derive_issuance_targets(ledger, ctx);
    create_nft_with(ledger, ctx, name, symbol, uri, &targets)
}

/// Moves the unit of an asset out of a holding account of the signing
/// wallet into the delegate authority's holding account, on the addresses
/// that the derivation gave for the two. The holding account is created
/// where absent. Where any step is refused the ledger stays as it was.
pub fn transfer_nft_from_wallet_with(
    ledger: &mut Ledger,
    ctx: &TokenTransferFromWallet,
    delegate: Option<Address>,
    destination: Option<Address>,
) -> (r: Result<(), Error>)
    requires
        old(ledger).wf(),
    ensures
        final(ledger).wf(),
        settles(
            old(ledger)@,
            final(ledger)@,
            old(ledger)@.wallet_transfer_with(*ctx, delegate, destination),
            r,
        ),
{
    let d = match check_wallet_transfer(ledger, ctx, delegate, destination) {
        Err(e) => {
            return Err(e);
        },
        Ok(d) => d,
    };
    let mut draft = ledger.snapshot();
    match draft.settle_holding_account(&d, &ctx.mint, &ctx.signer, destination) {
        Err(e) => {
            return Err(e);
        },
        Ok(_) => {},
    }
    match draft.transfer(&ctx.from_token_account, &ctx.to_token_account, &ctx.signer, ONE_UNIT) {
        Err(e) => {
            return Err(e);
        },
        Ok(_) => {},
    }
    *ledger = draft;
    Ok(())
}

/// Moves the unit of an asset out of a holding account of the signing
/// wallet into the delegate authority's holding account, which is created
/// where absent. Where any step is refused the ledger stays as it was.
pub fn transfer_nft_from_wallet(
    ledger: &mut Ledger,
    ctx: &TokenTransferFromWallet,
) -> (r: Result<(), Error>)
    requires
        old(ledger).wf(),
    ensures
        final(ledger).wf(),
        settles(old(ledger)@, final(ledger)@, old(ledger)@.wallet_transfer(*ctx), r),
{
    let delegate = derive_delegate(ledger);
    let destination = derive_holding(ledger, delegate, &ctx.mint);
    transfer_nft_from_wallet_with(ledger, ctx, delegate, destination)
}

/// Moves the unit of an asset out of a holding account of the delegate
/// authority into the holding account of the recipient that the payer chose,
/// on the capability to sign as the delegate authority and on the address
/// that the derivation gave for the recipient's holding account. The holding
/// account is created where absent; the capability is spent on the one
/// move. Where any step is refused the ledger stays as it was.
pub fn transfer_nft_from_pda_with(
    ledger: &mut Ledger,
    ctx: &TokenTransferFromPDA,
    capability: Option<SigningCapability>,
    destination: Option<Address>,
) -> (r: Result<(), Error>)
    requires
        old(ledger).wf(),
    ensures
        final(ledger).wf(),
        settles(
            old(ledger)@,
            final(ledger)@,
            old(ledger)@.delegate_transfer_with(
                *ctx,
                match capability {
                    Some(c) => c.program(),
                    None => old(ledger)@.modules.program,
                },
                signs_as(capability),
                destination,
            ),
            r,
        ),
{
    let capability = match check_delegate_transfer(ledger, ctx, capability, destination) {
        Err(e) => {
            return Err(e);
        },
        Ok(c) => c,
    };
    let mut draft = ledger.snapshot();
    match draft.settle_holding_account(&ctx.recipient, &ctx.mint, &ctx.payer, destination) {
        Err(e) => {
            return Err(e);
        },
        Ok(_) => {},
    }
    match draft.transfer_signed(
        &ctx.from_token_account,
        &ctx.to_token_account,
        capability,
        ONE_UNIT,
    ) {
        Err(e) => {
            return Err(e);
        },
        Ok(_) => {},
    }
    *ledger = draft;
    Ok(())
}

/// Moves the unit of an asset out of a holding account of the delegate
/// authority into the holding account of the recipient that the payer chose,
/// which is created where absent. No key signs for the source: the delegate
/// authority is derived anew and the seeds of that derivation authorize the
/// one move. Where any step is refused the ledger stays as it was.
pub fn transfer_nft_from_pda(
    ledger: &mut Ledger,
    ctx: &TokenTransferFromPDA,
) -> (r: Result<(), Error>)
    requires
        old(ledger).wf(),
    ensures
        final(ledger).wf(),
        settles(old(ledger)@, final(ledger)@, old(ledger)@.delegate_transfer(*ctx), r),
{
    let capability = SigningCapability::synthesize(&ledger.modules().program);
    let destination = derive_holding(ledger, Some(ctx.recipient), &ctx.mint);
    transfer_nft_from_pda_with(ledger, ctx, capability, destination)
}

} // verus!
