use crate::accounts::{
    CreateNFT, HoldingStatus, IssuanceTargets, TokenTransferFromPDA, TokenTransferFromWallet,
};
use crate::address::Address;
use crate::capability::{signs_as, SigningCapability};
use crate::derivation::{delegate_authority, edition_address, holding_address, metadata_address};
use crate::error::Error;
use crate::ledger::Ledger;
use crate::operations::settles;
use vstd::prelude::*;

verus! {

/// Whether a recomputed address is there and is the supplied one.
pub fn is_address(expected: &Option<Address>, supplied: &Address) -> (r: bool)
    ensures
        r == (*expected == Some(*supplied)),
{
    match expected {
        Some(a) => a.same(supplied),
        None => false,
    }
}

impl Ledger {
    /// How the holding account at `a` stands to the expected asset and
    /// holder: absent, matching or mismatched.
    pub fn holding_status(&self, a: &Address, mint: &Address, owner: &Address) -> (r: HoldingStatus)
        requires
            self.wf(),
        ensures
            r == self@.holding_status(*a, *mint, *owner),
    {
        match self.holding_account(a) {
            None => HoldingStatus::Absent,
            Some(h) => if h.mint.same(mint) && h.owner.same(owner) {
                HoldingStatus::Matching
            } else {
                HoldingStatus::Mismatched
            },
        }
    }

    /// Whether the custody-side modules that an operation names are those of
    /// the ledger.
    pub fn custody_modules_are(
        &self,
        token_program: &Address,
        associated_token_program: &Address,
        system_program: &Address,
        rent: &Address,
    ) -> (r: bool)
        ensures
            r == self@.custody_modules_are(
                *token_program,
                *associated_token_program,
                *system_program,
                *rent,
            ),
    {
        let m = self.modules();
        token_program.same(&m.token_program) && associated_token_program.same(
            &m.associated_token_program,
        ) && system_program.same(&m.system_program) && rent.same(&m.rent)
    }

    /// Moves `amount` units on the word of a signing capability, which the
    /// call takes away. A capability made under another program than the
    /// ledger's is refused.
    pub fn transfer_signed(
        &mut self,
        source: &Address,
        destination: &Address,
        capability: SigningCapability,
        amount: u64,
    ) -> (r: Result<(), Error>)
        requires
            old(self).wf(),
        ensures
            final(self).wf(),
            settles(
                old(self)@,
                final(self)@,
                old(self)@.transfer_signed(
                    *source,
                    *destination,
                    capability.program(),
                    capability.authority(),
                    amount,
                ),
                r,
            ),
    {
        if !capability.issuer().same(&self.modules().program) {
            return Err(Error::AuthorityBindingViolation);
        }
        let authority = capability.signer();
        self.transfer(source, destination, &authority, amount)
    }
}

/// Holds the accounts of an issuance against the ledger and against the
/// addresses that the derivation gave.
pub fn check_issuance(ledger: &Ledger, ctx: &CreateNFT, targets: &IssuanceTargets) -> (r: Result<
    (),
    Error,
>)
    requires
        ledger.wf(),
    ensures
        r == ledger@.issuance_checked(*ctx, *targets),
{
    if !ledger.custody_modules_are(
        &ctx.token_program,
        &ctx.associated_token_program,
        &ctx.system_program,
        &ctx.rent,
    ) || !ctx.token_metadata_program.same(&ledger.modules().token_metadata_program) {
        return Err(Error::AuthorityBindingViolation);
    }
    match ledger.holding_status(&ctx.associated_token_account, &ctx.mint, &ctx.signer) {
        HoldingStatus::Mismatched => {
            return Err(Error::AuthorityBindingViolation);
        },
        _ => {},
    }
    if targets.holding.is_none() || targets.metadata.is_none() || targets.edition.is_none() {
        return Err(Error::DerivationFailed);
    }
    if !is_address(&targets.holding, &ctx.associated_token_account) || !is_address(
        &targets.metadata,
        &ctx.metadata_account,
    ) || !is_address(&targets.edition, &ctx.master_edition_account) {
        return Err(Error::AuthorityBindingViolation);
    }
    Ok(())
}

/// Derives the addresses of an issuance: the signer's canonical holding
/// account and the two records of the asset.
pub fn derive_issuance_targets(ledger: &Ledger, ctx: &CreateNFT) -> (t: IssuanceTargets)
    ensures
        t == ledger@.issuance_targets(*ctx),
{
    let m = ledger.modules();
    IssuanceTargets {
        holding: holding_address(
            &ctx.signer,
            &ctx.mint,
            &m.token_program,
            &m.associated_token_program,
        ),
        metadata: metadata_address(&m.token_metadata_program, &ctx.mint),
        edition: edition_address(&m.token_metadata_program, &ctx.mint),
    }
}

/// Validates the accounts of an issuance: recomputes the canonical holding
/// account and the addresses of the two records, and holds every supplied
/// account against what the operation expects.
pub fn validate_issuance(ledger: &Ledger, ctx: &CreateNFT) -> (r: Result<(), Error>)
    requires
        ledger.wf(),
    ensures
        r == ledger@.issuance_bindings(*ctx),
{
    let targets = derive_issuance_targets(ledger, ctx);
    check_issuance(ledger, ctx, &targets)
}

/// Holds the accounts of a wallet-authorized transfer against the ledger and
/// against the addresses that the derivation gave, and gives the delegate
/// authority.
pub fn check_wallet_transfer(
    ledger: &Ledger,
    ctx: &TokenTransferFromWallet,
    delegate: Option<Address>,
    destination: Option<Address>,
) -> (r: Result<Address, Error>)
    requires
        ledger.wf(),
    ensures
        r == ledger@.wallet_transfer_checked(*ctx, delegate, destination),
{
    if !ledger.custody_modules_are(
        &ctx.token_program,
        &ctx.associated_token_program,
        &ctx.system_program,
        &ctx.rent,
    ) || ledger.mint_account(&ctx.mint).is_none() {
        return Err(Error::AuthorityBindingViolation);
    }
    match ledger.holding_status(&ctx.from_token_account, &ctx.mint, &ctx.signer) {
        HoldingStatus::Matching => {},
        _ => {
            return Err(Error::AuthorityBindingViolation);
        },
    }
    let d = match delegate {
        Some(d) => d,
        None => {
            return Err(Error::DerivationFailed);
        },
    };
    if !ctx.pda_account.same(&d) {
        return Err(Error::AuthorityBindingViolation);
    }
    match ledger.holding_status(&ctx.to_token_account, &ctx.mint, &d) {
        HoldingStatus::Mismatched => {
            return Err(Error::AuthorityBindingViolation);
        },
        _ => {},
    }
    if destination.is_none() {
        return Err(Error::DerivationFailed);
    }
    if !is_address(&destination, &ctx.to_token_account) {
        return Err(Error::AuthorityBindingViolation);
    }
    Ok(d)
}

/// Derives the delegate authority of the ledger's program.
pub fn derive_delegate(ledger: &Ledger) -> (d: Option<Address>)
    ensures
        d == ledger@.delegate(),
{
    match delegate_authority(&ledger.modules().program) {
        Some((d, _)) => Some(d),
        None => None,
    }
}

/// Derives the canonical holding account of a holder for an asset, where
/// the holder is known.
pub fn derive_holding(
    ledger: &Ledger,
    owner: Option<Address>,
    mint: &Address,
) -> (a: Option<Address>)
    ensures
        a == match owner {
            Some(o) => ledger@.canonical_holding(o, *mint),
            None => None,
        },
{
    let m = ledger.modules();
    match owner {
        Some(o) => holding_address(&o, mint, &m.token_program, &m.associated_token_program),
        None => None,
    }
}

/// Validates the accounts of a wallet-authorized transfer and gives the
/// delegate authority, derived anew.
pub fn validate_wallet_transfer(
    ledger: &Ledger,
    ctx: &TokenTransferFromWallet,
) -> (r: Result<Address, Error>)
    requires
        ledger.wf(),
    ensures
        r == ledger@.wallet_transfer_bindings(*ctx),
{
    let delegate = derive_delegate(ledger);
    let destination = derive_holding(ledger, delegate, &ctx.mint);
    check_wallet_transfer(ledger, ctx, delegate, destination)
}

/// Holds the accounts of a delegate-authorized transfer against the ledger,
/// against the capability to sign as the delegate authority and against the
/// derived address of the recipient's holding account, and hands the
/// capability back where nothing is to object to.
pub fn check_delegate_transfer(
    ledger: &Ledger,
    ctx: &TokenTransferFromPDA,
    capability: Option<SigningCapability>,
    destination: Option<Address>,
) -> (r: Result<SigningCapability, Error>)
    requires
        ledger.wf(),
    ensures
        match ledger@.delegate_transfer_checked(*ctx, signs_as(capability), destination) {
            Ok(_) => r == Ok::<SigningCapability, Error>(capability.unwrap()),
            Err(e) => r matches Err(x) && x == e,
        },
{
    if !ledger.custody_modules_are(
        &ctx.token_program,
        &ctx.associated_token_program,
        &ctx.system_program,
        &ctx.rent,
    ) || ledger.mint_account(&ctx.mint).is_none() {
        return Err(Error::AuthorityBindingViolation);
    }
    match ledger.holding_status(&ctx.to_token_account, &ctx.mint, &ctx.recipient) {
        HoldingStatus::Mismatched => {
            return Err(Error::AuthorityBindingViolation);
        },
        _ => {},
    }
    let capability = match capability {
        Some(c) => c,
        None => {
            return Err(Error::DerivationFailed);
        },
    };
    let delegate = capability.signer();
    if !ctx.pda_account.same(&delegate) {
        return Err(Error::AuthorityBindingViolation);
    }
    match ledger.holding_status(&ctx.from_token_account, &ctx.mint, &delegate) {
        HoldingStatus::Matching => {},
        _ => {
            return Err(Error::AuthorityBindingViolation);
        },
    }
    if destination.is_none() {
        return Err(Error::DerivationFailed);
    }
    if !is_address(&destination, &ctx.to_token_account) {
        return Err(Error::AuthorityBindingViolation);
    }
    Ok(capability)
}

/// Validates the accounts of a delegate-authorized transfer and gives the
/// capability to sign as the delegate authority, derived anew under the
/// ledger's program.
pub fn validate_delegate_transfer(ledger: &Ledger, ctx: &TokenTransferFromPDA) -> (r: Result<
    SigningCapability,
    Error,
>)
    requires
        ledger.wf(),
    ensures
        match ledger@.delegate_transfer_bindings(*ctx) {
            Ok(delegate) => r is Ok && r.unwrap().authority() == delegate && r.unwrap().program()
                == ledger@.modules.program,
            Err(e) => r matches Err(x) && x == e,
        },
{
    let capability = SigningCapability::synthesize(&ledger.modules().program);
    let destination = derive_holding(ledger, Some(ctx.recipient), &ctx.mint);
    check_delegate_transfer(ledger, ctx, capability, destination)
}

} // verus!
