use crate::address::Address;
use crate::derivation::delegate_of;
use crate::error::Error;
use crate::model::LedgerView;
use vstd::prelude::*;

verus! {

/// The accounts of an issuance: the wallet that signs, pays and will hold
/// the asset, the fresh asset identity, the wallet's holding account for it,
/// the two registry records, and the modules called.
#[derive(Clone, Copy, Debug, PartialEq, Eq)]
pub struct CreateNFT {
    pub signer: Address,
    pub mint: Address,
    pub associated_token_account: Address,
    pub metadata_account: Address,
    pub master_edition_account: Address,
    pub token_program: Address,
    pub associated_token_program: Address,
    pub token_metadata_program: Address,
    pub system_program: Address,
    pub rent: Address,
}

/// The accounts of a transfer that a wallet authorizes: out of a holding
/// account of the signer, into the delegate authority's holding account.
#[derive(Clone, Copy, Debug, PartialEq, Eq)]
pub struct TokenTransferFromWallet {
    pub pda_account: Address,
    pub from_token_account: Address,
    pub to_token_account: Address,
    pub mint: Address,
    pub signer: Address,
    pub token_program: Address,
    pub associated_token_program: Address,
    pub system_program: Address,
    pub rent: Address,
}

/// The accounts of a transfer that the delegate authority authorizes: out of
/// a holding account of the delegate, into the holding account of the
/// recipient that the payer chose. The payer signs and pays; the recipient
/// may be the payer or anyone else.
#[derive(Clone, Copy, Debug, PartialEq, Eq)]
pub struct TokenTransferFromPDA {
    pub pda_account: Address,
    pub from_token_account: Address,
    pub to_token_account: Address,
    pub mint: Address,
    pub payer: Address,
    pub recipient: Address,
    pub token_program: Address,
    pub associated_token_program: Address,
    pub system_program: Address,
    pub rent: Address,
}

/// The addresses that the derivation gave for an issuance: the signer's
/// canonical holding account and the two records of the asset. `None` stands
/// for a derivation that gave no address.
#[derive(Clone, Copy, Debug, PartialEq, Eq)]
pub struct IssuanceTargets {
    pub holding: Option<Address>,
    pub metadata: Option<Address>,
    pub edition: Option<Address>,
}

/// How a holding account stands to the asset and the holder that an
/// operation expects of it.
#[derive(Clone, Copy, Debug, PartialEq, Eq, Structural)]
pub enum HoldingStatus {
    /// No holding account exists at the address.
    Absent,
    /// One exists, bound to the expected asset and holder.
    Matching,
    /// One exists, bound to another asset or another holder.
    Mismatched,
}

impl LedgerView {
    /// How the holding account at `a` stands to the expected asset and holder.
    pub open spec fn holding_status(
        self,
        a: Address,
        mint: Address,
        owner: Address,
    ) -> HoldingStatus {
        if !self.has_holding(a) {
            HoldingStatus::Absent
        } else if self.holding(a).mint == mint && self.holding(a).owner == owner {
            HoldingStatus::Matching
        } else {
            HoldingStatus::Mismatched
        }
    }

    /// Whether the custody-side modules that an operation names are those of
    /// the ledger.
    pub open spec fn custody_modules_are(
        self,
        token_program: Address,
        associated_token_program: Address,
        system_program: Address,
        rent: Address,
    ) -> bool {
        &&& token_program == self.modules.token_program
        &&& associated_token_program == self.modules.associated_token_program
        &&& system_program == self.modules.system_program
        &&& rent == self.modules.rent
    }

    /// Whether the accounts of an issuance that need no derivation are the
    /// ones that the operation expects: the modules are the ledger's, and
    /// the holding account, where it exists, is bound to the asset and the
    /// signer.
    pub open spec fn issuance_bound_as_given(self, ctx: CreateNFT) -> bool {
        &&& self.custody_modules_are(
            ctx.token_program,
            ctx.associated_token_program,
            ctx.system_program,
            ctx.rent,
        )
        &&& ctx.token_metadata_program == self.modules.token_metadata_program
        &&& self.holding_status(ctx.associated_token_account, ctx.mint, ctx.signer)
            != HoldingStatus::Mismatched
    }

    /// Whether every account of an issuance is the one that the operation
    /// expects: the modules are the ledger's, the holding account is the
    /// signer's canonical one and, where it exists, bound to the asset and
    /// the signer, and the two records are at their derived addresses.
    pub open spec fn issuance_bound(
        self,
        ctx: CreateNFT,
        holding: Address,
        metadata: Address,
        edition: Address,
    ) -> bool {
        &&& self.issuance_bound_as_given(ctx)
        &&& ctx.associated_token_account == holding
        &&& ctx.metadata_account == metadata
        &&& ctx.master_edition_account == edition
    }

    /// What the validation of an issuance gives on the addresses that the
    /// derivation gave. What can be held against the ledger alone is looked
    /// at first: a binding violation there is the result whatever was
    /// derived. Then a missing address is a failed derivation, and an
    /// account that is not at its derived address a binding violation.
    pub open spec fn issuance_checked(
        self,
        ctx: CreateNFT,
        targets: IssuanceTargets,
    ) -> Result<(), Error> {
        if !self.issuance_bound_as_given(ctx) {
            Err(Error::AuthorityBindingViolation)
        } else {
            match (targets.holding, targets.metadata, targets.edition) {
                (Some(h), Some(m), Some(e)) => if self.issuance_bound(ctx, h, m, e) {
                    Ok(())
                } else {
                    Err(Error::AuthorityBindingViolation)
                },
                _ => Err(Error::DerivationFailed),
            }
        }
    }

    /// The addresses that the derivation gives for an issuance.
    pub open spec fn issuance_targets(self, ctx: CreateNFT) -> IssuanceTargets {
        IssuanceTargets {
            holding: self.canonical_holding(ctx.signer, ctx.mint),
            metadata: self.metadata_target(ctx.mint),
            edition: self.edition_target(ctx.mint),
        }
    }

    /// What the validation of an issuance gives.
    pub open spec fn issuance_bindings(self, ctx: CreateNFT) -> Result<(), Error> {
        self.issuance_checked(ctx, self.issuance_targets(ctx))
    }

    /// The delegate authority of the ledger's program.
    pub open spec fn delegate(self) -> Option<Address> {
        match delegate_of(self.modules.program) {
            Some((d, _)) => Some(d),
            None => None,
        }
    }

    /// The canonical holding account of the delegate authority for an asset.
    pub open spec fn delegate_holding(self, mint: Address) -> Option<Address> {
        match self.delegate() {
            Some(d) => self.canonical_holding(d, mint),
            None => None,
        }
    }

    /// Whether the source leg of a wallet-authorized transfer is the one
    /// that the operation expects: the modules are the ledger's, the asset
    /// is recorded, and the source holding account exists, bound to the
    /// asset and owned by the signer.
    pub open spec fn wallet_source_bound(self, ctx: TokenTransferFromWallet) -> bool {
        &&& self.custody_modules_are(
            ctx.token_program,
            ctx.associated_token_program,
            ctx.system_program,
            ctx.rent,
        )
        &&& self.has_mint(ctx.mint)
        &&& self.holding_status(ctx.from_token_account, ctx.mint, ctx.signer)
            == HoldingStatus::Matching
    }

    /// Whether the supplied delegate authority is the derived one and the
    /// destination holding account, where it exists, is bound to the asset
    /// and owned by the delegate authority.
    pub open spec fn wallet_delegate_bound(
        self,
        ctx: TokenTransferFromWallet,
        delegate: Address,
    ) -> bool {
        &&& ctx.pda_account == delegate
        &&& self.holding_status(ctx.to_token_account, ctx.mint, delegate)
            != HoldingStatus::Mismatched
    }

    /// Whether every account of a wallet-authorized transfer is the one that
    /// the operation expects, `delegate` being the delegate authority and
    /// `destination` its canonical holding account.
    pub open spec fn wallet_transfer_bound(
        self,
        ctx: TokenTransferFromWallet,
        delegate: Address,
        destination: Address,
    ) -> bool {
        &&& self.wallet_source_bound(ctx)
        &&& self.wallet_delegate_bound(ctx, delegate)
        &&& ctx.to_token_account == destination
    }

    /// What the validation of a wallet-authorized transfer gives on the
    /// addresses that the derivation gave. Each leg is held against its
    /// expected authority as soon as that authority is known: the source
    /// against the signer at once, the destination against the delegate
    /// authority once that is derived, and the destination's address last. A
    /// missing address is a failed derivation, a mismatch a binding
    /// violation; where all is as expected the delegate authority is given.
    pub open spec fn wallet_transfer_checked(
        self,
        ctx: TokenTransferFromWallet,
        delegate: Option<Address>,
        destination: Option<Address>,
    ) -> Result<Address, Error> {
        if !self.wallet_source_bound(ctx) {
            Err(Error::AuthorityBindingViolation)
        } else {
            match delegate {
                None => Err(Error::DerivationFailed),
                Some(d) => if !self.wallet_delegate_bound(ctx, d) {
                    Err(Error::AuthorityBindingViolation)
                } else {
                    match destination {
                        None => Err(Error::DerivationFailed),
                        Some(c) => if ctx.to_token_account == c {
                            Ok(d)
                        } else {
                            Err(Error::AuthorityBindingViolation)
                        },
                    }
                },
            }
        }
    }

    /// What the validation of a wallet-authorized transfer gives.
    pub open spec fn wallet_transfer_bindings(
        self,
        ctx: TokenTransferFromWallet,
    ) -> Result<Address, Error> {
        self.wallet_transfer_checked(ctx, self.delegate(), self.delegate_holding(ctx.mint))
    }

    /// Whether the destination leg of a delegate-authorized transfer is the
    /// one that the operation expects: the modules are the ledger's, the
    /// asset is recorded, and the destination holding account, where it
    /// exists, is bound to the asset and owned by the recipient.
    pub open spec fn recipient_bound(self, ctx: TokenTransferFromPDA) -> bool {
        &&& self.custody_modules_are(
            ctx.token_program,
            ctx.associated_token_program,
            ctx.system_program,
            ctx.rent,
        )
        &&& self.has_mint(ctx.mint)
        &&& self.holding_status(ctx.to_token_account, ctx.mint, ctx.recipient)
            != HoldingStatus::Mismatched
    }

    /// Whether the supplied delegate authority is the derived one and the
    /// source holding account exists, bound to the asset and owned by the
    /// delegate authority.
    pub open spec fn delegate_source_bound(
        self,
        ctx: TokenTransferFromPDA,
        delegate: Address,
    ) -> bool {
        &&& ctx.pda_account == delegate
        &&& self.holding_status(ctx.from_token_account, ctx.mint, delegate)
            == HoldingStatus::Matching
    }

    /// Whether every account of a delegate-authorized transfer is the one
    /// that the operation expects, `delegate` being the delegate authority
    /// and `destination` the recipient's canonical holding account.
    pub open spec fn delegate_transfer_bound(
        self,
        ctx: TokenTransferFromPDA,
        delegate: Address,
        destination: Address,
    ) -> bool {
        &&& self.recipient_bound(ctx)
        &&& self.delegate_source_bound(ctx, delegate)
        &&& ctx.to_token_account == destination
    }

    /// What the validation of a delegate-authorized transfer gives on the
    /// addresses that the derivation gave. Each leg is held against its
    /// expected authority as soon as that authority is known: the
    /// destination against the recipient at once, the source against the
    /// delegate authority once that is derived, and the destination's
    /// address last. A missing address is a failed derivation, a mismatch a
    /// binding violation; where all is as expected the delegate authority is
    /// given.
    pub open spec fn delegate_transfer_checked(
        self,
        ctx: TokenTransferFromPDA,
        delegate: Option<Address>,
        destination: Option<Address>,
    ) -> Result<Address, Error> {
        if !self.recipient_bound(ctx) {
            Err(Error::AuthorityBindingViolation)
        } else {
            match delegate {
                None => Err(Error::DerivationFailed),
                Some(d) => if !self.delegate_source_bound(ctx, d) {
                    Err(Error::AuthorityBindingViolation)
                } else {
                    match destination {
                        None => Err(Error::DerivationFailed),
                        Some(c) => if ctx.to_token_account == c {
                            Ok(d)
                        } else {
                            Err(Error::AuthorityBindingViolation)
                        },
                    }
                },
            }
        }
    }

    /// What the validation of a delegate-authorized transfer gives.
    pub open spec fn delegate_transfer_bindings(
        self,
        ctx: TokenTransferFromPDA,
    ) -> Result<Address, Error> {
        self.delegate_transfer_checked(
            ctx,
            self.delegate(),
            self.canonical_holding(ctx.recipient, ctx.mint),
        )
    }
}

} // verus!
