use crate::accounts::{CreateNFT, IssuanceTargets, TokenTransferFromPDA, TokenTransferFromWallet};
use crate::address::Address;
use crate::error::Error;
use crate::model::LedgerView;
use crate::records::Description;
use vstd::prelude::*;

verus! {

/// The units that an issuance issues and that a transfer moves.
pub const ONE_UNIT: u64 = 1;

/// The seller's fee, in basis points, of every asset issued.
pub const ISSUED_FEE: u16 = 0;

/// Whether the metadata of an issued asset is open to change.
pub const ISSUED_MUTABLE: bool = false;

/// Whether the update authority of an issued asset, which is the signer of
/// the issuance, signs the registration of its metadata.
pub const UPDATE_AUTHORITY_SIGNS: bool = true;

/// The most copies that the edition of an issued asset admits.
pub const EDITION_MAX_SUPPLY: u64 = 1;

/// The description under which an asset is registered.
pub open spec fn issued_description(
    name: Seq<char>,
    symbol: Seq<char>,
    uri: Seq<char>,
) -> Description {
    Description { name, symbol, uri, seller_fee_basis_points: ISSUED_FEE }
}

impl LedgerView {
    /// A transfer that a signing capability made under `program` for
    /// `authority` authorizes: refused where the capability comes from
    /// another program than the ledger's.
    pub open spec fn transfer_signed(
        self,
        source: Address,
        destination: Address,
        program: Address,
        authority: Address,
        amount: u64,
    ) -> Result<LedgerView, Error> {
        if program != self.modules.program {
            Err(Error::AuthorityBindingViolation)
        } else {
            self.transfer(source, destination, authority, amount)
        }
    }

    /// The steps of an issuance on validated accounts: the asset identity is
    /// recorded with the signer as its authorities, the signer's holding
    /// account is created where absent, one unit is issued into it, and the
    /// metadata and the edition are registered. The first step that is
    /// refused gives the result.
    pub open spec fn issuance_steps(
        self,
        ctx: CreateNFT,
        d: Description,
        targets: IssuanceTargets,
    ) -> Result<LedgerView, Error> {
        match self.create_mint(ctx.mint, ctx.signer, ctx.signer) {
            Err(e) => Err(e),
            Ok(l1) => match l1.settle_holding_account(
                ctx.signer,
                ctx.mint,
                ctx.signer,
                targets.holding,
            ) {
                Err(e) => Err(e),
                Ok(l2) => match l2.mint_to(
                    ctx.mint,
                    ctx.associated_token_account,
                    ctx.signer,
                    ONE_UNIT,
                ) {
                    Err(e) => Err(e),
                    Ok(l3) => match l3.record_metadata(
                        ctx.metadata_account,
                        ctx.mint,
                        ctx.signer,
                        ctx.signer,
                        d,
                        ISSUED_MUTABLE,
                        targets.metadata,
                    ) {
                        Err(e) => Err(e),
                        Ok(l4) => l4.record_edition(
                            ctx.master_edition_account,
                            ctx.mint,
                            ctx.signer,
                            ctx.signer,
                            ctx.metadata_account,
                            EDITION_MAX_SUPPLY,
                            targets.edition,
                        ),
                    },
                },
            },
        }
    }

    /// An issuance on the addresses that the derivation gave: the validation
    /// of its accounts, then its steps.
    pub open spec fn issuance_with(
        self,
        ctx: CreateNFT,
        d: Description,
        targets: IssuanceTargets,
    ) -> Result<LedgerView, Error> {
        match self.issuance_checked(ctx, targets) {
            Err(e) => Err(e),
            Ok(_) => self.issuance_steps(ctx, d, targets),
        }
    }

    /// An issuance.
    pub open spec fn issuance(self, ctx: CreateNFT, d: Description) -> Result<LedgerView, Error> {
        self.issuance_with(ctx, d, self.issuance_targets(ctx))
    }

    /// A wallet-authorized transfer on the addresses that the derivation
    /// gave: the validation of its accounts, the creation of the delegate's
    /// holding account where absent, and the move of one unit on the
    /// signer's word.
    pub open spec fn wallet_transfer_with(
        self,
        ctx: TokenTransferFromWallet,
        delegate: Option<Address>,
        destination: Option<Address>,
    ) -> Result<LedgerView, Error> {
        match self.wallet_transfer_checked(ctx, delegate, destination) {
            Err(e) => Err(e),
            Ok(d) => match self.settle_holding_account(d, ctx.mint, ctx.signer, destination) {
                Err(e) => Err(e),
                Ok(l1) => l1.transfer(
                    ctx.from_token_account,
                    ctx.to_token_account,
                    ctx.signer,
                    ONE_UNIT,
                ),
            },
        }
    }

    /// A wallet-authorized transfer.
    pub open spec fn wallet_transfer(
        self,
        ctx: TokenTransferFromWallet,
    ) -> Result<LedgerView, Error> {
        self.wallet_transfer_with(ctx, self.delegate(), self.delegate_holding(ctx.mint))
    }

    /// A delegate-authorized transfer on the addresses that the derivation
    /// gave, `issuer` being the program under which the delegate authority
    /// was derived: the validation of its accounts, the creation of the
    /// recipient's holding account where absent, which the payer pays for,
    /// and the move of one unit on the word of the delegate authority.
    pub open spec fn delegate_transfer_with(
        self,
        ctx: TokenTransferFromPDA,
        issuer: Address,
        delegate: Option<Address>,
        destination: Option<Address>,
    ) -> Result<LedgerView, Error> {
        match self.delegate_transfer_checked(ctx, delegate, destination) {
            Err(e) => Err(e),
            Ok(d) => match self.settle_holding_account(
                ctx.recipient,
                ctx.mint,
                ctx.payer,
                destination,
            ) {
                Err(e) => Err(e),
                Ok(l1) => l1.transfer_signed(
                    ctx.from_token_account,
                    ctx.to_token_account,
                    issuer,
                    d,
                    ONE_UNIT,
                ),
            },
        }
    }

    /// A delegate-authorized transfer: the delegate authority is derived
    /// anew under the ledger's program, and the destination is the canonical
    /// holding account of the recipient.
    pub open spec fn delegate_transfer(
        self,
        ctx: TokenTransferFromPDA,
    ) -> Result<LedgerView, Error> {
        self.delegate_transfer_with(
            ctx,
            self.modules.program,
            self.delegate(),
            self.canonical_holding(ctx.recipient, ctx.mint),
        )
    }
}

} // verus!
