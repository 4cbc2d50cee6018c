use nft_transfer::accounts::HoldingStatus;
use nft_transfer::address::Address;
use nft_transfer::capability::SigningCapability;
use nft_transfer::derivation::{
    delegate_authority, edition_address, holding_address, metadata_address,
};
use nft_transfer::error::Error;
use nft_transfer::ledger::Ledger;
use nft_transfer::records::{AssetData, HoldingAccount, Limits, Mint, Modules};

fn id(n: u8) -> Address {
    Address::new([n; 32])
}

fn modules() -> Modules {
    Modules {
        program: id(201),
        token_program: id(202),
        associated_token_program: id(203),
        token_metadata_program: id(204),
        system_program: id(205),
        rent: id(206),
    }
}

fn fresh() -> Ledger {
    Ledger::new(modules(), Limits::standard())
}

fn holding(owner: &Address, mint: &Address) -> Address {
    let m = modules();
    holding_address(owner, mint, &m.token_program, &m.associated_token_program).unwrap()
}

fn metadata(mint: &Address) -> Address {
    metadata_address(&modules().token_metadata_program, mint).unwrap()
}

fn edition(mint: &Address) -> Address {
    edition_address(&modules().token_metadata_program, mint).unwrap()
}

fn data(name: &str, symbol: &str, uri: &str) -> AssetData {
    AssetData {
        name: name.to_string(),
        symbol: symbol.to_string(),
        uri: uri.to_string(),
        seller_fee_basis_points: 0,
    }
}

fn minted(owner: &Address, mint: &Address) -> Ledger {
    let mut l = fresh();
    l.create_mint(mint, owner, owner).unwrap();
    l.create_holding_account(owner, mint, owner).unwrap();
    l.mint_to(mint, &holding(owner, mint), owner, 1).unwrap();
    l
}

#[test]
fn a_new_ledger_has_no_records() {
    let l = fresh();
    assert_eq!(l.balance_of(&id(1)), 0);
    assert_eq!(l.supply_of(&id(1)), 0);
    assert_eq!(l.outstanding_of(&id(1)), 0);
    assert!(l.mint_account(&id(1)).is_none());
    assert!(l.holding_account(&id(1)).is_none());
    assert!(l.metadata_record(&id(1)).is_none());
    assert!(l.edition_record(&id(1)).is_none());
    assert_eq!(l.modules(), modules());
    assert_eq!(l.limits(), Limits { name: 32, symbol: 10, uri: 200 });
}

#[test]
fn standard_limits_are_the_registrys() {
    let l = Limits::standard();
    assert_eq!(l.name, anchor_spl::metadata::mpl_token_metadata::MAX_NAME_LENGTH);
    assert_eq!(l.symbol, anchor_spl::metadata::mpl_token_metadata::MAX_SYMBOL_LENGTH);
    assert_eq!(l.uri, anchor_spl::metadata::mpl_token_metadata::MAX_URI_LENGTH);
}

#[test]
fn create_mint_records_an_identity_once() {
    let mut l = fresh();
    assert_eq!(l.create_mint(&id(10), &id(1), &id(2)), Ok(()));
    assert_eq!(
        l.mint_account(&id(10)),
        Some(Mint {
            address: id(10),
            authority: id(1),
            freeze_authority: id(2),
            decimals: 0,
            supply: 0
        })
    );
    assert_eq!(l.create_mint(&id(10), &id(3), &id(3)), Err(Error::AlreadyInitializedMismatched));
    assert_eq!(l.create_mint(&id(10), &id(1), &id(2)), Err(Error::AlreadyInitializedMismatched));
    assert_eq!(l.mint_account(&id(10)).unwrap().authority, id(1));
    assert_eq!(l.create_mint(&id(11), &id(3), &id(3)), Ok(()));
    assert_eq!(l.mint_account(&id(11)).unwrap().authority, id(3));
    assert_eq!(l.mint_account(&id(10)).unwrap().authority, id(1));
}

#[test]
fn create_holding_account_is_idempotent() {
    let mut l = fresh();
    l.create_mint(&id(10), &id(1), &id(1)).unwrap();
    let a = holding(&id(1), &id(10));
    assert!(l.holding_account(&a).is_none());
    assert_eq!(l.create_holding_account(&id(1), &id(10), &id(7)), Ok(()));
    assert_eq!(
        l.holding_account(&a),
        Some(HoldingAccount { address: a, mint: id(10), owner: id(1), amount: 0 })
    );
    l.mint_to(&id(10), &a, &id(1), 1).unwrap();
    assert_eq!(l.create_holding_account(&id(1), &id(10), &id(8)), Ok(()));
    assert_eq!(l.balance_of(&a), 1);
    assert_eq!(l.create_holding_account(&id(2), &id(10), &id(2)), Ok(()));
    assert_eq!(l.balance_of(&holding(&id(2), &id(10))), 0);
    assert_eq!(l.balance_of(&a), 1);
}

#[test]
fn create_holding_account_needs_a_recorded_asset() {
    let mut l = fresh();
    assert_eq!(
        l.create_holding_account(&id(1), &id(10), &id(1)),
        Err(Error::ExternalModuleRejection)
    );
    assert!(l.holding_account(&holding(&id(1), &id(10))).is_none());
}

#[test]
fn holding_status_tells_the_three_cases_apart() {
    let l = minted(&id(1), &id(10));
    let a = holding(&id(1), &id(10));
    assert_eq!(l.holding_status(&a, &id(10), &id(1)), HoldingStatus::Matching);
    assert_eq!(l.holding_status(&a, &id(10), &id(2)), HoldingStatus::Mismatched);
    assert_eq!(l.holding_status(&a, &id(11), &id(1)), HoldingStatus::Mismatched);
    assert_eq!(l.holding_status(&id(1), &id(10), &id(1)), HoldingStatus::Absent);
    assert_eq!(
        l.holding_status(&holding(&id(2), &id(10)), &id(10), &id(2)),
        HoldingStatus::Absent
    );
}

#[test]
fn mint_to_issues_within_the_cap() {
    let mut l = fresh();
    l.create_mint(&id(10), &id(1), &id(1)).unwrap();
    l.create_holding_account(&id(1), &id(10), &id(1)).unwrap();
    let a = holding(&id(1), &id(10));
    assert_eq!(l.mint_to(&id(10), &a, &id(1), 2), Err(Error::ExternalModuleRejection));
    assert_eq!(l.mint_to(&id(10), &a, &id(1), u64::MAX), Err(Error::ExternalModuleRejection));
    assert_eq!(l.mint_to(&id(10), &a, &id(1), 0), Ok(()));
    assert_eq!(l.supply_of(&id(10)), 0);
    assert_eq!(l.mint_to(&id(10), &a, &id(1), 1), Ok(()));
    assert_eq!(l.supply_of(&id(10)), 1);
    assert_eq!(l.balance_of(&a), 1);
    assert_eq!(l.mint_to(&id(10), &a, &id(1), 1), Err(Error::ExternalModuleRejection));
    assert_eq!(l.mint_to(&id(10), &a, &id(1), 0), Ok(()));
    assert_eq!(l.supply_of(&id(10)), 1);
    assert_eq!(l.balance_of(&a), 1);
    assert_eq!(l.outstanding_of(&id(10)), 1);
    assert_eq!(l.outstanding_of(&id(11)), 0);
}

#[test]
fn mint_to_checks_authority_asset_and_destination() {
    let mut l = fresh();
    l.create_mint(&id(10), &id(1), &id(1)).unwrap();
    l.create_mint(&id(11), &id(1), &id(1)).unwrap();
    l.create_holding_account(&id(1), &id(10), &id(1)).unwrap();
    let a = holding(&id(1), &id(10));
    assert_eq!(l.mint_to(&id(10), &a, &id(2), 1), Err(Error::AuthorityBindingViolation));
    assert_eq!(l.mint_to(&id(12), &a, &id(1), 1), Err(Error::ExternalModuleRejection));
    assert_eq!(l.mint_to(&id(11), &a, &id(1), 1), Err(Error::ExternalModuleRejection));
    assert_eq!(l.mint_to(&id(10), &id(99), &id(1), 1), Err(Error::ExternalModuleRejection));
    assert_eq!(l.supply_of(&id(10)), 0);
    assert_eq!(l.supply_of(&id(11)), 0);
    assert_eq!(l.balance_of(&a), 0);
}

#[test]
fn transfer_moves_the_unit_and_keeps_the_supply() {
    let mut l = minted(&id(1), &id(10));
    l.create_holding_account(&id(2), &id(10), &id(2)).unwrap();
    let a = holding(&id(1), &id(10));
    let b = holding(&id(2), &id(10));
    assert_eq!(l.transfer(&a, &b, &id(1), 1), Ok(()));
    assert_eq!(l.balance_of(&a), 0);
    assert_eq!(l.balance_of(&b), 1);
    assert_eq!(l.supply_of(&id(10)), 1);
    assert_eq!(l.holding_account(&a).unwrap().owner, id(1));
    assert_eq!(l.holding_account(&b).unwrap().owner, id(2));
    assert_eq!(l.transfer(&a, &b, &id(1), 1), Err(Error::InsufficientBalance));
    assert_eq!(l.transfer(&b, &a, &id(2), 2), Err(Error::InsufficientBalance));
    assert_eq!(l.transfer(&b, &a, &id(2), 0), Ok(()));
    assert_eq!(l.balance_of(&b), 1);
    assert_eq!(l.transfer(&b, &a, &id(2), 1), Ok(()));
    assert_eq!(l.balance_of(&a), 1);
    assert_eq!(l.balance_of(&b), 0);
}

#[test]
fn transfer_checks_authority_before_balance() {
    let mut l = minted(&id(1), &id(10));
    l.create_holding_account(&id(2), &id(10), &id(2)).unwrap();
    let a = holding(&id(1), &id(10));
    let b = holding(&id(2), &id(10));
    assert_eq!(l.transfer(&a, &b, &id(2), 1), Err(Error::AuthorityBindingViolation));
    assert_eq!(l.transfer(&b, &a, &id(1), 1), Err(Error::AuthorityBindingViolation));
    assert_eq!(l.transfer(&b, &a, &id(2), 1), Err(Error::InsufficientBalance));
    assert_eq!(l.balance_of(&a), 1);
    assert_eq!(l.balance_of(&b), 0);
}

#[test]
fn transfer_needs_two_accounts_of_one_asset() {
    let mut l = minted(&id(1), &id(10));
    l.create_mint(&id(11), &id(1), &id(1)).unwrap();
    l.create_holding_account(&id(1), &id(11), &id(1)).unwrap();
    let a = holding(&id(1), &id(10));
    let other = holding(&id(1), &id(11));
    assert_eq!(l.transfer(&a, &other, &id(1), 1), Err(Error::ExternalModuleRejection));
    assert_eq!(l.transfer(&a, &id(50), &id(1), 1), Err(Error::ExternalModuleRejection));
    assert_eq!(l.transfer(&id(50), &a, &id(1), 1), Err(Error::ExternalModuleRejection));
    assert_eq!(l.balance_of(&a), 1);
    assert_eq!(l.balance_of(&other), 0);
}

#[test]
fn transfer_to_the_same_account_changes_nothing() {
    let mut l = minted(&id(1), &id(10));
    let a = holding(&id(1), &id(10));
    assert_eq!(l.transfer(&a, &a, &id(1), 1), Ok(()));
    assert_eq!(l.balance_of(&a), 1);
    assert_eq!(l.transfer(&a, &a, &id(1), 2), Err(Error::InsufficientBalance));
    assert_eq!(l.transfer(&a, &a, &id(2), 1), Err(Error::AuthorityBindingViolation));
    assert_eq!(l.balance_of(&a), 1);
    assert_eq!(l.supply_of(&id(10)), 1);
}

#[test]
fn transfer_signed_takes_the_capability_of_the_ledgers_program() {
    let delegate = delegate_authority(&modules().program).unwrap().0;
    let mut l = minted(&id(1), &id(10));
    l.create_holding_account(&delegate, &id(10), &id(1)).unwrap();
    let a = holding(&id(1), &id(10));
    let d = holding(&delegate, &id(10));
    l.transfer(&a, &d, &id(1), 1).unwrap();

    let foreign = SigningCapability::synthesize(&id(77)).unwrap();
    assert_eq!(l.transfer_signed(&d, &a, foreign, 1), Err(Error::AuthorityBindingViolation));
    assert_eq!(l.balance_of(&d), 1);

    let own = SigningCapability::synthesize(&modules().program).unwrap();
    assert_eq!(l.transfer_signed(&a, &d, own, 1), Err(Error::AuthorityBindingViolation));

    let own = SigningCapability::synthesize(&modules().program).unwrap();
    assert_eq!(l.transfer_signed(&d, &a, own, 1), Ok(()));
    assert_eq!(l.balance_of(&d), 0);
    assert_eq!(l.balance_of(&a), 1);

    let own = SigningCapability::synthesize(&modules().program).unwrap();
    assert_eq!(l.transfer_signed(&d, &a, own, 1), Err(Error::InsufficientBalance));
}

#[test]
fn register_metadata_keeps_what_it_was_given() {
    let mut l = minted(&id(1), &id(10));
    let target = metadata(&id(10));
    let d = AssetData {
        name: "Art#1".to_string(),
        symbol: "ART".to_string(),
        uri: "https://x/1.json".to_string(),
        seller_fee_basis_points: 250,
    };
    assert_eq!(l.register_metadata(&target, &id(10), &id(1), &id(1), d, true), Ok(()));
    let r = l.metadata_record(&target).unwrap();
    assert_eq!(r.address, target);
    assert_eq!(r.mint, id(10));
    assert_eq!(r.update_authority, id(1));
    assert_eq!(r.name, "Art#1");
    assert_eq!(r.symbol, "ART");
    assert_eq!(r.uri, "https://x/1.json");
    assert_eq!(r.seller_fee_basis_points, 250);
    assert!(r.is_mutable);
    assert_eq!(r.duplicate(), r);
    assert_eq!(
        l.register_metadata(&target, &id(10), &id(1), &id(1), data("b", "c", "d"), false),
        Err(Error::ExternalModuleRejection)
    );
    assert_eq!(l.metadata_record(&target).unwrap().name, "Art#1");
}

#[test]
fn register_metadata_checks_asset_authority_target_and_sizes() {
    let mut l = minted(&id(1), &id(10));
    let target = metadata(&id(10));
    let d = || data("n", "s", "u");
    assert_eq!(
        l.register_metadata(&metadata(&id(11)), &id(11), &id(1), &id(1), d(), false),
        Err(Error::ExternalModuleRejection)
    );
    assert_eq!(
        l.register_metadata(&target, &id(10), &id(2), &id(1), d(), false),
        Err(Error::AuthorityBindingViolation)
    );
    assert_eq!(
        l.register_metadata(&edition(&id(10)), &id(10), &id(1), &id(1), d(), false),
        Err(Error::AuthorityBindingViolation)
    );
    assert_eq!(
        l.register_metadata(&metadata(&id(11)), &id(10), &id(1), &id(1), d(), false),
        Err(Error::AuthorityBindingViolation)
    );
    let long = "x".repeat(33);
    assert_eq!(
        l.register_metadata(&target, &id(10), &id(1), &id(1), data(&long, "s", "u"), false),
        Err(Error::ExternalModuleRejection)
    );
    assert!(l.metadata_record(&target).is_none());
    assert_eq!(l.register_metadata(&target, &id(10), &id(1), &id(2), d(), false), Ok(()));
}

#[test]
fn register_edition_seals_an_issued_and_described_asset() {
    let mut l = minted(&id(1), &id(10));
    let m = metadata(&id(10));
    let e = edition(&id(10));
    assert_eq!(
        l.register_edition(&e, &id(10), &id(1), &id(1), &m, 1),
        Err(Error::ExternalModuleRejection)
    );
    l.register_metadata(&m, &id(10), &id(1), &id(1), data("n", "s", "u"), false).unwrap();
    assert_eq!(
        l.register_edition(&e, &id(11), &id(1), &id(1), &m, 1),
        Err(Error::ExternalModuleRejection)
    );
    assert_eq!(
        l.register_edition(&e, &id(10), &id(2), &id(1), &m, 1),
        Err(Error::AuthorityBindingViolation)
    );
    assert_eq!(
        l.register_edition(&m, &id(10), &id(1), &id(1), &m, 1),
        Err(Error::AuthorityBindingViolation)
    );
    assert_eq!(
        l.register_edition(&e, &id(10), &id(1), &id(1), &e, 1),
        Err(Error::ExternalModuleRejection)
    );
    assert!(l.edition_record(&e).is_none());
    assert_eq!(l.register_edition(&e, &id(10), &id(1), &id(1), &m, 1), Ok(()));
    let r = l.edition_record(&e).unwrap();
    assert_eq!(r.address, e);
    assert_eq!(r.mint, id(10));
    assert_eq!(r.metadata, m);
    assert_eq!(r.max_supply, 1);
    assert_eq!(
        l.register_edition(&e, &id(10), &id(1), &id(1), &m, 1),
        Err(Error::ExternalModuleRejection)
    );
}

#[test]
fn register_edition_needs_the_unit_to_be_issued() {
    let mut l = fresh();
    l.create_mint(&id(10), &id(1), &id(1)).unwrap();
    let m = metadata(&id(10));
    l.register_metadata(&m, &id(10), &id(1), &id(1), data("n", "s", "u"), false).unwrap();
    assert_eq!(
        l.register_edition(&edition(&id(10)), &id(10), &id(1), &id(1), &m, 1),
        Err(Error::ExternalModuleRejection)
    );
}

#[test]
fn a_snapshot_does_not_follow_the_ledger() {
    let mut l = minted(&id(1), &id(10));
    let m = metadata(&id(10));
    l.register_metadata(&m, &id(10), &id(1), &id(1), data("n", "s", "u"), false).unwrap();
    let before = l.snapshot();
    l.create_holding_account(&id(2), &id(10), &id(2)).unwrap();
    l.transfer(&holding(&id(1), &id(10)), &holding(&id(2), &id(10)), &id(1), 1).unwrap();
    l.register_edition(&edition(&id(10)), &id(10), &id(1), &id(1), &m, 1).unwrap();
    assert_eq!(before.balance_of(&holding(&id(1), &id(10))), 1);
    assert!(before.holding_account(&holding(&id(2), &id(10))).is_none());
    assert!(before.edition_record(&edition(&id(10))).is_none());
    assert_eq!(before.metadata_record(&m).unwrap().name, "n");
    assert_eq!(before.supply_of(&id(10)), 1);
    assert_eq!(before.modules(), l.modules());
    assert_eq!(l.balance_of(&holding(&id(1), &id(10))), 0);
    assert_eq!(l.balance_of(&holding(&id(2), &id(10))), 1);
}

#[test]
fn errors_describe_themselves() {
    assert_eq!(Error::AuthorityBindingViolation.describe(), "authority binding violation");
    assert_eq!(Error::InsufficientBalance.describe(), "insufficient balance");
    assert_eq!(
        Error::AlreadyInitializedMismatched.describe(),
        "already initialized with other bindings"
    );
    assert_eq!(Error::ExternalModuleRejection.describe(), "external module rejection");
    assert_eq!(Error::DerivationFailed.describe(), "address derivation failed");
}

#[test]
fn open_holding_account_takes_any_free_address() {
    let mut l = fresh();
    assert_eq!(
        l.open_holding_account(&id(50), &id(10), &id(1)),
        Err(Error::ExternalModuleRejection)
    );
    l.create_mint(&id(10), &id(1), &id(1)).unwrap();
    assert_eq!(l.open_holding_account(&id(50), &id(10), &id(1)), Ok(()));
    assert_eq!(
        l.holding_account(&id(50)),
        Some(HoldingAccount { address: id(50), mint: id(10), owner: id(1), amount: 0 })
    );
    assert_eq!(
        l.open_holding_account(&id(50), &id(10), &id(1)),
        Err(Error::AlreadyInitializedMismatched)
    );
    assert_eq!(
        l.open_holding_account(&id(50), &id(10), &id(2)),
        Err(Error::AlreadyInitializedMismatched)
    );
    assert_eq!(l.holding_account(&id(50)).unwrap().owner, id(1));
    assert_eq!(l.open_holding_account(&id(51), &id(10), &id(1)), Ok(()));
    assert_eq!(l.mint_to(&id(10), &id(51), &id(1), 1), Ok(()));
    assert_eq!(l.balance_of(&id(51)), 1);
    assert_eq!(l.balance_of(&id(50)), 0);
}

#[test]
fn create_holding_account_refuses_a_canonical_address_bound_otherwise() {
    let mut l = fresh();
    l.create_mint(&id(10), &id(1), &id(1)).unwrap();
    l.create_mint(&id(11), &id(1), &id(1)).unwrap();
    let a = holding(&id(1), &id(10));
    l.open_holding_account(&a, &id(10), &id(2)).unwrap();
    assert_eq!(
        l.create_holding_account(&id(1), &id(10), &id(1)),
        Err(Error::AlreadyInitializedMismatched)
    );
    assert_eq!(l.holding_account(&a).unwrap().owner, id(2));
    let b = holding(&id(3), &id(10));
    l.open_holding_account(&b, &id(11), &id(3)).unwrap();
    assert_eq!(
        l.create_holding_account(&id(3), &id(10), &id(3)),
        Err(Error::AlreadyInitializedMismatched)
    );
    assert_eq!(l.holding_account(&b).unwrap().mint, id(11));
}

#[test]
fn ledger_operations_take_what_the_derivation_gave() {
    let mut l = minted(&id(1), &id(10));
    assert_eq!(
        l.settle_holding_account(&id(2), &id(10), &id(2), None),
        Err(Error::DerivationFailed)
    );
    assert_eq!(l.settle_holding_account(&id(2), &id(10), &id(2), Some(id(70))), Ok(()));
    assert_eq!(
        l.holding_account(&id(70)),
        Some(HoldingAccount { address: id(70), mint: id(10), owner: id(2), amount: 0 })
    );
    assert_eq!(l.settle_holding_account(&id(2), &id(10), &id(2), Some(id(70))), Ok(()));
    assert_eq!(
        l.settle_holding_account(&id(3), &id(10), &id(3), Some(id(70))),
        Err(Error::AlreadyInitializedMismatched)
    );

    let m = id(71);
    let e = id(72);
    assert_eq!(
        l.record_metadata(&m, &id(10), &id(1), &id(1), data("n", "s", "u"), false, None),
        Err(Error::AuthorityBindingViolation)
    );
    assert_eq!(
        l.record_metadata(&m, &id(10), &id(1), &id(1), data("n", "s", "u"), false, Some(e)),
        Err(Error::AuthorityBindingViolation)
    );
    assert_eq!(
        l.record_metadata(&m, &id(10), &id(1), &id(1), data("n", "s", "u"), false, Some(m)),
        Ok(())
    );
    assert_eq!(
        l.record_edition(&e, &id(10), &id(1), &id(1), &m, 1, None),
        Err(Error::AuthorityBindingViolation)
    );
    assert_eq!(
        l.record_edition(&e, &id(10), &id(1), &id(1), &m, 1, Some(m)),
        Err(Error::AuthorityBindingViolation)
    );
    assert_eq!(l.record_edition(&e, &id(10), &id(1), &id(1), &m, 1, Some(e)), Ok(()));
    assert_eq!(l.edition_record(&e).unwrap().metadata, m);
}

#[test]
fn observed_records_are_taken_up_as_they_are_seen() {
    let mut l = fresh();
    assert_eq!(l.observe_mint(&id(10), Some(id(1)), None), Ok(()));
    assert_eq!(
        l.mint_account(&id(10)),
        Some(Mint {
            address: id(10),
            authority: id(1),
            freeze_authority: id(10),
            decimals: 0,
            supply: 0
        })
    );
    assert_eq!(l.observe_mint(&id(11), None, Some(id(2))), Ok(()));
    assert_eq!(l.mint_account(&id(11)).unwrap().authority, id(11));
    assert_eq!(l.mint_account(&id(11)).unwrap().freeze_authority, id(2));
    assert_eq!(l.observe_mint(&id(10), Some(id(1)), None), Err(Error::AlreadyInitializedMismatched));

    let full = HoldingAccount { address: id(50), mint: id(10), owner: id(3), amount: 1 };
    let empty = HoldingAccount { address: id(51), mint: id(10), owner: id(4), amount: 0 };
    assert_eq!(l.observe_holding_account(&full), Ok(()));
    assert_eq!(l.observe_holding_account(&empty), Ok(()));
    assert_eq!(l.holding_account(&id(50)), Some(full));
    assert_eq!(l.holding_account(&id(51)), Some(empty));
    assert_eq!(l.supply_of(&id(10)), 1);
    assert_eq!(l.outstanding_of(&id(10)), 1);

    // the same account seen again changes nothing; another at its address is refused
    assert_eq!(l.observe_holding_account(&full), Ok(()));
    assert_eq!(l.balance_of(&id(50)), 1);
    assert_eq!(
        l.observe_holding_account(&HoldingAccount { amount: 0, ..full }),
        Err(Error::AlreadyInitializedMismatched)
    );
    assert_eq!(
        l.observe_holding_account(&HoldingAccount { owner: id(9), ..full }),
        Err(Error::AlreadyInitializedMismatched)
    );
    assert_eq!(l.holding_account(&id(50)), Some(full));

    // a second unit, more than one unit, an unrecorded asset
    let second = HoldingAccount { address: id(52), mint: id(10), owner: id(5), amount: 1 };
    assert_eq!(l.observe_holding_account(&second), Err(Error::ExternalModuleRejection));
    assert!(l.holding_account(&id(52)).is_none());
    let many = HoldingAccount { address: id(53), mint: id(11), owner: id(5), amount: 2 };
    assert_eq!(l.observe_holding_account(&many), Err(Error::ExternalModuleRejection));
    assert!(l.holding_account(&id(53)).is_none());
    let unknown = HoldingAccount { address: id(54), mint: id(12), owner: id(5), amount: 0 };
    assert_eq!(l.observe_holding_account(&unknown), Err(Error::ExternalModuleRejection));
    assert!(l.holding_account(&id(54)).is_none());
    assert_eq!(l.outstanding_of(&id(10)), 1);
    assert_eq!(l.outstanding_of(&id(11)), 0);
}
