use anchor_lang::prelude::Pubkey;
use nft_transfer::address::Address;
use nft_transfer::capability::SigningCapability;
use nft_transfer::derivation::{
    delegate_authority, delegate_label_bytes, edition_address, edition_label_bytes,
    holding_address, metadata_address, metadata_label_bytes,
};
use std::str::FromStr;

fn key(a: &Address) -> Pubkey {
    Pubkey::new_from_array(a.to_bytes())
}

fn addr(k: &Pubkey) -> Address {
    Address::new(k.to_bytes())
}

fn program() -> Address {
    addr(&Pubkey::from_str("BaC8Qr44DV9z6Qzk2Xpdn9BQy6qBB5AFS7uyoJ6VPGG4").unwrap())
}

#[test]
fn labels_are_the_ascii_words() {
    assert_eq!(delegate_label_bytes(), b"pdakey".to_vec());
    assert_eq!(metadata_label_bytes(), b"metadata".to_vec());
    assert_eq!(edition_label_bytes(), b"edition".to_vec());
}

#[test]
fn address_round_trips_and_compares() {
    let a = Address::new([9u8; 32]);
    let b = Address::new([9u8; 32]);
    let mut other = [9u8; 32];
    other[31] = 8;
    let c = Address::new(other);
    assert_eq!(a.to_bytes(), [9u8; 32]);
    assert_eq!(a.to_seed(), vec![9u8; 32]);
    assert!(a.same(&b));
    assert!(!a.same(&c));
    assert!(!c.same(&a));
}

#[test]
fn derive_matches_the_ledger_derivation() {
    let p = program();
    let seeds = vec![b"vault".to_vec(), vec![1u8, 2, 3]];
    let (a, bump) = nft_transfer::derivation::derive(&seeds, &p).unwrap();
    let (k, b) = Pubkey::find_program_address(&[b"vault", &[1u8, 2, 3]], &key(&p));
    assert_eq!(key(&a), k);
    assert_eq!(bump, b);
    assert!(!a.same(&p));
    assert!(!key(&a).is_on_curve());
}

#[test]
fn derive_is_deterministic() {
    let p = program();
    for n in 0u8..20 {
        let seeds = vec![vec![n; (n as usize) + 1], b"x".to_vec()];
        let again = vec![vec![n; (n as usize) + 1], b"x".to_vec()];
        let first = nft_transfer::derivation::derive(&seeds, &p).unwrap();
        let second = nft_transfer::derivation::derive(&again, &p).unwrap();
        assert!(first.0.same(&second.0));
        assert_eq!(first.1, second.1);
    }
}

#[test]
fn derive_depends_on_seeds_and_namespace() {
    let p = program();
    let q = Address::new([3u8; 32]);
    let one = nft_transfer::derivation::derive(&vec![b"a".to_vec()], &p).unwrap();
    let two = nft_transfer::derivation::derive(&vec![b"b".to_vec()], &p).unwrap();
    let three = nft_transfer::derivation::derive(&vec![b"a".to_vec()], &q).unwrap();
    assert!(!one.0.same(&two.0));
    assert!(!one.0.same(&three.0));
}

#[test]
fn derive_fails_on_seeds_that_the_ledger_refuses() {
    let p = program();
    assert!(nft_transfer::derivation::derive(&vec![vec![0u8; 33]], &p).is_none());
    let many: Vec<Vec<u8>> = (0u8..16).map(|i| vec![i]).collect();
    assert!(nft_transfer::derivation::derive(&many, &p).is_none());
    let most: Vec<Vec<u8>> = (0u8..15).map(|i| vec![i]).collect();
    assert!(nft_transfer::derivation::derive(&most, &p).is_some());
    assert!(nft_transfer::derivation::derive(&vec![vec![0u8; 32]], &p).is_some());
    assert!(nft_transfer::derivation::derive(&Vec::new(), &p).is_some());
}

#[test]
fn delegate_authority_is_derived_from_the_fixed_label() {
    let p = program();
    let (a, bump) = delegate_authority(&p).unwrap();
    let (k, b) = Pubkey::find_program_address(&[b"pdakey"], &key(&p));
    assert_eq!(key(&a), k);
    assert_eq!(bump, b);
    let (again, bump_again) = delegate_authority(&p).unwrap();
    assert!(a.same(&again));
    assert_eq!(bump, bump_again);
}

#[test]
fn metadata_and_edition_addresses_are_those_of_the_registry() {
    let registry = addr(&anchor_spl::metadata::ID);
    let mint = Address::new([42u8; 32]);
    let m = metadata_address(&registry, &mint).unwrap();
    let e = edition_address(&registry, &mint).unwrap();
    let (mk, _) = anchor_spl::metadata::mpl_token_metadata::accounts::Metadata::find_pda(&key(&mint));
    let (ek, _) =
        anchor_spl::metadata::mpl_token_metadata::accounts::MasterEdition::find_pda(&key(&mint));
    assert_eq!(key(&m), mk);
    assert_eq!(key(&e), ek);
    assert!(!m.same(&e));
}

#[test]
fn holding_address_is_the_associated_token_address() {
    let custody = addr(&anchor_spl::token::ID);
    let associated = addr(&anchor_spl::associated_token::ID);
    let wallet = Address::new([5u8; 32]);
    let mint = Address::new([6u8; 32]);
    let a = holding_address(&wallet, &mint, &custody, &associated).unwrap();
    let k = anchor_spl::associated_token::get_associated_token_address(&key(&wallet), &key(&mint));
    assert_eq!(key(&a), k);
    let other = holding_address(&mint, &wallet, &custody, &associated).unwrap();
    assert!(!a.same(&other));
}

#[test]
fn capability_signs_as_the_delegate_with_label_and_bump() {
    let p = program();
    let cap = SigningCapability::synthesize(&p).unwrap();
    let (a, bump) = delegate_authority(&p).unwrap();
    assert!(cap.signer().same(&a));
    assert!(cap.issuer().same(&p));
    assert_eq!(cap.seeds(), vec![b"pdakey".to_vec(), vec![bump]]);
    let made = Pubkey::create_program_address(&[b"pdakey", &[bump]], &key(&p)).unwrap();
    assert_eq!(made, key(&a));
}

#[test]
fn derived_addresses_have_their_known_values() {
    let p = program();
    let (a, bump) = delegate_authority(&p).unwrap();
    assert_eq!(key(&a).to_string(), "C69wp8xynKQFDcaDzGLV3969d6rQmjWMcLhQ2hohhTJH");
    assert_eq!(bump, 254);
    let registry = addr(&anchor_spl::metadata::ID);
    let mint = Address::new([42u8; 32]);
    let m = metadata_address(&registry, &mint).unwrap();
    let e = edition_address(&registry, &mint).unwrap();
    assert_eq!(key(&m).to_string(), "G9hd14WJEHz4oiyFMkHm3aQHM8dyYFvzuYZnbcaVGtRu");
    assert_eq!(key(&e).to_string(), "HeroVh75kivLE7QKg9FdJkZcNBQC3LR4yj4onKfdPDW");
    let custody = addr(&anchor_spl::token::ID);
    let associated = addr(&anchor_spl::associated_token::ID);
    let h = holding_address(&Address::new([5u8; 32]), &mint, &custody, &associated).unwrap();
    assert_eq!(key(&h).to_string(), "DQwdoPCia46h7ZhEpSdvBZBsrTEwGkArkaaZVY84x6Kp");
}
