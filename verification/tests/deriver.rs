use anchor_lang::prelude::Pubkey;
use blueshift_anchor_vault::deriver;
use blueshift_anchor_vault::{resolve, Address, DerivationProof, VaultAddress, VaultError, VAULT_TAG};
use std::collections::HashSet;

const PROGRAM: [u8; 32] = [
    15, 30, 107, 20, 33, 192, 74, 7, 4, 49, 38, 92, 25, 197, 187, 238, 25, 146, 186, 232, 175, 209,
    205, 7, 142, 248, 175, 112, 71, 220, 17, 247,
];

fn program() -> Address {
    Address::new(PROGRAM)
}

fn counting_owner() -> Address {
    let mut bytes = [0u8; 32];
    let mut i: usize = 0;
    while i < 32 {
        bytes[i] = i as u8;
        i += 1;
    }
    Address::new(bytes)
}

/// A sequence of owner identities that never repeats within its period.
fn sampled_owner(seed: u64) -> Address {
    let mut state: u64 = seed.wrapping_mul(6364136223846793005).wrapping_add(1442695040888963407);
    let mut bytes = [0u8; 32];
    let mut i: usize = 0;
    while i < 32 {
        state = state.wrapping_mul(6364136223846793005).wrapping_add(1442695040888963407);
        bytes[i] = (state >> 33) as u8;
        i += 1;
    }
    bytes[0] = seed as u8;
    bytes[1] = (seed >> 8) as u8;
    Address::new(bytes)
}

#[test]
fn vault_tag_spells_vault() {
    assert_eq!(&VAULT_TAG, b"vault");
}

#[test]
fn address_keeps_its_bytes() {
    let owner = counting_owner();
    assert_eq!(owner.to_bytes()[0], 0u8);
    assert_eq!(owner.to_bytes()[31], 31u8);
    assert_eq!(Address::new(owner.to_bytes()), owner);
}

#[test]
fn derive_gives_the_known_address_for_the_counting_owner() {
    let vault = deriver::derive(&program(), &counting_owner()).unwrap();
    assert_eq!(
        vault.address.to_bytes(),
        [
            19, 37, 82, 94, 91, 74, 50, 24, 57, 238, 115, 208, 165, 224, 86, 49, 6, 0, 164, 15, 11,
            161, 139, 82, 242, 203, 150, 250, 108, 193, 124, 198
        ]
    );
    assert_eq!(vault.bump, 255u8);
}

#[test]
fn derive_gives_the_known_address_where_the_first_bumps_fail() {
    let vault = deriver::derive(&program(), &Address::new([1u8; 32])).unwrap();
    assert_eq!(
        vault.address.to_bytes(),
        [
            180, 203, 52, 80, 126, 222, 132, 238, 151, 106, 248, 83, 36, 81, 98, 238, 20, 242, 66,
            254, 0, 151, 164, 245, 161, 48, 178, 123, 196, 199, 80, 65
        ]
    );
    assert_eq!(vault.bump, 252u8);
}

#[test]
fn derive_gives_the_known_address_for_the_zero_owner() {
    let vault = deriver::derive(&program(), &Address::new([0u8; 32])).unwrap();
    assert_eq!(
        vault.address.to_bytes(),
        [
            137, 106, 99, 193, 116, 17, 72, 136, 206, 224, 194, 147, 72, 190, 250, 228, 22, 245, 26,
            40, 203, 150, 226, 95, 139, 238, 163, 164, 158, 239, 18, 154
        ]
    );
    assert_eq!(vault.bump, 253u8);
}

#[test]
fn derive_gives_the_known_address_for_the_all_ones_owner() {
    let vault = deriver::derive(&program(), &Address::new([255u8; 32])).unwrap();
    assert_eq!(
        vault.address.to_bytes(),
        [
            225, 39, 116, 84, 224, 136, 77, 75, 62, 240, 249, 184, 208, 88, 15, 74, 56, 136, 132, 138,
            93, 112, 225, 212, 101, 72, 31, 249, 35, 225, 127, 157
        ]
    );
    assert_eq!(vault.bump, 255u8);
}

#[test]
fn derive_is_not_the_identity() {
    let owner = counting_owner();
    let vault = deriver::derive(&program(), &owner).unwrap();
    assert_ne!(vault.address, owner);
    assert_ne!(vault.address, program());
}

#[test]
fn deriving_twice_gives_the_same_address_and_bump() {
    let mut seed: u64 = 0;
    while seed < 64 {
        let owner = sampled_owner(seed);
        let first = deriver::derive(&program(), &owner);
        let second = deriver::derive(&program(), &owner);
        assert_eq!(first, second);
        assert!(first.is_ok());
        seed += 1;
    }
}

#[test]
fn sampled_owners_get_distinct_vaults() {
    let mut owners: HashSet<[u8; 32]> = HashSet::new();
    let mut vaults: HashSet<[u8; 32]> = HashSet::new();
    let mut seed: u64 = 0;
    while seed < 400 {
        let owner = sampled_owner(seed);
        assert!(owners.insert(owner.to_bytes()));
        let vault = deriver::derive(&program(), &owner).unwrap();
        assert!(vaults.insert(vault.address.to_bytes()));
        seed += 1;
    }
    assert_eq!(vaults.len(), 400);
}

#[test]
fn two_owners_that_differ_in_one_bit_get_distinct_vaults() {
    let mut bytes = [0u8; 32];
    let first = deriver::derive(&program(), &Address::new(bytes)).unwrap();
    bytes[31] = 1;
    let second = deriver::derive(&program(), &Address::new(bytes)).unwrap();
    assert_ne!(first.address, second.address);
}

#[test]
fn the_same_owner_gets_another_vault_under_another_program() {
    let owner = counting_owner();
    let here = deriver::derive(&program(), &owner).unwrap();
    let there = deriver::derive(&Address::new([9u8; 32]), &owner).unwrap();
    assert_ne!(here.address, there.address);
}

#[test]
fn derive_agrees_with_the_program_address_search() {
    let program_key = Pubkey::new_from_array(PROGRAM);
    let mut seed: u64 = 0;
    while seed < 64 {
        let owner = sampled_owner(seed);
        let owner_bytes = owner.to_bytes();
        let (address, bump) = Pubkey::find_program_address(&[b"vault", &owner_bytes], &program_key);
        let vault = deriver::derive(&program(), &owner).unwrap();
        assert_eq!(vault.address.to_bytes(), address.to_bytes());
        assert_eq!(vault.bump, bump);
        seed += 1;
    }
}

#[test]
fn derived_addresses_have_no_signing_key() {
    let mut seed: u64 = 0;
    while seed < 64 {
        let vault = deriver::derive(&program(), &sampled_owner(seed)).unwrap();
        assert!(!Pubkey::new_from_array(vault.address.to_bytes()).is_on_curve());
        seed += 1;
    }
}

#[test]
fn resolve_names_an_exhausted_search() {
    assert_eq!(resolve(None), Err(VaultError::DerivationExhausted));
}

#[test]
fn resolve_keeps_what_was_found() {
    let found = resolve(Some(([7u8; 32], 254u8)));
    assert_eq!(found, Ok(VaultAddress { address: Address::new([7u8; 32]), bump: 254u8 }));
}

#[test]
fn proof_seeds_are_tag_owner_bump() {
    let owner = counting_owner();
    let vault = deriver::derive(&program(), &owner).unwrap();
    let proof = DerivationProof::new(owner, &vault);
    assert_eq!(proof.owner, owner);
    assert_eq!(proof.bump, vault.bump);
    let seeds = proof.seeds();
    assert_eq!(seeds.len(), 3);
    assert_eq!(seeds[0], b"vault".to_vec());
    assert_eq!(seeds[1], owner.to_bytes().to_vec());
    assert_eq!(seeds[2], vec![255u8]);
}

#[test]
fn proof_seeds_reproduce_the_vault_address() {
    let program_key = Pubkey::new_from_array(PROGRAM);
    let mut seed: u64 = 0;
    while seed < 32 {
        let owner = sampled_owner(seed);
        let vault = deriver::derive(&program(), &owner).unwrap();
        let seeds = DerivationProof::new(owner, &vault).seeds();
        let slices: Vec<&[u8]> = vec![&seeds[0], &seeds[1], &seeds[2]];
        let rebuilt = Pubkey::create_program_address(&slices, &program_key).unwrap();
        assert_eq!(rebuilt.to_bytes(), vault.address.to_bytes());
        seed += 1;
    }
}
