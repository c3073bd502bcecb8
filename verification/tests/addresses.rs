//! Derived addresses, held against the crates that derive them.
use anchor_lang::prelude::Pubkey as ChainKey;
use grindie::ops::Authority;
use grindie::pda::{associated_token_address, is_mpl_core, Pda};
use grindie::pubkey::Pubkey;

fn program() -> Pubkey {
    Pubkey { bytes: [11; 32] }
}

fn chain(key: &Pubkey) -> ChainKey {
    ChainKey::new_from_array(key.bytes)
}

fn all() -> Vec<(Pda, Vec<Vec<u8>>)> {
    let player = Pubkey { bytes: [9; 32] };
    let session_id = 0x0102_0304_0506_0708u64;
    let id = vec![8u8, 7, 6, 5, 4, 3, 2, 1];
    let own = |tag: &[u8]| vec![tag.to_vec(), vec![9u8; 32], id.clone()];
    vec![
        (Pda::Config, vec![b"config".to_vec()]),
        (Pda::Vault, vec![b"vault".to_vec()]),
        (Pda::Treasury, vec![b"treasury".to_vec()]),
        (Pda::Session { player, session_id }, own(b"session")),
        (Pda::Escrow { player, session_id }, own(b"escrow")),
        (Pda::NftReceipt { player, session_id }, own(b"nft")),
    ]
}

#[test]
fn seeds_are_a_tag_a_player_and_a_session() {
    for (pda, seeds) in all() {
        assert_eq!(pda.seed_bytes(), seeds);
    }
}

#[test]
fn signer_seeds_end_with_the_bump() {
    for (pda, seeds) in all() {
        let mut with_bump = seeds;
        with_bump.push(vec![253]);
        assert_eq!(pda.signer_seed_bytes(253), with_bump);
    }
}

#[test]
fn addresses_are_the_ones_of_the_chain() {
    for (pda, seeds) in all() {
        let parts: Vec<&[u8]> = seeds.iter().map(|s| s.as_slice()).collect();
        let (key, bump) = ChainKey::find_program_address(&parts, &chain(&program()));
        assert_eq!(pda.find(&program()), Some((Pubkey { bytes: key.to_bytes() }, bump)));
        assert_eq!(pda.create(bump, &program()), Some(Pubkey { bytes: key.to_bytes() }));
    }
}

#[test]
fn a_found_bump_creates_the_found_address() {
    for (pda, _) in all() {
        let (key, bump) = pda.find(&program()).unwrap();
        assert_eq!(pda.create(bump, &program()), Some(key));
        for higher in bump..u8::MAX {
            assert_eq!(pda.create(higher + 1, &program()), None);
        }
    }
}

#[test]
fn addresses_differ_by_account_and_by_program() {
    let found: Vec<Pubkey> = all().iter().map(|(p, _)| p.find(&program()).unwrap().0).collect();
    for i in 0..found.len() {
        for j in 0..i {
            assert!(found[i] != found[j]);
        }
    }
    let other = Pubkey { bytes: [12; 32] };
    assert!(Pda::Vault.find(&other).unwrap().0 != Pda::Vault.find(&program()).unwrap().0);
}

#[test]
fn associated_token_accounts_are_the_ones_of_the_chain() {
    let wallet = Pubkey { bytes: [21; 32] };
    let mint = Pubkey { bytes: [22; 32] };
    let token_program = Pubkey { bytes: [23; 32] };
    let expected =
        anchor_spl::associated_token::get_associated_token_address_with_program_id(
            &chain(&wallet),
            &chain(&mint),
            &chain(&token_program),
        );
    assert_eq!(
        associated_token_address(&wallet, &mint, &token_program),
        Some(Pubkey { bytes: expected.to_bytes() })
    );
}

#[test]
fn the_asset_program_is_known() {
    assert!(is_mpl_core(&Pubkey { bytes: mpl_core::ID.to_bytes() }));
    assert!(!is_mpl_core(&program()));
    assert_eq!(
        mpl_core::ID.to_bytes(),
        [
            175, 84, 171, 16, 189, 151, 165, 66, 160, 158, 247, 179, 152, 137, 221, 12, 211, 148,
            164, 204, 233, 223, 166, 205, 201, 126, 190, 45, 35, 91, 167, 72
        ]
    );
}

#[test]
fn the_associated_token_program_is_known() {
    let id = anchor_spl::associated_token::ID.to_bytes();
    assert_eq!(
        id,
        [
            140, 151, 37, 143, 78, 36, 137, 241, 187, 61, 16, 41, 20, 142, 13, 131, 11, 90, 19, 153,
            218, 255, 16, 132, 4, 142, 123, 216, 219, 233, 248, 89
        ]
    );
}

#[test]
fn authorities_sign_with_their_seeds() {
    let key = Pubkey { bytes: [5; 32] };
    let wallet = Authority::Wallet { key };
    assert_eq!(wallet.key(), key);
    assert_eq!(wallet.signer_seeds(), Vec::<Vec<u8>>::new());
    let vault = Authority::Program { key, pda: Pda::Vault, bump: 250 };
    assert_eq!(vault.key(), key);
    assert_eq!(vault.signer_seeds(), vec![b"vault".to_vec(), vec![250u8]]);
}

#[test]
fn keys_are_equal_by_their_bytes() {
    let mut bytes = [7u8; 32];
    let a = Pubkey { bytes };
    assert!(a == Pubkey { bytes });
    bytes[31] = 8;
    assert!(a != Pubkey { bytes });
}
