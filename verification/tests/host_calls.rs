use anchor_lang::solana_program::pubkey::Pubkey;
use nftmarketplace::custody::{authority_seeds, custody_instruction, custody_signer_seeds,
    seed_label, CustodyAuthority, CustodyTransfer};
use nftmarketplace::records::Ident;
use nftmarketplace::settlement::{payment_instruction, Payment};

fn id(n: u64) -> Ident {
    Ident { w0: n, w1: 0, w2: 0, w3: 0 }
}

fn pubkey_of(id: &Ident) -> Pubkey {
    let mut b = [0u8; 32];
    b[0..8].copy_from_slice(&id.w0.to_le_bytes());
    b[8..16].copy_from_slice(&id.w1.to_le_bytes());
    b[16..24].copy_from_slice(&id.w2.to_le_bytes());
    b[24..32].copy_from_slice(&id.w3.to_le_bytes());
    Pubkey::new_from_array(b)
}

fn transfer(collection: Option<Ident>) -> CustodyTransfer {
    CustodyTransfer {
        asset: id(2),
        custodian: id(1),
        new_owner: id(42),
        collection,
        authority: CustodyAuthority::CustodianSignature,
    }
}

#[test]
fn custody_instruction_names_the_parties() {
    let ix = custody_instruction(&transfer(None));
    assert_eq!(ix.program_id, mpl_core::ID);
    assert_eq!(ix.accounts.len(), 7);
    assert_eq!(ix.accounts[0].pubkey, pubkey_of(&id(2)));
    // no collection reference: the placeholder stands in the slot
    assert_eq!(ix.accounts[1].pubkey, mpl_core::ID);
    assert_eq!(ix.accounts[2].pubkey, pubkey_of(&id(1)));
    assert!(ix.accounts[2].is_signer);
    assert_eq!(ix.accounts[4].pubkey, pubkey_of(&id(42)));
    // the transfer discriminator and an absent compression proof
    assert_eq!(ix.data, vec![14, 0]);
}

#[test]
fn custody_instruction_includes_collection() {
    let ix = custody_instruction(&transfer(Some(id(51))));
    assert_eq!(ix.accounts[1].pubkey, pubkey_of(&id(51)));
}

#[test]
fn payment_instruction_moves_exact_amount() {
    let p = Payment { from: id(42), to: id(1), amount: 1000 };
    let ix = payment_instruction(&p);
    assert_eq!(ix.program_id, anchor_lang::solana_program::system_program::ID);
    assert_eq!(ix.accounts.len(), 2);
    assert_eq!(ix.accounts[0].pubkey, pubkey_of(&id(42)));
    assert!(ix.accounts[0].is_signer);
    assert_eq!(ix.accounts[1].pubkey, pubkey_of(&id(1)));
    // the system transfer code, then the amount, all little endian
    assert_eq!(&ix.data[0..4], &[2, 0, 0, 0]);
    assert_eq!(&ix.data[4..12], &1000u64.to_le_bytes());
}

#[test]
fn seed_label_is_the_word_escrow() {
    assert_eq!(seed_label(), b"escrow".to_vec());
}

#[test]
fn authority_seeds_follow_the_derivation() {
    let seeds = authority_seeds(&id(2), &id(1), 254);
    assert_eq!(seeds.len(), 4);
    assert_eq!(seeds[0], b"escrow".to_vec());
    assert_eq!(seeds[1], pubkey_of(&id(2)).to_bytes().to_vec());
    assert_eq!(seeds[2], pubkey_of(&id(1)).to_bytes().to_vec());
    assert_eq!(seeds[3], vec![254]);
}

#[test]
fn signer_seeds_only_for_record_authority() {
    let plain = transfer(None);
    assert!(custody_signer_seeds(&plain).is_none());
    let record = CustodyTransfer {
        authority: CustodyAuthority::RecordSeeds { asset: id(2), seller: id(1), bump: 7 },
        ..plain
    };
    let seeds = custody_signer_seeds(&record).unwrap();
    assert_eq!(seeds, authority_seeds(&id(2), &id(1), 7));
}
