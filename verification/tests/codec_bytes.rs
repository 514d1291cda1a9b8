use nftmarketplace::codec::{decode_record, encode_record, push_u64_le, read_u64_le};
use nftmarketplace::machine::{create_escrow, CreateEscrow};
use nftmarketplace::records::{Escrow, EscrowStatus, Ident};

fn id(n: u64) -> Ident {
    Ident { w0: n, w1: 0, w2: 0, w3: 0 }
}

fn sample(buyer: Option<Ident>) -> Escrow {
    create_escrow(&CreateEscrow { seller: id(1), asset: id(2) }, 0x0102, buyer, 254)
}

#[test]
fn u64_bytes_round_trip() {
    let mut v: Vec<u8> = Vec::new();
    push_u64_le(&mut v, 0x0123456789abcdef);
    assert_eq!(v, vec![0xef, 0xcd, 0xab, 0x89, 0x67, 0x45, 0x23, 0x01]);
    assert_eq!(read_u64_le(&v, 0), 0x0123456789abcdef);
}

#[test]
fn encode_layout_is_fixed() {
    let e = sample(None);
    let b = encode_record(&e);
    assert_eq!(b.len(), 120);
    assert_eq!(&b[0..8], &[31, 213, 123, 187, 186, 22, 218, 155]);
    // asset id(2), little endian, at offset 8
    assert_eq!(b[8], 2);
    assert!(b[9..40].iter().all(|&x| x == 0));
    // seller id(1) at offset 40
    assert_eq!(b[40], 1);
    assert!(b[41..72].iter().all(|&x| x == 0));
    // no buyer: flag 0, 32 zero bytes
    assert_eq!(b[72], 0);
    assert!(b[73..105].iter().all(|&x| x == 0));
    // price 0x0102 at offset 105
    assert_eq!(&b[105..113], &[2, 1, 0, 0, 0, 0, 0, 0]);
    // nonce, status, padding
    assert_eq!(b[113], 254);
    assert_eq!(b[114], 0);
    assert_eq!(&b[115..120], &[0, 0, 0, 0, 0]);
}

#[test]
fn encode_sets_buyer_flag() {
    let e = sample(Some(id(7)));
    let b = encode_record(&e);
    assert_eq!(b[72], 1);
    assert_eq!(b[73], 7);
    assert!(b[74..105].iter().all(|&x| x == 0));
}

#[test]
fn records_survive_the_wire() {
    let cases = [sample(None), sample(Some(Ident { w0: 7, w1: 8, w2: 9, w3: u64::MAX }))];
    for e in cases {
        let b = encode_record(&e);
        let d = decode_record(&b).unwrap();
        assert_eq!(d.asset, e.asset);
        assert_eq!(d.seller, e.seller);
        assert_eq!(d.buyer, e.buyer);
        assert_eq!(d.price, e.price);
        assert_eq!(d.bump, e.bump);
        assert!(d.status == e.status);
        assert_eq!(d.reserved, e.reserved);
    }
}

#[test]
fn status_codes_survive_the_wire() {
    let statuses = [
        EscrowStatus::Pending,
        EscrowStatus::Deposited,
        EscrowStatus::Completed,
        EscrowStatus::Cancelled,
    ];
    for (i, s) in statuses.into_iter().enumerate() {
        let mut e = sample(None);
        e.status = s;
        let b = encode_record(&e);
        assert_eq!(b[114], i as u8);
        assert!(decode_record(&b).unwrap().status == s);
    }
}

#[test]
fn decode_refuses_damaged_bytes() {
    let e = sample(None);
    let good = encode_record(&e);
    assert!(decode_record(&good).is_some());

    let mut short = good.clone();
    short.pop();
    assert!(decode_record(&short).is_none());

    let mut bad_disc = good.clone();
    bad_disc[0] = 32;
    assert!(decode_record(&bad_disc).is_none());

    let mut bad_flag = good.clone();
    bad_flag[72] = 2;
    assert!(decode_record(&bad_flag).is_none());

    let mut bad_status = good.clone();
    bad_status[114] = 4;
    assert!(decode_record(&bad_status).is_none());

    let mut bad_padding = good.clone();
    bad_padding[119] = 1;
    assert!(decode_record(&bad_padding).is_none());

    // a buyer byte without the presence flag is not canonical
    let mut stray_buyer = good.clone();
    stray_buyer[80] = 5;
    assert!(decode_record(&stray_buyer).is_none());
}
