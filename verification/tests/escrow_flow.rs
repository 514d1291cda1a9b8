use nftmarketplace::custody::CustodyAuthority;
use nftmarketplace::machine::{buy_asset, cancel_escrow, close_escrow, create_escrow,
    deposit_asset, BuyAsset, CancelEscrow, CloseEscrow, CreateEscrow, DepositAsset};
use nftmarketplace::records::{Escrow, EscrowError, EscrowStatus, Ident};

fn id(n: u64) -> Ident {
    Ident { w0: n, w1: 0, w2: 0, w3: 0 }
}

fn fresh(price: u64, buyer: Option<Ident>) -> Escrow {
    create_escrow(&CreateEscrow { seller: id(1), asset: id(2) }, price, buyer, 254)
}

fn deposit_accounts() -> DepositAsset {
    DepositAsset { seller: id(1), asset: id(2), escrow: id(9), remaining: Vec::new() }
}

fn buy_accounts(buyer: Ident) -> BuyAsset {
    BuyAsset { buyer, asset: id(2), seller: id(1), escrow: id(9), remaining: Vec::new() }
}

fn cancel_accounts() -> CancelEscrow {
    CancelEscrow { seller: id(1), asset: id(2), escrow: id(9), remaining: Vec::new() }
}

#[test]
fn create_fixes_fields() {
    let e = fresh(1000, Some(id(7)));
    assert_eq!(e.price, 1000);
    assert_eq!(e.asset, id(2));
    assert_eq!(e.seller, id(1));
    assert_eq!(e.buyer, Some(id(7)));
    assert_eq!(e.bump, 254);
    assert!(e.status == EscrowStatus::Pending);
    assert_eq!(e.reserved, [0u8; 5]);
}

#[test]
fn default_status_is_pending() {
    assert!(EscrowStatus::default() == EscrowStatus::Pending);
}

#[test]
fn scenario_a_open_offer_sale() {
    // create(price=1000, buyer absent) -> deposit -> buy by X
    let mut e = fresh(1000, None);
    let t = deposit_asset(&mut e, &deposit_accounts()).unwrap();
    assert!(e.status == EscrowStatus::Deposited);
    assert_eq!(t.custodian, id(1));
    assert_eq!(t.new_owner, id(9));
    assert!(t.authority == CustodyAuthority::CustodianSignature);

    let x = id(42);
    let mut seller_balance: u64 = 0;
    let mut owner = t.new_owner;
    let (pay, t2) = buy_asset(&mut e, &buy_accounts(x)).unwrap();
    // the host applies the effects; mirror them here
    assert_eq!(pay.from, x);
    assert_eq!(pay.to, id(1));
    seller_balance += pay.amount;
    owner = t2.new_owner;
    assert_eq!(seller_balance, 1000);
    assert_eq!(owner, x);
    assert_eq!(t2.custodian, id(9));
    assert!(
        t2.authority == CustodyAuthority::RecordSeeds { asset: id(2), seller: id(1), bump: 254 }
    );
    assert!(e.status == EscrowStatus::Completed);
    assert_eq!(e.buyer, Some(x));
    assert_eq!(e.price, 1000);
}

#[test]
fn scenario_b_targeted_offer_rejects_stranger() {
    // create(price=500, buyer=Y) -> deposit -> buy by Z != Y
    let y = id(7);
    let z = id(8);
    let mut e = fresh(500, Some(y));
    deposit_asset(&mut e, &deposit_accounts()).unwrap();
    let r = buy_asset(&mut e, &buy_accounts(z));
    assert_eq!(r.unwrap_err(), EscrowError::BuyerMismatch);
    // no payment and no custody transfer were handed out, and the record
    // is untouched: nothing observable changed
    assert!(e.status == EscrowStatus::Deposited);
    assert_eq!(e.buyer, Some(y));
    assert_eq!(e.price, 500);
}

#[test]
fn targeted_offer_accepts_committed_buyer() {
    let y = id(7);
    let mut e = fresh(500, Some(y));
    deposit_asset(&mut e, &deposit_accounts()).unwrap();
    let (pay, t) = buy_asset(&mut e, &buy_accounts(y)).unwrap();
    assert_eq!(pay.amount, 500);
    assert_eq!(t.new_owner, y);
    assert!(e.status == EscrowStatus::Completed);
    assert_eq!(e.buyer, Some(y));
}

#[test]
fn scenario_c_cancel_returns_asset() {
    let mut e = fresh(300, Some(id(7)));
    deposit_asset(&mut e, &deposit_accounts()).unwrap();
    let t = cancel_escrow(&mut e, &cancel_accounts()).unwrap();
    assert_eq!(t.custodian, id(9));
    assert_eq!(t.new_owner, id(1));
    assert!(e.status == EscrowStatus::Cancelled);
    assert_eq!(e.buyer, None);
    let r = buy_asset(&mut e, &buy_accounts(id(7)));
    assert_eq!(r.unwrap_err(), EscrowError::EscrowNotFunded);
}

#[test]
fn scenario_d_close_pending_fails() {
    let e = fresh(100, None);
    let r = close_escrow(&e, &CloseEscrow { seller: id(1) });
    assert_eq!(r.unwrap_err(), EscrowError::EscrowStillActive);
}

#[test]
fn close_succeeds_from_terminal_states() {
    let mut e = fresh(100, None);
    deposit_asset(&mut e, &deposit_accounts()).unwrap();
    let mut f = e;
    buy_asset(&mut e, &buy_accounts(id(3))).unwrap();
    assert!(close_escrow(&e, &CloseEscrow { seller: id(1) }).is_ok());
    cancel_escrow(&mut f, &cancel_accounts()).unwrap();
    assert!(close_escrow(&f, &CloseEscrow { seller: id(1) }).is_ok());
}

#[test]
fn close_deposited_fails() {
    let mut e = fresh(100, None);
    deposit_asset(&mut e, &deposit_accounts()).unwrap();
    let r = close_escrow(&e, &CloseEscrow { seller: id(1) });
    assert_eq!(r.unwrap_err(), EscrowError::EscrowStillActive);
}

#[test]
fn deposit_requires_pending() {
    let mut e = fresh(100, None);
    deposit_asset(&mut e, &deposit_accounts()).unwrap();
    let r = deposit_asset(&mut e, &deposit_accounts());
    assert_eq!(r.unwrap_err(), EscrowError::EscrowNotPending);
    assert!(e.status == EscrowStatus::Deposited);
}

#[test]
fn deposit_checks_seller_then_asset() {
    let mut e = fresh(100, None);
    let wrong_seller = DepositAsset { seller: id(5), asset: id(2), escrow: id(9), remaining: Vec::new() };
    assert_eq!(deposit_asset(&mut e, &wrong_seller).unwrap_err(), EscrowError::InvalidSeller);
    let wrong_asset = DepositAsset { seller: id(1), asset: id(6), escrow: id(9), remaining: Vec::new() };
    assert_eq!(deposit_asset(&mut e, &wrong_asset).unwrap_err(), EscrowError::AssetMismatch);
    assert!(e.status == EscrowStatus::Pending);
}

#[test]
fn buy_checks_asset_then_seller() {
    let mut e = fresh(100, None);
    deposit_asset(&mut e, &deposit_accounts()).unwrap();
    let wrong_asset = BuyAsset { buyer: id(3), asset: id(6), seller: id(1), escrow: id(9), remaining: Vec::new() };
    assert_eq!(buy_asset(&mut e, &wrong_asset).unwrap_err(), EscrowError::AssetMismatch);
    let wrong_seller = BuyAsset { buyer: id(3), asset: id(2), seller: id(5), escrow: id(9), remaining: Vec::new() };
    assert_eq!(buy_asset(&mut e, &wrong_seller).unwrap_err(), EscrowError::InvalidSeller);
    assert!(e.status == EscrowStatus::Deposited);
}

#[test]
fn buy_requires_deposited() {
    let mut e = fresh(100, None);
    let r = buy_asset(&mut e, &buy_accounts(id(3)));
    assert_eq!(r.unwrap_err(), EscrowError::EscrowNotFunded);
}

#[test]
fn cancel_requires_deposited() {
    let mut e = fresh(100, None);
    let r = cancel_escrow(&mut e, &cancel_accounts());
    assert_eq!(r.unwrap_err(), EscrowError::EscrowNotFunded);
    let mut f = fresh(100, None);
    deposit_asset(&mut f, &deposit_accounts()).unwrap();
    buy_asset(&mut f, &buy_accounts(id(3))).unwrap();
    let r2 = cancel_escrow(&mut f, &cancel_accounts());
    assert_eq!(r2.unwrap_err(), EscrowError::EscrowNotFunded);
}

#[test]
fn cancel_checks_identities() {
    let mut e = fresh(100, None);
    deposit_asset(&mut e, &deposit_accounts()).unwrap();
    let wrong_asset = CancelEscrow { seller: id(1), asset: id(6), escrow: id(9), remaining: Vec::new() };
    assert_eq!(cancel_escrow(&mut e, &wrong_asset).unwrap_err(), EscrowError::AssetMismatch);
    let wrong_seller = CancelEscrow { seller: id(5), asset: id(2), escrow: id(9), remaining: Vec::new() };
    assert_eq!(cancel_escrow(&mut e, &wrong_seller).unwrap_err(), EscrowError::InvalidSeller);
}

#[test]
fn collection_reference_needs_two_accounts() {
    let mut e = fresh(100, None);
    let one = DepositAsset { seller: id(1), asset: id(2), escrow: id(9), remaining: vec![id(50)] };
    let t = deposit_asset(&mut e, &one).unwrap();
    assert_eq!(t.collection, None);

    let mut f = fresh(100, None);
    let two = DepositAsset {
        seller: id(1),
        asset: id(2),
        escrow: id(9),
        remaining: vec![id(50), id(51), id(52)],
    };
    let t2 = deposit_asset(&mut f, &two).unwrap();
    assert_eq!(t2.collection, Some(id(51)));
}
