use nft_market::market::{balance, withdraw_finish, NftMarket};
use nft_market::types::{
    Approval, Event, NftError, PaymentRequest, PendingPurchase, Transfer, PRICE_UNIT,
};

const OWNER: u64 = 1;
const ALICE: u64 = 2;
const BOB: u64 = 3;
const CAROL: u64 = 4;

fn collection(max_supply: u64, price_per_mint: u128) -> NftMarket {
    NftMarket::new(
        OWNER,
        String::from("CESS NFT"),
        String::from("CESS"),
        String::from(""),
        max_supply,
        price_per_mint,
    )
}

#[test]
fn mint_assigns_sequential_ids() {
    let mut m = collection(3, 100);
    assert_eq!(m.last_token_id(), 0);
    assert_eq!(m.mint(ALICE, 100, String::from("a")), Ok(1));
    assert_eq!(m.mint(BOB, 100, String::from("b")), Ok(2));
    assert_eq!(m.mint(ALICE, 100, String::from("c")), Ok(3));
    assert_eq!(m.last_token_id(), 3);
    assert_eq!(m.owner_of(1), Some(ALICE));
    assert_eq!(m.owner_of(2), Some(BOB));
    assert_eq!(m.owner_of(3), Some(ALICE));
    assert_eq!(m.owner_of(4), None);
    assert_eq!(m.owner_of(0), None);
    // supply exhausted: the next mint fails and issues nothing
    assert_eq!(m.mint(BOB, 100, String::from("d")), Err(NftError::CollectionIsFull));
    assert_eq!(m.last_token_id(), 3);
}

#[test]
fn mint_requires_exact_payment() {
    let mut m = collection(3, 100);
    assert_eq!(
        m.mint(ALICE, 99, String::from("a")),
        Err(NftError::BadMintValue { required: 100, supplied: 99 }),
    );
    assert_eq!(
        m.mint(ALICE, 101, String::from("a")),
        Err(NftError::BadMintValue { required: 100, supplied: 101 }),
    );
    // not merely >=: overpaying is rejected too, and nothing was issued
    assert_eq!(m.last_token_id(), 0);
    assert_eq!(m.owner_of(1), None);
    assert_eq!(
        m.mint_to(BOB, 0, String::from("a")),
        Err(NftError::BadMintValue { required: 100, supplied: 0 }),
    );
    assert_eq!(m.last_token_id(), 0);
    assert!(m.events().is_empty());
}

#[test]
fn mint_to_assigns_recipient() {
    let mut m = collection(3, 100);
    assert_eq!(m.mint_to(CAROL, 100, String::from("f")), Ok(1));
    assert_eq!(m.owner_of(1), Some(CAROL));
    assert_eq!(
        m.events().as_slice(),
        &[Event::Transfer(Transfer { from: None, to: Some(CAROL), id: 1 })],
    );
}

#[test]
fn list_then_price_returns_scaled_amount() {
    let mut m = collection(3, 100);
    assert_eq!(m.mint(ALICE, 100, String::from("a")), Ok(1));
    assert_eq!(m.price(1), Err(NftError::NotForSale));
    assert_eq!(m.list(ALICE, 1, 50), Ok(()));
    assert_eq!(m.price(1), Ok(50 * PRICE_UNIT));
    // a second listing overwrites the price
    assert_eq!(m.list(ALICE, 1, 60), Ok(()));
    assert_eq!(m.price(1), Ok(60 * PRICE_UNIT));
}

#[test]
fn delist_then_price_fails_not_for_sale() {
    let mut m = collection(3, 100);
    assert_eq!(m.mint(ALICE, 100, String::from("a")), Ok(1));
    assert_eq!(m.delist(ALICE, 1), Err(NftError::NotForSale));
    assert_eq!(m.list(ALICE, 1, 50), Ok(()));
    assert_eq!(m.delist(ALICE, 1), Ok(()));
    assert_eq!(m.price(1), Err(NftError::NotForSale));
    assert_eq!(m.delist(ALICE, 99), Err(NftError::TokenNotExists));
}

#[test]
fn only_the_owner_lists_or_delists() {
    let mut m = collection(3, 100);
    assert_eq!(m.mint(ALICE, 100, String::from("a")), Ok(1));
    assert_eq!(m.list(BOB, 1, 50), Err(NftError::NotTokenOwner));
    assert_eq!(m.price(1), Err(NftError::NotForSale));
    assert_eq!(m.list(ALICE, 1, 50), Ok(()));
    assert_eq!(m.delist(BOB, 1), Err(NftError::NotTokenOwner));
    // the listing survived the non-owner attempt unchanged
    assert_eq!(m.price(1), Ok(50 * PRICE_UNIT));
}

#[test]
fn purchase_settles_payment_and_ownership() {
    let mut m = collection(3, 100);
    assert_eq!(m.mint(ALICE, 100, String::from("a")), Ok(1));
    assert_eq!(m.list(ALICE, 1, 50), Ok(()));

    let price = 50 * PRICE_UNIT;
    let mut alice_funds: u128 = 10 * PRICE_UNIT * 10;
    let mut bob_funds: u128 = 10 * PRICE_UNIT * 10;
    let mut contract_funds: u128 = 0;

    // the buyer's payment is attached to the call
    bob_funds -= price;
    contract_funds += price;
    let request = m.purchase(BOB, 1, price).unwrap();
    assert_eq!(request, PaymentRequest { to: ALICE, amount: price });
    // the host forwards the payment to the seller
    contract_funds -= request.amount;
    alice_funds += request.amount;
    assert_eq!(m.purchase_finish(true), Ok(()));

    assert_eq!(m.owner_of(1), Some(BOB));
    assert_eq!(m.price(1), Err(NftError::NotForSale));
    assert_eq!(alice_funds, 10 * PRICE_UNIT * 10 + price);
    assert_eq!(bob_funds, 10 * PRICE_UNIT * 10 - price);
    assert_eq!(contract_funds, 0);
    assert_eq!(
        m.events().as_slice(),
        &[
            Event::Transfer(Transfer { from: None, to: Some(ALICE), id: 1 }),
            Event::Transfer(Transfer { from: Some(ALICE), to: Some(BOB), id: 1 }),
        ],
    );
}

#[test]
fn purchase_with_wrong_payment_changes_nothing() {
    let mut m = collection(3, 100);
    assert_eq!(m.mint(ALICE, 100, String::from("a")), Ok(1));
    assert_eq!(m.list(ALICE, 1, 50), Ok(()));
    let price = 50 * PRICE_UNIT;
    assert_eq!(
        m.purchase(BOB, 1, price - 1),
        Err(NftError::PriceNotMatch { required: price, supplied: price - 1 }),
    );
    assert_eq!(
        m.purchase(BOB, 1, price + 1),
        Err(NftError::PriceNotMatch { required: price, supplied: price + 1 }),
    );
    assert_eq!(m.owner_of(1), Some(ALICE));
    assert_eq!(m.price(1), Ok(price));
    assert!(m.in_flight().is_none());
}

#[test]
fn purchase_of_unlisted_or_missing_token_fails() {
    let mut m = collection(3, 100);
    assert_eq!(m.mint(ALICE, 100, String::from("a")), Ok(1));
    assert_eq!(m.purchase(BOB, 1, 50), Err(NftError::NotForSale));
    assert_eq!(m.purchase(BOB, 2, 50), Err(NftError::TokenNotExists));
}

#[test]
fn failed_payment_aborts_the_purchase() {
    let mut m = collection(3, 100);
    assert_eq!(m.mint(ALICE, 100, String::from("a")), Ok(1));
    assert_eq!(m.list(ALICE, 1, 50), Ok(()));
    let price = 50 * PRICE_UNIT;
    let request = m.purchase(BOB, 1, price).unwrap();
    assert_eq!(request, PaymentRequest { to: ALICE, amount: price });
    // the host reports that the payment to the seller failed
    assert_eq!(m.purchase_finish(false), Err(NftError::TransferNativeTokenFailed));
    assert_eq!(m.owner_of(1), Some(ALICE));
    assert_eq!(m.price(1), Ok(price));
    assert!(m.in_flight().is_none());
}

#[test]
fn self_purchase_always_fails() {
    let mut m = collection(3, 100);
    assert_eq!(m.mint(ALICE, 100, String::from("a")), Ok(1));
    assert_eq!(m.list(ALICE, 1, 50), Ok(()));
    let price = 50 * PRICE_UNIT;
    assert_eq!(m.purchase(ALICE, 1, price), Err(NftError::OwnToken));
    assert_eq!(m.purchase(ALICE, 1, 0), Err(NftError::OwnToken));
    assert_eq!(m.purchase(ALICE, 1, price + 7), Err(NftError::OwnToken));
    assert_eq!(m.owner_of(1), Some(ALICE));
    assert_eq!(m.price(1), Ok(price));
}

#[test]
fn reentrant_calls_are_rejected() {
    let mut m = collection(3, 100);
    assert_eq!(m.mint(ALICE, 100, String::from("a")), Ok(1));
    assert_eq!(m.list(ALICE, 1, 50), Ok(()));
    let price = 50 * PRICE_UNIT;
    let request = m.purchase(BOB, 1, price).unwrap();
    assert_eq!(request, PaymentRequest { to: ALICE, amount: price });

    // a payment-transfer callback re-invokes the guarded entry points
    assert_eq!(m.mint(CAROL, 100, String::from("x")), Err(NftError::ReentrantCall));
    assert_eq!(m.mint_to(CAROL, 100, String::from("x")), Err(NftError::ReentrantCall));
    assert_eq!(m.purchase(CAROL, 1, price), Err(NftError::ReentrantCall));

    // the outer call resumes as if the attempts never occurred
    assert_eq!(m.purchase_finish(true), Ok(()));
    assert_eq!(m.owner_of(1), Some(BOB));
    assert_eq!(m.price(1), Err(NftError::NotForSale));
    assert_eq!(m.last_token_id(), 1);
    assert!(m.in_flight().is_none());

    // the guard is released: guarded entry points work again
    assert_eq!(m.mint(CAROL, 100, String::from("x")), Ok(2));
}

#[test]
fn token_uri_concatenates_base_and_fid() {
    let mut m = NftMarket::new(
        OWNER,
        String::from("n"),
        String::from("s"),
        String::from("ipfs://"),
        3,
        100,
    );
    assert_eq!(m.mint(ALICE, 100, String::from("file-123")), Ok(1));
    assert_eq!(m.token_uri(1), Ok(String::from("ipfs://file-123")));
    assert_eq!(m.token_uri(2), Err(NftError::TokenNotExists));
    assert_eq!(m.token_uri(0), Err(NftError::TokenNotExists));
    assert_eq!(m.set_base_uri(OWNER, String::from("https://cess.cloud/")), Ok(()));
    assert_eq!(m.token_uri(1), Ok(String::from("https://cess.cloud/file-123")));
}

#[test]
fn administrative_setters_are_owner_only() {
    let mut m = collection(3, 100);
    assert_eq!(m.set_base_uri(ALICE, String::from("x")), Err(NftError::CallerIsNotOwner));
    assert_eq!(m.set_max_supply(ALICE, 10), Err(NftError::CallerIsNotOwner));
    assert_eq!(m.max_supply(), 3);
    assert_eq!(m.set_max_supply(OWNER, 1), Ok(()));
    assert_eq!(m.max_supply(), 1);
    assert_eq!(m.mint(ALICE, 100, String::from("a")), Ok(1));
    // the lowered bound is now exhausted
    assert_eq!(m.mint(BOB, 100, String::from("b")), Err(NftError::CollectionIsFull));
}

#[test]
fn withdraw_is_owner_only_and_pays_the_available_balance() {
    let m = collection(3, 100);
    assert_eq!(m.withdraw(ALICE, 1000, 10), Err(NftError::CallerIsNotOwner));
    assert_eq!(m.withdraw(OWNER, 1000, 10), Ok(PaymentRequest { to: OWNER, amount: 990 }));
    // the reserved minimum floors the amount at zero
    assert_eq!(m.withdraw(OWNER, 5, 10), Ok(PaymentRequest { to: OWNER, amount: 0 }));
    assert_eq!(withdraw_finish(true), Ok(()));
    assert_eq!(withdraw_finish(false), Err(NftError::WithdrawalFailed));
}

#[test]
fn available_balance_floors_at_zero() {
    assert_eq!(balance(1000, 10), 990);
    assert_eq!(balance(10, 10), 0);
    assert_eq!(balance(5, 10), 0);
    assert_eq!(balance(0, 0), 0);
}

#[test]
fn purchase_clears_the_sellers_approval() {
    let mut m = collection(3, 100);
    assert_eq!(m.mint(ALICE, 100, String::from("a")), Ok(1));
    assert_eq!(m.approve(BOB, 1, CAROL), Err(NftError::NotTokenOwner));
    assert_eq!(m.approve(ALICE, 1, CAROL), Ok(()));
    assert_eq!(m.approved_of(1), Some(CAROL));
    assert_eq!(m.list(ALICE, 1, 50), Ok(()));
    let price = 50 * PRICE_UNIT;
    m.purchase(BOB, 1, price).unwrap();
    assert_eq!(m.purchase_finish(true), Ok(()));
    assert_eq!(m.approved_of(1), None);
    assert!(m.events().contains(
        &Event::Approval(Approval { from: ALICE, to: CAROL, id: Some(1), approved: true }),
    ));
}

#[test]
fn check_helpers_report_the_exact_cause() {
    let mut m = collection(2, 100);
    assert_eq!(m.check_value(100), Ok(()));
    assert_eq!(m.check_value(7), Err(NftError::BadMintValue { required: 100, supplied: 7 }));
    assert_eq!(m.check_owner(ALICE, 1), Err(NftError::TokenNotExists));
    assert_eq!(m.token_exists(1), Err(NftError::TokenNotExists));
    assert_eq!(m.mint(ALICE, 100, String::from("a")), Ok(1));
    assert_eq!(m.token_exists(1), Ok(()));
    assert_eq!(m.check_owner(ALICE, 1), Ok(()));
    assert_eq!(m.check_owner(BOB, 1), Err(NftError::NotTokenOwner));
    assert_eq!(m.mint(BOB, 100, String::from("b")), Ok(2));
    // both ids issued: the payment check now reports a full collection
    assert_eq!(m.check_value(100), Err(NftError::CollectionIsFull));
    assert_eq!(m.check_value(7), Err(NftError::BadMintValue { required: 100, supplied: 7 }));
}

#[test]
fn in_flight_records_the_purchase_under_way() {
    let mut m = collection(2, 100);
    assert_eq!(m.mint(ALICE, 100, String::from("a")), Ok(1));
    assert_eq!(m.list(ALICE, 1, 2), Ok(()));
    assert_eq!(m.in_flight(), None);
    let price = 2 * PRICE_UNIT;
    m.purchase(BOB, 1, price).unwrap();
    assert_eq!(
        m.in_flight(),
        Some(PendingPurchase { id: 1, buyer: BOB, seller: ALICE, price }),
    );
    assert_eq!(m.purchase_finish(true), Ok(()));
    assert_eq!(m.in_flight(), None);
}

#[test]
fn error_names_match_their_kinds() {
    assert_eq!(NftError::BadMintValue { required: 1, supplied: 2 }.as_str(), "BadMintValue");
    assert_eq!(NftError::CollectionIsFull.as_str(), "CollectionIsFull");
    assert_eq!(NftError::WithdrawalFailed.as_str(), "WithdrawalFailed");
    assert_eq!(NftError::NotTokenOwner.as_str(), "NotTokenOwner");
    assert_eq!(NftError::NotForSale.as_str(), "NotForSale");
    assert_eq!(NftError::OwnToken.as_str(), "OwnToken");
    assert_eq!(NftError::PriceNotMatch { required: 1, supplied: 2 }.as_str(), "PriceNotMatch");
    assert_eq!(
        NftError::TransferNativeTokenFailed.as_str(),
        "TransferNativeTokenFailed",
    );
    assert_eq!(NftError::TokenNotExists.as_str(), "TokenNotExists");
    assert_eq!(NftError::CallerIsNotOwner.as_str(), "CallerIsNotOwner");
    assert_eq!(NftError::ReentrantCall.as_str(), "ReentrantCall");
}

#[test]
fn example_scenario() {
    // collection with max_supply = 2 and price_per_mint = 100
    let mut m = collection(2, 100);
    let mut a_funds: u128 = 100 * PRICE_UNIT;
    let mut b_funds: u128 = 100 * PRICE_UNIT;
    let mut c_funds: u128 = 100 * PRICE_UNIT;
    let mut contract_funds: u128 = 0;

    // mint with payment 100: token 1, owner A
    a_funds -= 100;
    contract_funds += 100;
    assert_eq!(m.mint(ALICE, 100, String::from("fid-1")), Ok(1));
    assert_eq!(m.owner_of(1), Some(ALICE));

    // mint with payment 100: token 2, owner B
    b_funds -= 100;
    contract_funds += 100;
    assert_eq!(m.mint(BOB, 100, String::from("fid-2")), Ok(2));
    assert_eq!(m.owner_of(2), Some(BOB));

    // a third mint fails: the collection is full
    assert_eq!(m.mint(CAROL, 100, String::from("fid-3")), Err(NftError::CollectionIsFull));

    // A lists token 1 at price 50: stored as 50 * 10^12
    assert_eq!(m.list(ALICE, 1, 50), Ok(()));
    assert_eq!(m.price(1), Ok(50 * PRICE_UNIT));

    // C purchases token 1 paying 50 * 10^12
    let price = 50 * PRICE_UNIT;
    c_funds -= price;
    contract_funds += price;
    let request = m.purchase(CAROL, 1, price).unwrap();
    contract_funds -= request.amount;
    a_funds += request.amount;
    assert_eq!(m.purchase_finish(true), Ok(()));

    assert_eq!(m.owner_of(1), Some(CAROL));
    assert_eq!(a_funds, 100 * PRICE_UNIT - 100 + price);
    assert_eq!(m.price(1), Err(NftError::NotForSale));
    assert_eq!(b_funds, 100 * PRICE_UNIT - 100);
    assert_eq!(c_funds, 100 * PRICE_UNIT - price);
    assert_eq!(contract_funds, 200);

    // B attempts to delist token 1: B never owned it
    assert_eq!(m.delist(BOB, 1), Err(NftError::NotTokenOwner));
}
