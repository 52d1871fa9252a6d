//! Laws of the marketplace, proved over the spec transitions of
//! [`crate::market`].  Each law quantifies over every well-formed state
//! and every input: none is about chosen values.

use vstd::prelude::*;

use crate::market::{
    spec_delist, spec_list, spec_mint, spec_mint_to, spec_price, spec_purchase,
    spec_purchase_finish, MarketView,
};
use crate::types::{AccountId, Balance, NftError, PaymentRequest, TokenView, PRICE_UNIT};

verus! {

/// Token ids are assigned sequentially with no gaps and no reuse: a token
/// `id` exists exactly when `1 <= id <= tokens.len()`, a successful mint
/// issues id `tokens.len() + 1` and leaves every earlier record as it
/// was, a failed mint issues nothing, and minting fails with
/// `CollectionIsFull` once the supply bound is reached.
pub proof fn lemma_mint_ids_sequential(
    s: MarketView,
    to: AccountId,
    transferred_value: Balance,
    fid: Seq<char>,
)
    requires
        s.wf(),
    ensures
        ({
            let (s2, r) = spec_mint_to(s, to, transferred_value, fid);
            &&& r is Ok ==> {
                &&& r->Ok_0 == s.tokens.len() + 1
                &&& s2.tokens.len() == s.tokens.len() + 1
                &&& s2.token(r->Ok_0) == (TokenView {
                    owner: to,
                    fid,
                    sale_price: None,
                    approved: None,
                })
                &&& forall|id: u64| s.has_token(id) ==> s2.token(id) == s.token(id)
            }
            &&& r is Err ==> s2.tokens == s.tokens
            &&& !s.locked() && transferred_value == s.price_per_mint && s.tokens.len()
                >= s.max_supply ==> r == Err::<u64, NftError>(NftError::CollectionIsFull)
        }),
{
}

/// Minting with a payment other than the mint price always fails with the
/// validation error carrying both amounts, and changes nothing: not the
/// issued-id counter, not a listing, not a record.
pub proof fn lemma_mint_bad_value_rejected(
    s: MarketView,
    to: AccountId,
    transferred_value: Balance,
    fid: Seq<char>,
)
    requires
        !s.locked(),
        transferred_value != s.price_per_mint,
    ensures
        spec_mint_to(s, to, transferred_value, fid) == (
            s,
            Err::<u64, NftError>(
                NftError::BadMintValue { required: s.price_per_mint, supplied: transferred_value },
            ),
        ),
        spec_mint(s, to, transferred_value, fid) == spec_mint_to(s, to, transferred_value, fid),
{
}

/// A token's content reference is set exactly once, at mint, and an
/// issued id is never reused: no transition removes a token record, and
/// every transition leaves the `fid` of every existing token unchanged.
pub proof fn lemma_fid_set_once_and_ids_never_reused(
    s: MarketView,
    caller: AccountId,
    to: AccountId,
    id: u64,
    transferred_value: Balance,
    fid: Seq<char>,
    price: Balance,
    transfer_succeeded: bool,
)
    requires
        s.wf(),
    ensures
        ({
            let after_mint = spec_mint_to(s, to, transferred_value, fid).0;
            let after_list = spec_list(s, caller, id, price).0;
            let after_delist = spec_delist(s, caller, id).0;
            let after_purchase = spec_purchase(s, caller, id, transferred_value).0;
            let after_finish = spec_purchase_finish(s, transfer_succeeded).0;
            &&& after_mint.tokens.len() >= s.tokens.len()
            &&& after_list.tokens.len() == s.tokens.len()
            &&& after_delist.tokens.len() == s.tokens.len()
            &&& after_purchase.tokens.len() == s.tokens.len()
            &&& after_finish.tokens.len() == s.tokens.len()
            &&& forall|t: u64|
                s.has_token(t) ==> #[trigger] after_mint.token(t).fid == s.token(t).fid
            &&& forall|t: u64|
                s.has_token(t) ==> #[trigger] after_list.token(t).fid == s.token(t).fid
            &&& forall|t: u64|
                s.has_token(t) ==> #[trigger] after_delist.token(t).fid == s.token(t).fid
            &&& forall|t: u64|
                s.has_token(t) ==> #[trigger] after_purchase.token(t).fid == s.token(t).fid
            &&& forall|t: u64|
                s.has_token(t) ==> #[trigger] after_finish.token(t).fid == s.token(t).fid
        }),
{
}

/// Listing and then reading the price returns the listed amount scaled by
/// the unit multiplier.
pub proof fn lemma_list_then_price(s: MarketView, caller: AccountId, id: u64, price: Balance)
    requires
        price * PRICE_UNIT <= u128::MAX,
        spec_list(s, caller, id, price).1 is Ok,
    ensures
        spec_price(spec_list(s, caller, id, price).0, id) == Ok::<Balance, NftError>(
            (price * PRICE_UNIT) as Balance,
        ),
{
}

/// Delisting and then reading the price fails with `NotForSale`.
pub proof fn lemma_delist_then_price(s: MarketView, caller: AccountId, id: u64)
    requires
        spec_delist(s, caller, id).1 is Ok,
    ensures
        spec_price(spec_delist(s, caller, id).0, id) == Err::<Balance, NftError>(
            NftError::NotForSale,
        ),
{
}

/// Only the current owner can list or delist a token: any other caller
/// fails with `NotTokenOwner` and the whole state, listings included, is
/// left unchanged.
pub proof fn lemma_non_owner_cannot_list_or_delist(
    s: MarketView,
    caller: AccountId,
    id: u64,
    price: Balance,
)
    requires
        s.has_token(id),
        s.token(id).owner != caller,
    ensures
        spec_list(s, caller, id, price) == (s, Err::<(), NftError>(NftError::NotTokenOwner)),
        spec_delist(s, caller, id) == (s, Err::<(), NftError>(NftError::NotTokenOwner)),
{
}

/// Settlement of a purchase.  When the first half succeeds, the payment
/// handed to the host is exactly the listed price, payable to the current
/// owner; after a successful payment the buyer is the new owner, the
/// listing and the old owner's approval are gone, and every other token
/// is untouched; after a failed payment the state is exactly the state
/// before the purchase began.  A purchase whose payment does not match
/// the listed price fails with both amounts and changes nothing.
pub proof fn lemma_purchase_settlement(
    s: MarketView,
    caller: AccountId,
    id: u64,
    transferred_value: Balance,
)
    requires
        s.wf(),
        !s.locked(),
    ensures
        ({
            let (s1, r) = spec_purchase(s, caller, id, transferred_value);
            r is Ok ==> {
                let (s2, r2) = spec_purchase_finish(s1, true);
                &&& r->Ok_0 == (PaymentRequest {
                    to: s.token(id).owner,
                    amount: s.token(id).sale_price->Some_0,
                })
                &&& transferred_value == s.token(id).sale_price->Some_0
                &&& r2 is Ok
                &&& s2.wf()
                &&& !s2.locked()
                &&& s2.owner_of(id) == Some(caller)
                &&& s2.sale_price(id) is None
                &&& s2.token(id).approved is None
                &&& s2.token(id).fid == s.token(id).fid
                &&& forall|other: u64|
                    s.has_token(other) && other != id ==> s2.token(other) == s.token(other)
                &&& s2.tokens.len() == s.tokens.len()
                &&& spec_purchase_finish(s1, false) == (
                    s,
                    Err::<(), NftError>(NftError::TransferNativeTokenFailed),
                )
            }
        }),
        s.has_token(id) && s.token(id).owner != caller && s.token(id).sale_price is Some
            && transferred_value != s.token(id).sale_price->Some_0 ==> spec_purchase(
            s,
            caller,
            id,
            transferred_value,
        ) == (
            s,
            Err::<PaymentRequest, NftError>(
                NftError::PriceNotMatch {
                    required: s.token(id).sale_price->Some_0,
                    supplied: transferred_value,
                },
            ),
        ),
{
    let (s1, r) = spec_purchase(s, caller, id, transferred_value);
    if r is Ok {
        assert(spec_purchase_finish(s1, false).0 =~= s);
    }
}

/// The guard is released on every exit path: whatever outcome the host
/// reports for the payment, settling an in-flight purchase leaves the
/// guard unlocked.
pub proof fn lemma_guard_released_on_every_exit(s: MarketView, transfer_succeeded: bool)
    requires
        s.locked(),
    ensures
        !spec_purchase_finish(s, transfer_succeeded).0.locked(),
{
}

/// A token's owner cannot purchase it: whatever the payment, the attempt
/// fails with `OwnToken` and changes nothing.
pub proof fn lemma_self_purchase_rejected(
    s: MarketView,
    caller: AccountId,
    id: u64,
    transferred_value: Balance,
)
    requires
        !s.locked(),
        s.owner_of(id) == Some(caller),
    ensures
        spec_purchase(s, caller, id, transferred_value) == (
            s,
            Err::<PaymentRequest, NftError>(NftError::OwnToken),
        ),
{
}

/// While a purchase awaits its external payment call, every guarded entry
/// point is rejected with `ReentrantCall` and changes nothing, so the
/// outer call resumes from exactly the state it left: a reentrant attempt
/// is indistinguishable from one that never occurred.
pub proof fn lemma_reentrant_calls_rejected(
    s: MarketView,
    caller: AccountId,
    to: AccountId,
    id: u64,
    transferred_value: Balance,
    fid: Seq<char>,
)
    requires
        s.locked(),
    ensures
        spec_mint(s, caller, transferred_value, fid) == (
            s,
            Err::<u64, NftError>(NftError::ReentrantCall),
        ),
        spec_mint_to(s, to, transferred_value, fid) == (
            s,
            Err::<u64, NftError>(NftError::ReentrantCall),
        ),
        spec_purchase(s, caller, id, transferred_value) == (
            s,
            Err::<PaymentRequest, NftError>(NftError::ReentrantCall),
        ),
{
}

} // verus!
