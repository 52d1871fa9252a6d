//! The marketplace ledger and its operations.
//!
//! [`NftMarket`] is one aggregate owning a sub-structure per concern: the
//! collection configuration ([`NftData`]), the token registry (one record
//! per issued token), the access-control owner, the collection metadata,
//! the reentrancy guard, and the recorded notifications.
//!
//! Every state-changing operation is specified twice: a `spec_*` function
//! gives the transition on the mathematical view, and the executable
//! method ensures that the pair of its final state and its result equals
//! that transition.  The laws in [`crate::laws`] are proved over the
//! transitions alone.

use vstd::prelude::*;

use crate::types::{
    AccountId, Approval, Balance, Event, NftError, PaymentRequest, PendingPurchase, Token,
    TokenView, Transfer, PRICE_UNIT,
};

verus! {

/// The collection configuration: a singleton, mutated only by mints (the
/// counter) and by the owner-only setter (the supply bound).
pub struct NftData {
    /// The id last issued; ids are assigned as 1, 2, 3, ...
    pub last_token_id: u64,
    /// Opaque identifier of the metadata namespace.
    pub collection_id: u32,
    /// Upper bound on the number of issued tokens.
    pub max_supply: u64,
    /// The exact payment a mint must attach.
    pub price_per_mint: Balance,
}

/// The mathematical value of a whole [`NftMarket`].  Token `id` exists
/// iff `1 <= id <= tokens.len()`, and its record is `tokens[id - 1]`.
#[verifier::ext_equal]
pub struct MarketView {
    pub tokens: Seq<TokenView>,
    pub collection_id: u32,
    pub max_supply: u64,
    pub price_per_mint: Balance,
    pub owner: AccountId,
    pub name: Seq<char>,
    pub symbol: Seq<char>,
    pub base_uri: Seq<char>,
    pub pending: Option<PendingPurchase>,
    pub events: Seq<Event>,
}

impl MarketView {
    /// Token ids run 1 ..= tokens.len() with no gaps and no reuse.
    pub open spec fn has_token(self, id: u64) -> bool {
        1 <= id && id <= self.tokens.len()
    }

    /// The record of token `id`.
    pub open spec fn token(self, id: u64) -> TokenView
        recommends
            self.has_token(id),
    {
        self.tokens[id - 1]
    }

    /// The current owner of token `id`, if the token exists.
    pub open spec fn owner_of(self, id: u64) -> Option<AccountId> {
        if self.has_token(id) {
            Some(self.token(id).owner)
        } else {
            None
        }
    }

    /// The stored (already scaled) sale price of token `id`, if listed.
    pub open spec fn sale_price(self, id: u64) -> Option<Balance> {
        if self.has_token(id) {
            self.token(id).sale_price
        } else {
            None
        }
    }

    /// The reentrancy guard: locked exactly while a purchase awaits its
    /// external payment call.
    pub open spec fn locked(self) -> bool {
        self.pending is Some
    }

    /// Well-formedness of the view: a pending purchase speaks of an
    /// existing token, of its current owner as the seller, of a distinct
    /// buyer, and the supply fits the id type.
    pub open spec fn wf(self) -> bool {
        &&& self.tokens.len() <= u64::MAX
        &&& match self.pending {
            Some(p) => {
                &&& self.has_token(p.id)
                &&& self.token(p.id).owner == p.seller
                &&& p.buyer != p.seller
            },
            None => true,
        }
    }
}

/// Outcome of the checks a mint makes on its attached payment: the payment
/// must equal the mint price exactly, and the collection must not be full.
pub open spec fn spec_check_value(s: MarketView, transferred_value: Balance) -> Option<NftError> {
    if transferred_value != s.price_per_mint {
        Some(NftError::BadMintValue { required: s.price_per_mint, supplied: transferred_value })
    } else if s.tokens.len() >= s.max_supply {
        Some(NftError::CollectionIsFull)
    } else {
        None
    }
}

/// Outcome of the check that `caller` is the current owner of token `id`.
pub open spec fn spec_check_owner(s: MarketView, caller: AccountId, id: u64) -> Option<NftError> {
    if !s.has_token(id) {
        Some(NftError::TokenNotExists)
    } else if s.token(id).owner != caller {
        Some(NftError::NotTokenOwner)
    } else {
        None
    }
}

/// Transition of a mint assigning the token to `to`: the next sequential
/// id is issued, the content reference is stored, no listing exists yet,
/// and a transfer notification from no one is recorded.
pub open spec fn spec_mint_to(
    s: MarketView,
    to: AccountId,
    transferred_value: Balance,
    fid: Seq<char>,
) -> (MarketView, Result<u64, NftError>) {
    if s.locked() {
        (s, Err(NftError::ReentrantCall))
    } else {
        match spec_check_value(s, transferred_value) {
            Some(e) => (s, Err(e)),
            None => {
                let id = (s.tokens.len() + 1) as u64;
                (
                    MarketView {
                        tokens: s.tokens.push(
                            TokenView { owner: to, fid, sale_price: None, approved: None },
                        ),
                        events: s.events.push(
                            Event::Transfer(Transfer { from: None, to: Some(to), id }),
                        ),
                        ..s
                    },
                    Ok(id),
                )
            },
        }
    }
}

/// Transition of a mint assigning the token to the caller itself.
pub open spec fn spec_mint(
    s: MarketView,
    caller: AccountId,
    transferred_value: Balance,
    fid: Seq<char>,
) -> (MarketView, Result<u64, NftError>) {
    spec_mint_to(s, caller, transferred_value, fid)
}

/// Transition of listing token `id` for sale: the owner stores the price
/// scaled by [`PRICE_UNIT`], overwriting any earlier listing.
pub open spec fn spec_list(
    s: MarketView,
    caller: AccountId,
    id: u64,
    price: Balance,
) -> (MarketView, Result<(), NftError>) {
    match spec_check_owner(s, caller, id) {
        Some(e) => (s, Err(e)),
        None => (
            MarketView {
                tokens: s.tokens.update(
                    id - 1,
                    TokenView { sale_price: Some((price * PRICE_UNIT) as Balance), ..s.token(id) },
                ),
                ..s
            },
            Ok(()),
        ),
    }
}

/// Transition of removing the sale listing of token `id`.
pub open spec fn spec_delist(s: MarketView, caller: AccountId, id: u64) -> (
    MarketView,
    Result<(), NftError>,
) {
    match spec_check_owner(s, caller, id) {
        Some(e) => (s, Err(e)),
        None => {
            if s.token(id).sale_price is None {
                (s, Err(NftError::NotForSale))
            } else {
                (
                    MarketView {
                        tokens: s.tokens.update(
                            id - 1,
                            TokenView { sale_price: None, ..s.token(id) },
                        ),
                        ..s
                    },
                    Ok(()),
                )
            }
        },
    }
}

/// The stored sale price of token `id`, or `NotForSale`.
pub open spec fn spec_price(s: MarketView, id: u64) -> Result<Balance, NftError> {
    match s.sale_price(id) {
        Some(p) => Ok(p),
        None => Err(NftError::NotForSale),
    }
}

/// The URI of token `id`: the collection's base URI followed by the
/// token's content reference.
pub open spec fn spec_token_uri(s: MarketView, id: u64) -> Result<Seq<char>, NftError> {
    if s.has_token(id) {
        Ok(s.base_uri + s.token(id).fid)
    } else {
        Err(NftError::TokenNotExists)
    }
}

/// Transition of the first half of a purchase, up to the external payment
/// call: all checks pass, the guard locks, and the payment the host must
/// forward to the seller is returned.  No ledger record changes yet.
pub open spec fn spec_purchase(
    s: MarketView,
    caller: AccountId,
    id: u64,
    transferred_value: Balance,
) -> (MarketView, Result<PaymentRequest, NftError>) {
    if s.locked() {
        (s, Err(NftError::ReentrantCall))
    } else if !s.has_token(id) {
        (s, Err(NftError::TokenNotExists))
    } else if s.token(id).owner == caller {
        (s, Err(NftError::OwnToken))
    } else {
        match s.token(id).sale_price {
            None => (s, Err(NftError::NotForSale)),
            Some(price) => {
                if transferred_value != price {
                    (
                        s,
                        Err(NftError::PriceNotMatch { required: price, supplied: transferred_value }),
                    )
                } else {
                    (
                        MarketView {
                            pending: Some(
                                PendingPurchase {
                                    id,
                                    buyer: caller,
                                    seller: s.token(id).owner,
                                    price,
                                },
                            ),
                            ..s
                        },
                        Ok(PaymentRequest { to: s.token(id).owner, amount: price }),
                    )
                }
            },
        }
    }
}

/// Transition of the second half of a purchase, after the host reported
/// the outcome of the payment.  On failure the guard unlocks and nothing
/// else changes; on success the listing is removed, the old owner's
/// approval is cleared, ownership moves to the buyer, and a transfer
/// notification is recorded.
pub open spec fn spec_purchase_finish(s: MarketView, transfer_succeeded: bool) -> (
    MarketView,
    Result<(), NftError>,
) {
    match s.pending {
        Some(p) => {
            if !transfer_succeeded {
                (MarketView { pending: None, ..s }, Err(NftError::TransferNativeTokenFailed))
            } else {
                (
                    MarketView {
                        tokens: s.tokens.update(
                            p.id - 1,
                            TokenView {
                                owner: p.buyer,
                                sale_price: None,
                                approved: None,
                                ..s.token(p.id)
                            },
                        ),
                        events: s.events.push(
                            Event::Transfer(
                                Transfer { from: Some(p.seller), to: Some(p.buyer), id: p.id },
                            ),
                        ),
                        pending: None,
                        ..s
                    },
                    Ok(()),
                )
            }
        },
        // not reached: callers hold an in-flight purchase
        None => (s, Err(NftError::TransferNativeTokenFailed)),
    }
}

/// The balance available for withdrawal: the contract balance minus the
/// reserved minimum, floored at zero.
pub open spec fn spec_available_balance(total_balance: Balance, minimum_balance: Balance) -> Balance {
    if total_balance >= minimum_balance {
        (total_balance - minimum_balance) as Balance
    } else {
        0
    }
}

/// Outcome of a withdrawal request: owner-only; the available balance is
/// paid to the owner by the host.  No ledger record changes.
pub open spec fn spec_withdraw(
    s: MarketView,
    caller: AccountId,
    total_balance: Balance,
    minimum_balance: Balance,
) -> Result<PaymentRequest, NftError> {
    if caller != s.owner {
        Err(NftError::CallerIsNotOwner)
    } else {
        Ok(PaymentRequest { to: s.owner, amount: spec_available_balance(total_balance, minimum_balance) })
    }
}

/// The marketplace ledger.
pub struct NftMarket {
    /// Collection configuration.
    pub nftdata: NftData,
    /// The token registry: the record of token `id` is `tokens[id - 1]`.
    pub tokens: Vec<Token>,
    /// The account allowed to run administrative operations.
    pub owner: AccountId,
    /// Collection name, set at construction.
    pub name: String,
    /// Collection symbol, set at construction.
    pub symbol: String,
    /// Prefix of every token URI; owner-settable.
    pub base_uri: String,
    /// The reentrancy guard together with what the guarded purchase
    /// recorded; `None` at rest.
    pub pending: Option<PendingPurchase>,
    /// Notifications recorded for off-chain observers.
    pub events: Vec<Event>,
}

impl View for NftMarket {
    type V = MarketView;

    open spec fn view(&self) -> MarketView {
        MarketView {
            tokens: self.tokens@.map_values(|t: Token| t@),
            collection_id: self.nftdata.collection_id,
            max_supply: self.nftdata.max_supply,
            price_per_mint: self.nftdata.price_per_mint,
            owner: self.owner,
            name: self.name@,
            symbol: self.symbol@,
            base_uri: self.base_uri@,
            pending: self.pending,
            events: self.events@,
        }
    }
}

impl NftMarket {
    /// Well-formedness: the issued-id counter equals the number of token
    /// records, and the view is well formed.
    pub open spec fn wf(self) -> bool {
        &&& self.nftdata.last_token_id == self.tokens.len()
        &&& self@.wf()
    }

    /// Creates an empty collection.  The deployer becomes the owner of
    /// the administrative operations.
    pub fn new(
        owner: AccountId,
        name: String,
        symbol: String,
        base_uri: String,
        max_supply: u64,
        price_per_mint: Balance,
    ) -> (r: NftMarket)
        ensures
            r.wf(),
            r@ == (MarketView {
                tokens: Seq::<TokenView>::empty(),
                collection_id: 0u32,
                max_supply,
                price_per_mint,
                owner,
                name: name@,
                symbol: symbol@,
                base_uri: base_uri@,
                pending: None::<PendingPurchase>,
                events: Seq::<Event>::empty(),
            }),
    {
        let m = NftMarket {
            nftdata: NftData { last_token_id: 0, collection_id: 0, max_supply, price_per_mint },
            tokens: Vec::new(),
            owner,
            name,
            symbol,
            base_uri,
            pending: None,
            events: Vec::new(),
        };
        proof {
            assert(m@.tokens =~= Seq::<TokenView>::empty());
            assert(m@.events =~= Seq::<Event>::empty());
        }
        m
    }

    /// Checks that the payment attached to a mint equals the mint price
    /// and that the collection still has room.
    pub fn check_value(&self, transferred_value: Balance) -> (r: Result<(), NftError>)
        requires
            self.wf(),
        ensures
            (match spec_check_value(self@, transferred_value) {
                None => r == Ok::<(), NftError>(()),
                Some(e) => r == Err::<(), NftError>(e),
            }),
    {
        if transferred_value != self.nftdata.price_per_mint {
            return Err(
                NftError::BadMintValue {
                    required: self.nftdata.price_per_mint,
                    supplied: transferred_value,
                },
            );
        }
        if self.nftdata.last_token_id >= self.nftdata.max_supply {
            return Err(NftError::CollectionIsFull);
        }
        Ok(())
    }

    /// Checks that the token exists and that `caller` is its current owner.
    pub fn check_owner(&self, caller: AccountId, id: u64) -> (r: Result<(), NftError>)
        requires
            self.wf(),
        ensures
            (match spec_check_owner(self@, caller, id) {
                None => r == Ok::<(), NftError>(()),
                Some(e) => r == Err::<(), NftError>(e),
            }),
    {
        if id < 1 || id > self.nftdata.last_token_id {
            return Err(NftError::TokenNotExists);
        }
        let idx: usize = (id - 1) as usize;
        if self.tokens[idx].owner != caller {
            return Err(NftError::NotTokenOwner);
        }
        Ok(())
    }

    /// Checks that the token exists.
    pub fn token_exists(&self, id: u64) -> (r: Result<(), NftError>)
        requires
            self.wf(),
        ensures
            r is Ok <==> self@.has_token(id),
            r is Err ==> r == Err::<(), NftError>(NftError::TokenNotExists),
    {
        if id < 1 || id > self.nftdata.last_token_id {
            return Err(NftError::TokenNotExists);
        }
        Ok(())
    }

    /// The current owner of token `id`, if it exists.
    pub fn owner_of(&self, id: u64) -> (r: Option<AccountId>)
        requires
            self.wf(),
        ensures
            r == self@.owner_of(id),
    {
        if id >= 1 && id <= self.nftdata.last_token_id {
            let idx: usize = (id - 1) as usize;
            Some(self.tokens[idx].owner)
        } else {
            None
        }
    }

    /// The approved operator of token `id`, if any.
    pub fn approved_of(&self, id: u64) -> (r: Option<AccountId>)
        requires
            self.wf(),
        ensures
            r == (if self@.has_token(id) {
                self@.token(id).approved
            } else {
                None::<AccountId>
            }),
    {
        if id >= 1 && id <= self.nftdata.last_token_id {
            let idx: usize = (id - 1) as usize;
            self.tokens[idx].approved
        } else {
            None
        }
    }

    /// Records a transfer notification.
    pub fn _emit_transfer_event(&mut self, from: Option<AccountId>, to: Option<AccountId>, id: u64)
        ensures
            final(self)@ == (MarketView {
                events: old(self)@.events.push(Event::Transfer(Transfer { from, to, id })),
                ..old(self)@
            }),
            final(self).nftdata.last_token_id == old(self).nftdata.last_token_id,
    {
        self.events.push(Event::Transfer(Transfer { from, to, id }));
        proof {
            assert(self@.events =~= old(self)@.events.push(
                Event::Transfer(Transfer { from, to, id }),
            ));
            assert(self@ =~= (MarketView {
                events: old(self)@.events.push(Event::Transfer(Transfer { from, to, id })),
                ..old(self)@
            }));
        }
    }

    /// Records an approval notification.
    pub fn _emit_approval_event(
        &mut self,
        from: AccountId,
        to: AccountId,
        id: Option<u64>,
        approved: bool,
    )
        ensures
            final(self)@ == (MarketView {
                events: old(self)@.events.push(
                    Event::Approval(Approval { from, to, id, approved }),
                ),
                ..old(self)@
            }),
            final(self).nftdata.last_token_id == old(self).nftdata.last_token_id,
    {
        self.events.push(Event::Approval(Approval { from, to, id, approved }));
        proof {
            assert(self@.events =~= old(self)@.events.push(
                Event::Approval(Approval { from, to, id, approved }),
            ));
            assert(self@ =~= (MarketView {
                events: old(self)@.events.push(Event::Approval(Approval { from, to, id, approved })),
                ..old(self)@
            }));
        }
    }

    /// Mints the next token to an explicit recipient.  The caller pays:
    /// the attached payment must equal the mint price exactly.
    pub fn mint_to(&mut self, to: AccountId, transferred_value: Balance, fid: String) -> (r:
        Result<u64, NftError>)
        requires
            old(self).wf(),
        ensures
            final(self).wf(),
            (final(self)@, r) == spec_mint_to(old(self)@, to, transferred_value, fid@),
    {
        let ghost fid_view: Seq<char> = fid@;
        if self.pending.is_some() {
            return Err(NftError::ReentrantCall);
        }
        match self.check_value(transferred_value) {
            Err(e) => {
                return Err(e);
            },
            Ok(()) => {},
        }
        let id = self.nftdata.last_token_id + 1;
        self.tokens.push(Token { owner: to, fid, sale_price: None, approved: None });
        self.nftdata.last_token_id = id;
        self._emit_transfer_event(None, Some(to), id);
        proof {
            let s1 = spec_mint_to(old(self)@, to, transferred_value, fid_view).0;
            assert(self@.tokens =~= s1.tokens);
            assert(self@ =~= s1);
        }
        Ok(id)
    }

    /// Mints the next token to the caller.  The attached payment must
    /// equal the mint price exactly.
    pub fn mint(&mut self, caller: AccountId, transferred_value: Balance, fid: String) -> (r:
        Result<u64, NftError>)
        requires
            old(self).wf(),
        ensures
            final(self).wf(),
            (final(self)@, r) == spec_mint(old(self)@, caller, transferred_value, fid@),
    {
        self.mint_to(caller, transferred_value, fid)
    }

    /// Lists token `id` for sale at `price`, scaled by [`PRICE_UNIT`].
    /// Only the current owner may list; an existing listing is overwritten.
    /// The scaled price must fit the balance type, a machine limit on
    /// which the numeric type itself is the only bound.
    pub fn list(&mut self, caller: AccountId, id: u64, price: Balance) -> (r: Result<
        (),
        NftError,
    >)
        requires
            old(self).wf(),
            price * PRICE_UNIT <= u128::MAX,
        ensures
            final(self).wf(),
            (final(self)@, r) == spec_list(old(self)@, caller, id, price),
    {
        match self.check_owner(caller, id) {
            Err(e) => {
                return Err(e);
            },
            Ok(()) => {},
        }
        let idx: usize = (id - 1) as usize;
        let t = &mut self.tokens[idx];
        t.sale_price = Some(price * PRICE_UNIT);
        proof {
            let s1 = spec_list(old(self)@, caller, id, price).0;
            assert(self@.tokens =~= s1.tokens);
            assert(self@ =~= s1);
        }
        Ok(())
    }

    /// Removes the sale listing of token `id`.  Only the current owner may
    /// delist, and only a listed token can be delisted.
    pub fn delist(&mut self, caller: AccountId, id: u64) -> (r: Result<(), NftError>)
        requires
            old(self).wf(),
        ensures
            final(self).wf(),
            (final(self)@, r) == spec_delist(old(self)@, caller, id),
    {
        match self.check_owner(caller, id) {
            Err(e) => {
                return Err(e);
            },
            Ok(()) => {},
        }
        let idx: usize = (id - 1) as usize;
        if self.tokens[idx].sale_price.is_none() {
            return Err(NftError::NotForSale);
        }
        let t = &mut self.tokens[idx];
        t.sale_price = None;
        proof {
            let s1 = spec_delist(old(self)@, caller, id).0;
            assert(self@.tokens =~= s1.tokens);
            assert(self@ =~= s1);
        }
        Ok(())
    }

    /// The stored sale price of token `id`, or `NotForSale`.
    pub fn price(&self, id: u64) -> (r: Result<Balance, NftError>)
        requires
            self.wf(),
        ensures
            r == spec_price(self@, id),
    {
        if id >= 1 && id <= self.nftdata.last_token_id {
            let idx: usize = (id - 1) as usize;
            match self.tokens[idx].sale_price {
                Some(p) => Ok(p),
                None => Err(NftError::NotForSale),
            }
        } else {
            Err(NftError::NotForSale)
        }
    }

    /// Approves `operator` for token `id` and records the notification.
    /// Only the current owner may approve.
    pub fn approve(&mut self, caller: AccountId, id: u64, operator: AccountId) -> (r: Result<
        (),
        NftError,
    >)
        requires
            old(self).wf(),
        ensures
            final(self).wf(),
            (match spec_check_owner(old(self)@, caller, id) {
                Some(e) => r == Err::<(), NftError>(e) && final(self)@ == old(self)@,
                None => r == Ok::<(), NftError>(()) && final(self)@ == (MarketView {
                    tokens: old(self)@.tokens.update(
                        id - 1,
                        TokenView { approved: Some(operator), ..old(self)@.token(id) },
                    ),
                    events: old(self)@.events.push(
                        Event::Approval(
                            Approval { from: caller, to: operator, id: Some(id), approved: true },
                        ),
                    ),
                    ..old(self)@
                }),
            }),
    {
        match self.check_owner(caller, id) {
            Err(e) => {
                return Err(e);
            },
            Ok(()) => {},
        }
        let idx: usize = (id - 1) as usize;
        let t = &mut self.tokens[idx];
        t.approved = Some(operator);
        self._emit_approval_event(caller, operator, Some(id), true);
        proof {
            let s1 = (MarketView {
                tokens: old(self)@.tokens.update(
                    id - 1,
                    TokenView { approved: Some(operator), ..old(self)@.token(id) },
                ),
                events: old(self)@.events.push(
                    Event::Approval(
                        Approval { from: caller, to: operator, id: Some(id), approved: true },
                    ),
                ),
                ..old(self)@
            });
            assert(self@.tokens =~= s1.tokens);
            assert(self@ =~= s1);
        }
        Ok(())
    }

    /// First half of a purchase, up to the external payment call: checks
    /// that the caller is not the owner, that the token is listed, and
    /// that the payment equals the listed price; locks the guard and
    /// returns the payment the host must forward to the seller.
    pub fn purchase(&mut self, caller: AccountId, id: u64, transferred_value: Balance) -> (r:
        Result<PaymentRequest, NftError>)
        requires
            old(self).wf(),
        ensures
            final(self).wf(),
            (final(self)@, r) == spec_purchase(old(self)@, caller, id, transferred_value),
    {
        if self.pending.is_some() {
            return Err(NftError::ReentrantCall);
        }
        if id < 1 || id > self.nftdata.last_token_id {
            return Err(NftError::TokenNotExists);
        }
        let idx: usize = (id - 1) as usize;
        let owner = self.tokens[idx].owner;
        if owner == caller {
            return Err(NftError::OwnToken);
        }
        let price = match self.tokens[idx].sale_price {
            None => {
                return Err(NftError::NotForSale);
            },
            Some(p) => p,
        };
        if transferred_value != price {
            return Err(NftError::PriceNotMatch { required: price, supplied: transferred_value });
        }
        self.pending = Some(PendingPurchase { id, buyer: caller, seller: owner, price });
        proof {
            let s1 = spec_purchase(old(self)@, caller, id, transferred_value).0;
            assert(self@ =~= s1);
        }
        Ok(PaymentRequest { to: owner, amount: price })
    }

    /// Second half of a purchase, entered once the host has reported the
    /// outcome of the payment to the seller.  The guard unlocks on both
    /// paths.  On failure nothing else changes; on success the listing is
    /// removed, the old owner's approval is cleared, ownership moves to
    /// the buyer, and a transfer notification is recorded.
    pub fn purchase_finish(&mut self, transfer_succeeded: bool) -> (r: Result<(), NftError>)
        requires
            old(self).wf(),
            old(self)@.pending is Some,
        ensures
            final(self).wf(),
            (final(self)@, r) == spec_purchase_finish(old(self)@, transfer_succeeded),
    {
        let p = match self.pending {
            Some(p) => p,
            None => {
                // not reached: an in-flight purchase is required
                return Err(NftError::TransferNativeTokenFailed);
            },
        };
        self.pending = None;
        if !transfer_succeeded {
            proof {
                let s1 = spec_purchase_finish(old(self)@, transfer_succeeded).0;
                assert(self@ =~= s1);
            }
            return Err(NftError::TransferNativeTokenFailed);
        }
        let idx: usize = (p.id - 1) as usize;
        let t = &mut self.tokens[idx];
        t.owner = p.buyer;
        t.sale_price = None;
        t.approved = None;
        self._emit_transfer_event(Some(p.seller), Some(p.buyer), p.id);
        proof {
            let s1 = spec_purchase_finish(old(self)@, transfer_succeeded).0;
            assert(self@.tokens =~= s1.tokens);
            assert(self@ =~= s1);
        }
        Ok(())
    }

    /// Computes the owner withdrawal: the available balance, paid to the
    /// owner by the host.  Owner-only; no ledger record changes.
    pub fn withdraw(&self, caller: AccountId, total_balance: Balance, minimum_balance: Balance) -> (r:
        Result<PaymentRequest, NftError>)
        requires
            self.wf(),
        ensures
            r == spec_withdraw(self@, caller, total_balance, minimum_balance),
    {
        if caller != self.owner {
            return Err(NftError::CallerIsNotOwner);
        }
        Ok(PaymentRequest { to: self.owner, amount: balance(total_balance, minimum_balance) })
    }

    /// Replaces the base URI.  Owner-only.
    pub fn set_base_uri(&mut self, caller: AccountId, uri: String) -> (r: Result<(), NftError>)
        requires
            old(self).wf(),
        ensures
            final(self).wf(),
            caller == old(self)@.owner ==> r == Ok::<(), NftError>(()) && final(self)@
                == (MarketView { base_uri: uri@, ..old(self)@ }),
            caller != old(self)@.owner ==> r == Err::<(), NftError>(NftError::CallerIsNotOwner)
                && final(self)@ == old(self)@,
    {
        if caller != self.owner {
            return Err(NftError::CallerIsNotOwner);
        }
        self.base_uri = uri;
        proof {
            assert(self@ =~= (MarketView { base_uri: self.base_uri@, ..old(self)@ }));
        }
        Ok(())
    }

    /// Replaces the supply bound.  Owner-only.
    pub fn set_max_supply(&mut self, caller: AccountId, value: u64) -> (r: Result<(), NftError>)
        requires
            old(self).wf(),
        ensures
            final(self).wf(),
            caller == old(self)@.owner ==> r == Ok::<(), NftError>(()) && final(self)@
                == (MarketView { max_supply: value, ..old(self)@ }),
            caller != old(self)@.owner ==> r == Err::<(), NftError>(NftError::CallerIsNotOwner)
                && final(self)@ == old(self)@,
    {
        if caller != self.owner {
            return Err(NftError::CallerIsNotOwner);
        }
        self.nftdata.max_supply = value;
        proof {
            assert(self@ =~= (MarketView { max_supply: value, ..old(self)@ }));
        }
        Ok(())
    }

    /// The URI of token `id`: the base URI followed by the token's
    /// content reference.
    pub fn token_uri(&self, id: u64) -> (r: Result<String, NftError>)
        requires
            self.wf(),
        ensures
            (match spec_token_uri(self@, id) {
                Ok(uri) => r is Ok && r->Ok_0@ == uri,
                Err(e) => r == Err::<String, NftError>(e),
            }),
    {
        match self.token_exists(id) {
            Err(e) => {
                return Err(e);
            },
            Ok(()) => {},
        }
        let idx: usize = (id - 1) as usize;
        let mut uri = self.base_uri.clone();
        uri.append(self.tokens[idx].fid.as_str());
        Ok(uri)
    }

    /// The exact payment a mint must attach.
    pub fn price_per_mint(&self) -> (r: Balance)
        ensures
            r == self@.price_per_mint,
    {
        self.nftdata.price_per_mint
    }

    /// The upper bound on the number of issued tokens.
    pub fn max_supply(&self) -> (r: u64)
        ensures
            r == self@.max_supply,
    {
        self.nftdata.max_supply
    }

    /// The id last issued; equals the number of issued tokens.
    pub fn last_token_id(&self) -> (r: u64)
        requires
            self.wf(),
        ensures
            r as int == self@.tokens.len(),
    {
        self.nftdata.last_token_id
    }

    /// The purchase awaiting its external payment call, if any.
    pub fn in_flight(&self) -> (r: Option<PendingPurchase>)
        ensures
            r == self@.pending,
    {
        self.pending
    }

    /// The notifications recorded so far.
    pub fn events(&self) -> (r: &Vec<Event>)
        ensures
            r@ == self@.events,
    {
        &self.events
    }
}

/// The balance available to the contract: its total balance minus the
/// reserved minimum, floored at zero.
pub fn balance(total_balance: Balance, minimum_balance: Balance) -> (r: Balance)
    ensures
        r == spec_available_balance(total_balance, minimum_balance),
{
    if total_balance >= minimum_balance {
        total_balance - minimum_balance
    } else {
        0
    }
}

/// Maps the host-reported outcome of a withdrawal transfer to the
/// operation's result.
pub fn withdraw_finish(transfer_succeeded: bool) -> (r: Result<(), NftError>)
    ensures
        transfer_succeeded ==> r == Ok::<(), NftError>(()),
        !transfer_succeeded ==> r == Err::<(), NftError>(NftError::WithdrawalFailed),
{
    if transfer_succeeded {
        Ok(())
    } else {
        Err(NftError::WithdrawalFailed)
    }
}

} // verus!
