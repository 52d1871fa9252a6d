//! Plain data carried through the marketplace: identifiers, amounts,
//! errors, notifications, and the records the ledger keeps per token.

use vstd::prelude::*;
use vstd::string::StringExecFns;

verus! {

/// An account of the chain environment, reduced to a plain identifier.
pub type AccountId = u64;

/// An amount of native currency.
pub type Balance = u128;

/// Listed sale prices are stored scaled by this fixed unit multiplier.
pub const PRICE_UNIT: Balance = 1_000_000_000_000;

/// Everything a marketplace operation can fail with.  The two validation
/// errors carry the required and the supplied amount as typed fields.
#[derive(Debug, Clone, Copy, PartialEq, Eq)]
pub enum NftError {
    /// The payment attached to a mint differs from the mint price.
    BadMintValue { required: Balance, supplied: Balance },
    /// The collection already holds `max_supply` tokens.
    CollectionIsFull,
    /// The host reported that the withdrawal transfer failed.
    WithdrawalFailed,
    /// The caller is not the current owner of the token.
    NotTokenOwner,
    /// The token has no sale listing.
    NotForSale,
    /// The caller tried to purchase a token it already owns.
    OwnToken,
    /// The payment attached to a purchase differs from the listed price.
    PriceNotMatch { required: Balance, supplied: Balance },
    /// The host reported that the payment to the seller failed.
    TransferNativeTokenFailed,
    /// No token with the given id was ever minted.
    TokenNotExists,
    /// An owner-only operation was called by another account.
    CallerIsNotOwner,
    /// A guarded operation was re-entered while a purchase was in flight.
    ReentrantCall,
}

impl NftError {
    /// The name of the error kind, without the numeric context.
    pub open spec fn spec_name(self) -> Seq<char> {
        match self {
            NftError::BadMintValue { .. } => "BadMintValue"@,
            NftError::CollectionIsFull => "CollectionIsFull"@,
            NftError::WithdrawalFailed => "WithdrawalFailed"@,
            NftError::NotTokenOwner => "NotTokenOwner"@,
            NftError::NotForSale => "NotForSale"@,
            NftError::OwnToken => "OwnToken"@,
            NftError::PriceNotMatch { .. } => "PriceNotMatch"@,
            NftError::TransferNativeTokenFailed => "TransferNativeTokenFailed"@,
            NftError::TokenNotExists => "TokenNotExists"@,
            NftError::CallerIsNotOwner => "CallerIsNotOwner"@,
            NftError::ReentrantCall => "ReentrantCall"@,
        }
    }

    /// The name of the error kind as an owned string.
    pub fn as_str(&self) -> (r: String)
        ensures
            r@ == self.spec_name(),
    {
        match self {
            NftError::BadMintValue { .. } => String::from_str("BadMintValue"),
            NftError::CollectionIsFull => String::from_str("CollectionIsFull"),
            NftError::WithdrawalFailed => String::from_str("WithdrawalFailed"),
            NftError::NotTokenOwner => String::from_str("NotTokenOwner"),
            NftError::NotForSale => String::from_str("NotForSale"),
            NftError::OwnToken => String::from_str("OwnToken"),
            NftError::PriceNotMatch { .. } => String::from_str("PriceNotMatch"),
            NftError::TransferNativeTokenFailed => String::from_str("TransferNativeTokenFailed"),
            NftError::TokenNotExists => String::from_str("TokenNotExists"),
            NftError::CallerIsNotOwner => String::from_str("CallerIsNotOwner"),
            NftError::ReentrantCall => String::from_str("ReentrantCall"),
        }
    }
}

/// Notification recorded when a token changes owner (or is minted).
#[derive(Debug, Clone, Copy, PartialEq, Eq)]
pub struct Transfer {
    pub from: Option<AccountId>,
    pub to: Option<AccountId>,
    pub id: u64,
}

/// Notification recorded when a token approval changes.
#[derive(Debug, Clone, Copy, PartialEq, Eq)]
pub struct Approval {
    pub from: AccountId,
    pub to: AccountId,
    pub id: Option<u64>,
    pub approved: bool,
}

/// A notification kept for off-chain observers.
#[derive(Debug, Clone, Copy, PartialEq, Eq)]
pub enum Event {
    Transfer(Transfer),
    Approval(Approval),
}

/// An instruction to move native currency, returned to the host for
/// execution: the library itself never touches account balances.
#[derive(Debug, Clone, Copy, PartialEq, Eq)]
pub struct PaymentRequest {
    pub to: AccountId,
    pub amount: Balance,
}

/// What a purchase records before its external payment call: the guarded
/// window between [`crate::market::NftMarket::purchase`] and
/// [`crate::market::NftMarket::purchase_finish`].
#[derive(Debug, Clone, Copy, PartialEq, Eq)]
pub struct PendingPurchase {
    pub id: u64,
    pub buyer: AccountId,
    pub seller: AccountId,
    pub price: Balance,
}

/// One issued token: its current owner, its immutable content reference,
/// its sale listing if it has one, and its approved operator if any.
pub struct Token {
    pub owner: AccountId,
    pub fid: String,
    pub sale_price: Option<Balance>,
    pub approved: Option<AccountId>,
}

/// The mathematical value of a [`Token`].
#[verifier::ext_equal]
pub struct TokenView {
    pub owner: AccountId,
    pub fid: Seq<char>,
    pub sale_price: Option<Balance>,
    pub approved: Option<AccountId>,
}

impl View for Token {
    type V = TokenView;

    open spec fn view(&self) -> TokenView {
        TokenView {
            owner: self.owner,
            fid: self.fid@,
            sale_price: self.sale_price,
            approved: self.approved,
        }
    }
}

} // verus!
