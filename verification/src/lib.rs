//! A non-fungible-token marketplace ledger.
//!
//! The library tracks ownership of sequentially numbered tokens, lets the
//! current owner of a token list it for sale at a fixed price, lets any
//! other account purchase it by paying exactly that price, and reconciles
//! the payment with the ownership transfer.  The chain environment that
//! hosts such a ledger (caller identity, attached payment, native currency
//! transfers, account balances) is not part of the library: every operation
//! takes those observations as plain arguments, and an operation that has
//! to pay out native currency returns a [`types::PaymentRequest`] for the
//! host to execute.

pub mod laws;
pub mod market;
pub mod types;
