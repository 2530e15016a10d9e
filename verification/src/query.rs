//! Request and response types for querying a host ledger.
//!
//! A plain, schema-driven data-modeling layer with no algorithmic content:
//! these types describe the queries a program may address to the host's bank
//! module — balances, total supply, denomination metadata — and the shapes
//! of the answers. The execution engine serializes them at its boundary; the
//! cache never touches them.

use vstd::prelude::*;

verus! {

/// A coin: an amount of one denomination.
#[derive(Clone, Debug, PartialEq, Eq)]
pub struct Coin {
    pub denom: String,
    pub amount: u128,
}

impl Coin {
    /// A coin of `amount` units of `denom`.
    pub fn new(amount: u128, denom: &str) -> (r: Coin)
        ensures
            r.amount == amount,
            r.denom@ == denom@,
    {
        Coin { denom: denom.to_owned(), amount }
    }
}

/// Metadata describing one bank token denomination.
#[derive(Clone, Debug, PartialEq, Eq)]
pub struct DenomMetadata {
    pub description: String,
    pub base: String,
    pub display: String,
    pub name: String,
    pub symbol: String,
}

/// Binary payload carried opaquely through a query response.
#[derive(Clone, Debug, PartialEq, Eq)]
pub struct Binary(pub Vec<u8>);

/// An empty payload, for callers that need no custom query.
#[derive(Clone, Copy, Debug, PartialEq, Eq)]
pub struct Empty {}

/// Defines the types of queries that can be made to the bank module, such
/// as queries for account balances.
#[derive(Clone, Debug, PartialEq, Eq)]
pub enum BankQuery {
    /// Queries the native bank module for the balance of one denomination
    /// held by one account. The answer is a `BalanceResponse`.
    Balance { address: String, denom: String },
    /// Queries the native bank module for all denominations held by one
    /// account; much more expensive than `Balance`. The answer is an
    /// `AllBalanceResponse`.
    AllBalances { address: String },
}

/// The supply of one asset: the answer to a supply query.
#[derive(Clone, Debug, PartialEq, Eq)]
pub struct SupplyResponse {
    /// Always a coin of the requested denomination; of zero amount if the
    /// denomination does not exist.
    pub amount: Coin,
}

impl SupplyResponse {
    /// Constructor for testing frameworks; ordinary callers receive
    /// responses ready-made from the host.
    pub fn new(amount: Coin) -> (r: Self)
        ensures
            r.amount == amount,
    {
        SupplyResponse { amount }
    }
}

/// The balance held in one denomination: the answer to a balance query.
#[derive(Clone, Debug, PartialEq, Eq)]
pub struct BalanceResponse {
    /// Always a coin of the requested denomination; of zero amount if no
    /// such funds are held.
    pub amount: Coin,
}

impl BalanceResponse {
    /// Constructor for testing frameworks; ordinary callers receive
    /// responses ready-made from the host.
    pub fn new(amount: Coin) -> (r: Self)
        ensures
            r.amount == amount,
    {
        BalanceResponse { amount }
    }
}

/// All balances of one account: the answer to an all-balances query.
#[derive(Clone, Debug, PartialEq, Eq)]
pub struct AllBalanceResponse {
    /// All non-zero coins held by the account.
    pub amount: Vec<Coin>,
}

impl AllBalanceResponse {
    /// Constructor for testing frameworks; ordinary callers receive
    /// responses ready-made from the host.
    pub fn new(amount: Vec<Coin>) -> (r: Self)
        ensures
            r.amount == amount,
    {
        AllBalanceResponse { amount }
    }
}

/// Metadata of one denomination: the answer to a denomination-metadata
/// query.
#[derive(Clone, Debug, PartialEq, Eq)]
pub struct DenomMetadataResponse {
    /// The metadata for the queried denomination.
    pub metadata: DenomMetadata,
}

impl DenomMetadataResponse {
    /// Constructor for testing frameworks; ordinary callers receive
    /// responses ready-made from the host.
    pub fn new(metadata: DenomMetadata) -> (r: Self)
        ensures
            r.metadata == metadata,
    {
        DenomMetadataResponse { metadata }
    }
}

/// Metadata of every denomination with an entry, one page at a time: the
/// answer to an all-denomination-metadata query.
#[derive(Clone, Debug, PartialEq, Eq)]
pub struct AllDenomMetadataResponse {
    /// Metadata for the denominations of this page.
    pub metadata: Vec<DenomMetadata>,
    /// Pagination key of the next page, if one exists.
    pub next_key: Option<Binary>,
}

impl AllDenomMetadataResponse {
    /// Constructor for testing frameworks; ordinary callers receive
    /// responses ready-made from the host.
    pub fn new(metadata: Vec<DenomMetadata>, next_key: Option<Binary>) -> (r: Self)
        ensures
            r.metadata == metadata,
            r.next_key == next_key,
    {
        AllDenomMetadataResponse { metadata, next_key }
    }
}

/// A marker required of custom query types, to avoid conflicts with the
/// built-in query types in generic implementations. Implement it on your
/// own custom query type. `Clone` is required so that `QueryRequest<C>`
/// behaves alike for every `C`.
pub trait CustomQuery: Clone {

}

impl CustomQuery for Empty {

}

/// Enumerates different types of query requests, so that data can be
/// retrieved from various modules in a structured manner.
#[derive(Clone, Debug, PartialEq, Eq)]
pub enum QueryRequest<C> {
    /// A query handled by the native bank module.
    Bank(BankQuery),
    /// A query handled by the caller's custom extension.
    Custom(C),
}

impl<C: CustomQuery> vstd::std_specs::convert::FromSpecImpl<BankQuery> for QueryRequest<C> {
    open spec fn obeys_from_spec() -> bool {
        true
    }

    open spec fn from_spec(msg: BankQuery) -> QueryRequest<C> {
        QueryRequest::Bank(msg)
    }
}

impl<C: CustomQuery> From<BankQuery> for QueryRequest<C> {
    fn from(msg: BankQuery) -> (r: Self) {
        QueryRequest::Bank(msg)
    }
}

impl<C: CustomQuery> vstd::std_specs::convert::FromSpecImpl<C> for QueryRequest<C> {
    open spec fn obeys_from_spec() -> bool {
        true
    }

    open spec fn from_spec(msg: C) -> QueryRequest<C> {
        QueryRequest::Custom(msg)
    }
}

impl<C: CustomQuery> From<C> for QueryRequest<C> {
    fn from(msg: C) -> (r: Self) {
        QueryRequest::Custom(msg)
    }
}

} // verus!
