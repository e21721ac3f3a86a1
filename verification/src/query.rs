//! Reading the answers of the chain queries.
//!
//! The queries themselves are sent by the caller, over its own connection.
//! What came back is judged here: a failed call stays apart from an answer,
//! and an answer that stands for "nothing there" is no answer.

use crate::address::{zero_address, Address};
use crate::amount::Amount;
use vstd::prelude::*;

verus! {

/// Why a query gave no value.
#[derive(Debug)]
pub enum QueryError {
    /// The remote call failed; the detail is the caller's account of it.
    RemoteCallFailed(String),
    /// The factory has no pool for the two tokens.
    PairNotFound,
}

/// What a pool lookup comes to: a failed call is reported with its detail,
/// the all-zero address means that the pair has no pool, any other address
/// is the pool.
pub open spec fn pool_of_lookup(lookup: Result<Address, String>) -> Result<Address, QueryError> {
    match lookup {
        Ok(pool) => if pool@ == zero_address() {
            Err(QueryError::PairNotFound)
        } else {
            Ok(pool)
        },
        Err(detail) => Err(QueryError::RemoteCallFailed(detail)),
    }
}

/// What a query for an amount comes to: the amount, or the failed call with
/// its detail.
pub open spec fn amount_of_reply(reply: Result<Amount, String>) -> Result<Amount, QueryError> {
    match reply {
        Ok(amount) => Ok(amount),
        Err(detail) => Err(QueryError::RemoteCallFailed(detail)),
    }
}

/// Resolves the pool of a token pair from the factory's answer to a pair
/// lookup.
pub fn get_pool_address(lookup: Result<Address, String>) -> (res: Result<Address, QueryError>)
    ensures
        res == pool_of_lookup(lookup),
{
    match lookup {
        Ok(pool) => {
            if pool.is_zero() {
                Err(QueryError::PairNotFound)
            } else {
                Ok(pool)
            }
        },
        Err(detail) => Err(QueryError::RemoteCallFailed(detail)),
    }
}

/// Reads the node's answer to a gas estimate for an unsent transaction.
pub fn gas_estimate(reply: Result<Amount, String>) -> (res: Result<Amount, QueryError>)
    ensures
        res == amount_of_reply(reply),
{
    match reply {
        Ok(gas) => Ok(gas),
        Err(detail) => Err(QueryError::RemoteCallFailed(detail)),
    }
}

/// Reads a token contract's answer to a balance query for a holder.
pub fn check_contract_balance(reply: Result<Amount, String>) -> (res: Result<Amount, QueryError>)
    ensures
        res == amount_of_reply(reply),
{
    match reply {
        Ok(balance) => Ok(balance),
        Err(detail) => Err(QueryError::RemoteCallFailed(detail)),
    }
}

} // verus!
