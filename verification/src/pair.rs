//! Deciding whether a swap trades the pair of interest.

use crate::address::Address;
use crate::decode::{decode_outcome, decode_transaction};
use ethers::abi::Abi;
use vstd::prelude::*;

verus! {

/// The set that two addresses make, whatever their order.
pub open spec fn unordered_pair(a: Seq<u8>, b: Seq<u8>) -> Set<Seq<u8>> {
    set![a, b]
}

/// Whether the tokens of a swap and the two targets are the same unordered
/// pair.
pub open spec fn same_pair(
    token_in: Seq<u8>,
    token_out: Seq<u8>,
    target_a: Seq<u8>,
    target_b: Seq<u8>,
) -> bool {
    unordered_pair(token_in, token_out) == unordered_pair(target_a, target_b)
}

/// Whether call data, decoded against a router interface, is a swap of the
/// two targets. Data that gives no swap is no match.
pub open spec fn trades_pair(
    router: Abi,
    input: Seq<u8>,
    target_a: Seq<u8>,
    target_b: Seq<u8>,
) -> bool {
    match decode_outcome(router, input) {
        Ok(swap) => same_pair(swap.token_in@, swap.token_out@, target_a, target_b),
        Err(_) => false,
    }
}

/// Two unordered pairs are the same exactly when their members agree in one
/// of the two orders.
pub proof fn lemma_same_pair_by_members(a: Seq<u8>, b: Seq<u8>, c: Seq<u8>, d: Seq<u8>)
    ensures
        same_pair(a, b, c, d) <==> (a == c && b == d) || (a == d && b == c),
{
    let left = unordered_pair(a, b);
    let right = unordered_pair(c, d);
    if (a == c && b == d) || (a == d && b == c) {
        assert(left =~= right);
    }
    if left == right {
        assert(left.contains(a) && left.contains(b));
        assert(right.contains(c) && right.contains(d));
    }
}

/// Decides whether the tokens of a swap are the two targets, in either
/// order.
pub fn is_target_pair(
    token_in: &Address,
    token_out: &Address,
    target_a: &Address,
    target_b: &Address,
) -> (res: bool)
    ensures
        res == same_pair(token_in@, token_out@, target_a@, target_b@),
{
    proof {
        lemma_same_pair_by_members(token_in@, token_out@, target_a@, target_b@);
    }
    (token_in.same_as(target_a) && token_out.same_as(target_b)) || (token_in.same_as(target_b)
        && token_out.same_as(target_a))
}

/// Decides whether the call data of a transaction is a swap of the two
/// targets. A transaction that calls anything else, or that does not decode,
/// is no match and no error.
pub fn transaction_trades_pair(
    input: &[u8],
    router: &Abi,
    target_a: &Address,
    target_b: &Address,
) -> (res: bool)
    ensures
        res == trades_pair(*router, input@, target_a@, target_b@),
{
    match decode_transaction(input, router) {
        Ok(swap) => is_target_pair(&swap.token_in, &swap.token_out, target_a, target_b),
        Err(_) => false,
    }
}

/// A pair matches itself in both orders.
pub proof fn lemma_pair_matches_both_orders(a: Seq<u8>, b: Seq<u8>)
    ensures
        same_pair(a, b, a, b),
        same_pair(a, b, b, a),
{
    lemma_same_pair_by_members(a, b, a, b);
    lemma_same_pair_by_members(a, b, b, a);
}

/// Tokens of which one is not among the targets do not match them.
pub proof fn lemma_pair_outside_targets_differs(a: Seq<u8>, b: Seq<u8>, c: Seq<u8>, d: Seq<u8>)
    requires
        unordered_pair(a, b).intersect(unordered_pair(c, d)) != unordered_pair(a, b),
    ensures
        !same_pair(a, b, c, d),
{
    if same_pair(a, b, c, d) {
        assert(unordered_pair(a, b).intersect(unordered_pair(c, d)) =~= unordered_pair(a, b));
    }
}

} // verus!
