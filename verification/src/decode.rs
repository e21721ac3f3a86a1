//! Recovering a swap from the call data of a router transaction.

use crate::schema::{
    abi_decode, abi_functions, decode_input, find_function, function_selector, selector_of,
};
use crate::swap::{ArgValue, DecodeError, DecodedSwap, SwapField};
use ethers::abi::Abi;
use vstd::prelude::*;
use vstd::slice::slice_subrange;

verus! {

/// The name under which a router interface declares the swap.
pub const SWAP_FUNCTION: &'static str = "swapExactTokensForTokens";

/// Number of bytes that a selector takes at the head of call data.
pub const SELECTOR_LEN: usize = 4;

/// Whether call data starts with the given selector.
pub open spec fn carries_selector(input: Seq<u8>, selector: Seq<u8>) -> bool {
    input.len() >= 4 && input.subrange(0, 4) == selector
}

/// The swap that a list of decoded arguments holds: the first argument is
/// the token sold, the second the token bought, the third the amount sold.
/// A list of fewer than three is no call of the swap; an argument of the
/// wrong kind is reported by the field it was to fill, the first such in
/// argument order.
pub open spec fn swap_of_arguments(args: Seq<ArgValue>) -> Result<DecodedSwap, DecodeError> {
    if args.len() < 3 {
        Err(DecodeError::MalformedInput)
    } else {
        match (args[0], args[1], args[2]) {
            (
                ArgValue::Address(token_in),
                ArgValue::Address(token_out),
                ArgValue::Uint(amount_in),
            ) => Ok(DecodedSwap { token_in, token_out, amount_in }),
            (ArgValue::Address(_), ArgValue::Address(_), _) => Err(
                DecodeError::FieldTypeMismatch(SwapField::AmountIn),
            ),
            (ArgValue::Address(_), _, _) => Err(
                DecodeError::FieldTypeMismatch(SwapField::TokenOut),
            ),
            _ => Err(DecodeError::FieldTypeMismatch(SwapField::TokenIn)),
        }
    }
}

/// The swap that the outcome of decoding holds: data that did not decode is
/// no call of the swap.
pub open spec fn swap_of_decoded(decoded: Option<Seq<ArgValue>>) -> Result<
    DecodedSwap,
    DecodeError,
> {
    match decoded {
        Some(args) => swap_of_arguments(args),
        None => Err(DecodeError::MalformedInput),
    }
}

/// What decoding call data against a router interface gives.
pub open spec fn decode_outcome(router: Abi, input: Seq<u8>) -> Result<DecodedSwap, DecodeError> {
    if !abi_functions(router).contains_key(SWAP_FUNCTION@) {
        Err(DecodeError::SchemaMissing)
    } else {
        let (name, inputs) = abi_functions(router)[SWAP_FUNCTION@];
        if !carries_selector(input, selector_of(name, inputs)) {
            Err(DecodeError::MalformedInput)
        } else {
            swap_of_decoded(abi_decode(inputs, input.subrange(4, input.len() as int)))
        }
    }
}

/// Whether call data has the layout of a call of the router's swap function:
/// the function's selector, then data that decodes against its inputs to at
/// least three arguments.
pub open spec fn has_swap_layout(router: Abi, input: Seq<u8>) -> bool {
    let (name, inputs) = abi_functions(router)[SWAP_FUNCTION@];
    let decoded = abi_decode(inputs, input.subrange(4, input.len() as int));
    &&& carries_selector(input, selector_of(name, inputs))
    &&& decoded is Some
    &&& decoded->Some_0.len() >= 3
}

/// Whether call data is a call of the router's swap function that encodes
/// the three given values as its first three arguments.
pub open spec fn encodes_swap(router: Abi, input: Seq<u8>, swap: DecodedSwap) -> bool {
    let (name, inputs) = abi_functions(router)[SWAP_FUNCTION@];
    let decoded = abi_decode(inputs, input.subrange(4, input.len() as int));
    &&& abi_functions(router).contains_key(SWAP_FUNCTION@)
    &&& has_swap_layout(router, input)
    &&& decoded->Some_0[0] == ArgValue::Address(swap.token_in)
    &&& decoded->Some_0[1] == ArgValue::Address(swap.token_out)
    &&& decoded->Some_0[2] == ArgValue::Uint(swap.amount_in)
}

/// Decoding gives back, unchanged, the three values that call data encodes,
/// and gives a swap for no other call data.
pub proof fn lemma_decode_recovers_encoded_swap(router: Abi, input: Seq<u8>, swap: DecodedSwap)
    ensures
        encodes_swap(router, input, swap) <==> decode_outcome(router, input) == Ok::<
            DecodedSwap,
            DecodeError,
        >(swap),
{
}

/// Call data made of the swap function's four-byte selector and then a
/// payload is decoded as that payload alone: what comes of it is what the
/// payload holds for the function's inputs.
pub proof fn lemma_call_is_selector_then_arguments(router: Abi, payload: Seq<u8>)
    requires
        abi_functions(router).contains_key(SWAP_FUNCTION@),
    ensures
        ({
            let (name, inputs) = abi_functions(router)[SWAP_FUNCTION@];
            let selector = selector_of(name, inputs);
            selector.len() == 4 ==> decode_outcome(router, selector + payload) == swap_of_decoded(
                abi_decode(inputs, payload),
            )
        }),
{
    let (name, inputs) = abi_functions(router)[SWAP_FUNCTION@];
    let selector = selector_of(name, inputs);
    let input = selector + payload;
    if selector.len() == 4 {
        assert(input.subrange(0, 4) =~= selector);
        assert(input.subrange(4, input.len() as int) =~= payload);
    }
}

/// Against an interface that declares the swap, call data is malformed
/// exactly when it lacks the layout of a swap call.
pub proof fn lemma_malformed_is_other_layout(router: Abi, input: Seq<u8>)
    requires
        abi_functions(router).contains_key(SWAP_FUNCTION@),
    ensures
        !has_swap_layout(router, input) <==> decode_outcome(router, input) == Err::<
            DecodedSwap,
            DecodeError,
        >(DecodeError::MalformedInput),
{
}

/// The swap function is reported missing exactly when the interface does not
/// declare it, whatever the call data.
pub proof fn lemma_schema_missing_is_undeclared(router: Abi, input: Seq<u8>)
    ensures
        !abi_functions(router).contains_key(SWAP_FUNCTION@) <==> decode_outcome(router, input)
            == Err::<DecodedSwap, DecodeError>(DecodeError::SchemaMissing),
{
}

/// Whether the first four bytes of call data are the given selector.
pub fn has_selector(input: &[u8], selector: &[u8; 4]) -> (res: bool)
    ensures
        res == carries_selector(input@, selector@),
{
    if input.len() < SELECTOR_LEN {
        return false;
    }
    let mut i: usize = 0;
    while i < SELECTOR_LEN
        invariant
            i <= 4,
            input@.len() >= 4,
            forall|k: int| 0 <= k < i ==> input@[k] == selector@[k],
        decreases 4 - i,
    {
        if input[i] != selector[i] {
            assert(input@.subrange(0, 4)[i as int] == input@[i as int]);
            return false;
        }
        i = i + 1;
    }
    assert(input@.subrange(0, 4) =~= selector@);
    true
}

/// Reads a swap off the decoded arguments of a call.
pub fn swap_from_arguments(args: &Vec<ArgValue>) -> (res: Result<DecodedSwap, DecodeError>)
    ensures
        res == swap_of_arguments(args@),
{
    if args.len() < 3 {
        return Err(DecodeError::MalformedInput);
    }
    let token_in = match args[0] {
        ArgValue::Address(address) => address,
        _ => {
            return Err(DecodeError::FieldTypeMismatch(SwapField::TokenIn));
        },
    };
    let token_out = match args[1] {
        ArgValue::Address(address) => address,
        _ => {
            return Err(DecodeError::FieldTypeMismatch(SwapField::TokenOut));
        },
    };
    let amount_in = match args[2] {
        ArgValue::Uint(amount) => amount,
        _ => {
            return Err(DecodeError::FieldTypeMismatch(SwapField::AmountIn));
        },
    };
    Ok(DecodedSwap { token_in, token_out, amount_in })
}

/// Decodes the call data of a transaction as a call of the router's swap
/// function.
///
/// The interface must declare the function; the data must start with its
/// selector and decode against its inputs; the first three arguments must be
/// two addresses and an unsigned integer.
pub fn decode_transaction(input: &[u8], router: &Abi) -> (res: Result<DecodedSwap, DecodeError>)
    ensures
        res == decode_outcome(*router, input@),
{
    let function = match find_function(router, SWAP_FUNCTION) {
        Some(function) => function,
        None => {
            return Err(DecodeError::SchemaMissing);
        },
    };
    let selector = function_selector(function);
    if !has_selector(input, &selector) {
        return Err(DecodeError::MalformedInput);
    }
    let payload = slice_subrange(input, SELECTOR_LEN, input.len());
    match decode_input(function, payload) {
        Some(args) => swap_from_arguments(&args),
        None => Err(DecodeError::MalformedInput),
    }
}

} // verus!
