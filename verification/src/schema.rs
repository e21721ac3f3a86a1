//! Contract interfaces: the functions they declare, their selectors and the
//! decoding of call data against them.
//!
//! Interfaces are held in the `ethers` crate's own types, and every question
//! about them is put to that crate. This module states what the rest of the
//! library relies on when it does so.

use crate::address::Address;
use crate::amount::Amount;
use crate::swap::ArgValue;
use ethers::abi::{Abi, Function, Token};
use vstd::prelude::*;

verus! {

/// A parsed contract interface of the `ethers` crate, opaque to the
/// verifier.
#[verifier::external_type_specification]
#[verifier::external_body]
pub struct ExAbi(Abi);

/// One function of a contract interface, opaque to the verifier.
#[verifier::external_type_specification]
#[verifier::external_body]
pub struct ExFunction(Function);

/// What an interface holds for lookup: for each name under which it
/// declares a function, the declared name and the input types, in order and
/// in canonical spelling, of the first function declared under it.
pub uninterp spec fn abi_functions(abi: Abi) -> Map<Seq<char>, (Seq<char>, Seq<Seq<char>>)>;

/// What a function holds: its declared name and its input types, in order
/// and in canonical spelling.
pub uninterp spec fn function_shape(function: Function) -> (Seq<char>, Seq<Seq<char>>);

/// The four-byte selector of the function with this name and these input
/// types.
pub uninterp spec fn selector_of(name: Seq<char>, inputs: Seq<Seq<char>>) -> Seq<u8>;

/// The arguments that call data holds for inputs of these types, or `None`
/// where the data does not encode such arguments.
pub uninterp spec fn abi_decode(inputs: Seq<Seq<char>>, data: Seq<u8>) -> Option<Seq<ArgValue>>;

/// Finds the function that an interface declares under a name.
///
/// Trusted: calls `Contract::function`, which returns the first function in
/// the list kept under `name`, or an error where there is none. The contract
/// claims that the answer is what `abi_functions` holds under the name.
#[verifier::external_body]
pub(crate) fn find_function<'a>(abi: &'a Abi, name: &str) -> (res: Option<&'a Function>)
    ensures
        res is Some <==> abi_functions(*abi).contains_key(name@),
        res matches Some(function) ==> function_shape(*function) == abi_functions(*abi)[name@],
{
    match abi.function(name) {
        Ok(function) => Some(function),
        Err(_) => None,
    }
}

/// The selector under which a function is called.
///
/// Trusted: calls `Function::short_signature`, the first four bytes of the
/// Keccak-256 hash of the function's name and input types. The contract
/// claims that the result depends on nothing else.
#[verifier::external_body]
pub(crate) fn function_selector(function: &Function) -> (res: [u8; 4])
    ensures
        res@ == selector_of(function_shape(*function).0, function_shape(*function).1),
{
    function.short_signature()
}

/// Decodes call data, without its selector, against a function's inputs.
///
/// Trusted: calls `Function::decode_input`, and hands out each decoded
/// value as an `ArgValue`: addresses and unsigned integers as they are, any
/// other value as `Other`. The contract claims that the result depends only
/// on the input types and the data. The call reads the elements of
/// an array one by one: where an interface declares an array of elements
/// that take no bytes, it does so as often as the array's length says,
/// whatever the data holds.
#[verifier::external_body]
pub(crate) fn decode_input(function: &Function, data: &[u8]) -> (res: Option<Vec<ArgValue>>)
    ensures
        match res {
            Some(args) => abi_decode(function_shape(*function).1, data@) == Some(args@),
            None => abi_decode(function_shape(*function).1, data@) is None,
        },
{
    match function.decode_input(data) {
        Ok(tokens) => Some(tokens.into_iter().map(|token| match token {
            Token::Address(address) => ArgValue::Address(Address { bytes: address.0 }),
            Token::Uint(value) => ArgValue::Uint(Amount { limbs: value.0 }),
            _ => ArgValue::Other,
        }).collect()),
        Err(_) => None,
    }
}

} // verus!
