//! The values that a decoded router call carries.

use crate::address::Address;
use crate::amount::Amount;
use vstd::prelude::*;

verus! {

/// One decoded argument of a contract call, as far as a swap reads it: an
/// address, an unsigned integer, or a value of any other kind.
#[derive(Clone, Copy, Debug)]
pub enum ArgValue {
    /// An address.
    Address(Address),
    /// An unsigned integer of up to 256 bits.
    Uint(Amount),
    /// A value of any other kind: a signed integer, a boolean, bytes, a
    /// string, an array or a tuple.
    Other,
}

/// What a "swap exact tokens for tokens" call asks for.
#[derive(Clone, Copy, Debug)]
pub struct DecodedSwap {
    /// The token sold.
    pub token_in: Address,
    /// The token bought.
    pub token_out: Address,
    /// How much of the token sold, in its smallest unit.
    pub amount_in: Amount,
}

impl DecodedSwap {
    /// Whether two swaps name the same tokens and the same amount.
    pub fn same_as(&self, other: &DecodedSwap) -> (res: bool)
        ensures
            res == (self.token_in@ == other.token_in@ && self.token_out@ == other.token_out@
                && self.amount_in@ == other.amount_in@),
    {
        self.token_in.same_as(&other.token_in) && self.token_out.same_as(&other.token_out)
            && self.amount_in.same_as(&other.amount_in)
    }
}

impl PartialEq for DecodedSwap {
    fn eq(&self, other: &DecodedSwap) -> (res: bool) {
        self.same_as(other)
    }
}

impl Eq for DecodedSwap {

}

impl vstd::std_specs::cmp::PartialEqSpecImpl for DecodedSwap {
    open spec fn obeys_eq_spec() -> bool {
        true
    }

    open spec fn eq_spec(&self, other: &DecodedSwap) -> bool {
        self.token_in@ == other.token_in@ && self.token_out@ == other.token_out@
            && self.amount_in@ == other.amount_in@
    }
}

/// The three fields of a decoded swap, in the order of the arguments that
/// hold them.
#[derive(Clone, Copy, Debug, PartialEq, Eq, Structural)]
pub enum SwapField {
    TokenIn,
    TokenOut,
    AmountIn,
}

/// The name of a field, as it stands in reports.
pub open spec fn field_name(field: SwapField) -> Seq<char> {
    match field {
        SwapField::TokenIn => "token_in"@,
        SwapField::TokenOut => "token_out"@,
        SwapField::AmountIn => "amount_in"@,
    }
}

impl SwapField {
    /// The name of the field.
    pub fn name(&self) -> (res: &'static str)
        ensures
            res@ == field_name(*self),
    {
        match self {
            SwapField::TokenIn => "token_in",
            SwapField::TokenOut => "token_out",
            SwapField::AmountIn => "amount_in",
        }
    }
}

/// Why call data gave no swap.
#[derive(Clone, Copy, Debug, PartialEq, Eq, Structural)]
pub enum DecodeError {
    /// The router interface has no swap function: a configuration defect.
    SchemaMissing,
    /// The call data is not a call of the swap function.
    MalformedInput,
    /// The call decoded, but the argument that holds this field is of
    /// another kind.
    FieldTypeMismatch(SwapField),
}

} // verus!
