//! The contract interfaces that the program works with.

use crate::decode::SWAP_FUNCTION;
use crate::schema::{abi_functions, find_function};
use ethers::abi::Abi;
use vstd::prelude::*;

verus! {

/// The four interfaces, parsed once when the program starts and only read
/// after that: the token standard, the pair, the factory and the router.
pub struct AbiSet {
    pub erc20: Abi,
    pub pair: Abi,
    pub factory: Abi,
    pub router: Abi,
}

impl AbiSet {
    /// Gathers the four parsed interfaces.
    pub fn new(erc20: Abi, pair: Abi, factory: Abi, router: Abi) -> (res: AbiSet)
        ensures
            res.erc20 == erc20,
            res.pair == pair,
            res.factory == factory,
            res.router == router,
    {
        AbiSet { erc20, pair, factory, router }
    }

    /// Whether the router interface declares the swap function, without
    /// which no call data can be decoded.
    pub fn declares_swap(&self) -> (res: bool)
        ensures
            res == abi_functions(self.router).contains_key(SWAP_FUNCTION@),
    {
        find_function(&self.router, SWAP_FUNCTION).is_some()
    }
}

} // verus!
