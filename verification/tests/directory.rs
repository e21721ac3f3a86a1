use ethers::abi::Abi;
use swap_core::directory::AbiSet;
use swap_core::swap::SwapField;

fn parse(text: &str) -> Abi {
    serde_json::from_str(text).unwrap()
}

const ROUTER: &str = "[{\"type\":\"function\",\"name\":\"swapExactTokensForTokens\",\
    \"inputs\":[{\"name\":\"tokenIn\",\"type\":\"address\"},{\"name\":\"tokenOut\",\"type\":\"address\"},\
    {\"name\":\"amountIn\",\"type\":\"uint256\"}],\"outputs\":[],\"stateMutability\":\"nonpayable\"}]";

const FACTORY: &str = "[{\"type\":\"function\",\"name\":\"getPair\",\
    \"inputs\":[{\"name\":\"tokenA\",\"type\":\"address\"},{\"name\":\"tokenB\",\"type\":\"address\"}],\
    \"outputs\":[{\"name\":\"pair\",\"type\":\"address\"}],\"stateMutability\":\"view\"}]";

const ERC20: &str = "[{\"type\":\"function\",\"name\":\"balanceOf\",\
    \"inputs\":[{\"name\":\"owner\",\"type\":\"address\"}],\
    \"outputs\":[{\"name\":\"balance\",\"type\":\"uint256\"}],\"stateMutability\":\"view\"}]";

#[test]
fn directory_with_a_swap_router_is_complete() {
    let abis = AbiSet::new(parse(ERC20), parse("[]"), parse(FACTORY), parse(ROUTER));
    assert!(abis.declares_swap());
    assert!(abis.factory.function("getPair").is_ok());
    assert!(abis.erc20.function("balanceOf").is_ok());
    assert!(abis.pair.functions.is_empty());
}

#[test]
fn directory_with_another_router_lacks_the_swap() {
    let abis = AbiSet::new(parse(ERC20), parse("[]"), parse(ROUTER), parse(FACTORY));
    assert!(!abis.declares_swap());
    let abis = AbiSet::new(parse(ROUTER), parse(ROUTER), parse(ROUTER), parse("[]"));
    assert!(!abis.declares_swap());
}

#[test]
fn swap_is_looked_up_by_its_exact_name() {
    let renamed = ROUTER.replace("swapExactTokensForTokens", "swapExactTokensForTokensSupportingFeeOnTransferTokens");
    let abis = AbiSet::new(parse("[]"), parse("[]"), parse("[]"), parse(&renamed));
    assert!(!abis.declares_swap());
    let lower = ROUTER.replace("swapExactTokensForTokens", "swapexacttokensfortokens");
    let abis = AbiSet::new(parse("[]"), parse("[]"), parse("[]"), parse(&lower));
    assert!(!abis.declares_swap());
}

#[test]
fn fields_are_named_as_in_reports() {
    assert_eq!(SwapField::TokenIn.name(), "token_in");
    assert_eq!(SwapField::TokenOut.name(), "token_out");
    assert_eq!(SwapField::AmountIn.name(), "amount_in");
}
