//! The Ethereum stablecoins the exchange client knows, with their token
//! contracts.
use vstd::prelude::*;

verus! {

/// USDC or USDT on Ethereum.
#[derive(Debug, Clone, Copy, PartialEq, Eq)]
pub enum SupportedCurrency {
    USDCETH,
    USDTETH,
}

/// The exchange's code for each currency.
pub open spec fn code_of(c: SupportedCurrency) -> Seq<char> {
    match c {
        SupportedCurrency::USDCETH => "USDCETH"@,
        SupportedCurrency::USDTETH => "USDTETH"@,
    }
}

/// The token contract of each currency on its chain.
pub open spec fn contract_of(c: SupportedCurrency) -> Seq<char> {
    match c {
        SupportedCurrency::USDCETH => "0xA0b86991c6218b36c1d19D4a2e9Eb0cE3606eB48"@,
        SupportedCurrency::USDTETH => "0xdAC17F958D2ee523a2206206994597C13D831ec7"@,
    }
}

impl SupportedCurrency {
    /// The exchange's code for this currency.
    pub fn to_str(&self) -> (r: String)
        ensures
            r@ == code_of(*self),
    {
        match self {
            SupportedCurrency::USDCETH => String::from_str("USDCETH"),
            SupportedCurrency::USDTETH => String::from_str("USDTETH"),
        }
    }

    /// The token contract of this currency.
    pub fn get_contract_address(&self) -> (r: String)
        ensures
            r@ == contract_of(*self),
    {
        match self {
            SupportedCurrency::USDCETH => String::from_str(
                "0xA0b86991c6218b36c1d19D4a2e9Eb0cE3606eB48",
            ),
            SupportedCurrency::USDTETH => String::from_str(
                "0xdAC17F958D2ee523a2206206994597C13D831ec7",
            ),
        }
    }
}

} // verus!
