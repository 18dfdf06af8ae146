//! The stablecoins the service accepts, with their token contracts.
use vstd::prelude::*;

verus! {

/// A stablecoin on a given chain: USDC or USDT, on Ethereum or Tron.
#[derive(Debug, Clone, Copy, PartialEq, Eq)]
pub enum SupportedCurrency {
    USDCETH,
    USDCTRC,
    USDTETH,
    USDTTRC,
}

/// The exchange's code for each currency.
pub open spec fn code_of(c: SupportedCurrency) -> Seq<char> {
    match c {
        SupportedCurrency::USDCETH => "USDCETH"@,
        SupportedCurrency::USDCTRC => "USDCTRC"@,
        SupportedCurrency::USDTETH => "USDTETH"@,
        SupportedCurrency::USDTTRC => "USDTTRC"@,
    }
}

/// The token contract of each currency on its chain.
pub open spec fn contract_of(c: SupportedCurrency) -> Seq<char> {
    match c {
        SupportedCurrency::USDCETH => "0xA0b86991c6218b36c1d19D4a2e9Eb0cE3606eB48"@,
        SupportedCurrency::USDCTRC => "TEkxiTehnzSmSe2XqrBj4w32RUN966rdz8"@,
        SupportedCurrency::USDTETH => "0xdAC17F958D2ee523a2206206994597C13D831ec7"@,
        SupportedCurrency::USDTTRC => "TR7NHqjeKQxGTCi8q8ZY4pL8otSzgjLj6t"@,
    }
}

/// The codes offered to users, in this order.
pub open spec fn offered_codes() -> Seq<Seq<char>> {
    seq!["USDCETH"@, "USDTETH"@, "USDTTRC"@]
}

impl SupportedCurrency {
    /// The codes offered to users: USDC on Ethereum and USDT on Ethereum and Tron.
    pub fn get_all() -> (r: Vec<String>)
        ensures
            r@.len() == 3,
            forall|i: int| 0 <= i < 3 ==> #[trigger] r@[i]@ == offered_codes()[i],
    {
        let mut v: Vec<String> = Vec::new();
        v.push(String::from_str("USDCETH"));
        v.push(String::from_str("USDTETH"));
        v.push(String::from_str("USDTTRC"));
        v
    }

    /// The exchange's code for this currency.
    pub fn to_str(&self) -> (r: String)
        ensures
            r@ == code_of(*self),
    {
        match self {
            SupportedCurrency::USDCETH => String::from_str("USDCETH"),
            SupportedCurrency::USDCTRC => String::from_str("USDCTRC"),
            SupportedCurrency::USDTETH => String::from_str("USDTETH"),
            SupportedCurrency::USDTTRC => String::from_str("USDTTRC"),
        }
    }

    /// The token contract of this currency.
    pub fn get_contract_address(&self) -> (r: String)
        ensures
            r@ == contract_of(*self),
    {
        match self {
            SupportedCurrency::USDCETH => String::from_str(
                "0xA0b86991c6218b36c1d19D4a2e9Eb0cE3606eB48",
            ),
            SupportedCurrency::USDCTRC => String::from_str("TEkxiTehnzSmSe2XqrBj4w32RUN966rdz8"),
            SupportedCurrency::USDTETH => String::from_str(
                "0xdAC17F958D2ee523a2206206994597C13D831ec7",
            ),
            SupportedCurrency::USDTTRC => String::from_str("TR7NHqjeKQxGTCi8q8ZY4pL8otSzgjLj6t"),
        }
    }
}

} // verus!
