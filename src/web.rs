//! What the service's own HTTP API accepts, and how each request becomes an
//! exchange request. The service swaps a stablecoin against Lightning
//! bitcoin (`BTCLN`) at a fixed rate; `direction` says which leg the amount
//! fixes: `from` fixes the deposit, `to` the payout.
use vstd::prelude::*;
use crate::client;

verus! {

/// A quote as the service's users ask for it.
#[derive(Debug, Clone, PartialEq, Eq)]
pub struct ExchangeRateRequest {
    pub ccy: String,
    pub direction: String,
    pub amount: String,
}

/// An order as the service's users ask for it.
#[derive(Debug, Clone, PartialEq, Eq)]
pub struct CreateOrderRequest {
    pub ccy: String,
    pub direction: String,
    pub amount: String,
    pub to_address: String,
}

/// The two legs for a direction: the user's currency is deposited for
/// `from`, paid out for `to`; any other direction has none.
pub open spec fn legs_for(ccy: Seq<char>, direction: Seq<char>) -> Option<(Seq<char>, Seq<char>)> {
    if direction == "from"@ {
        Some((ccy, "BTCLN"@))
    } else if direction == "to"@ {
        Some(("BTCLN"@, ccy))
    } else {
        None
    }
}

fn legs(ccy: &String, direction: &String) -> (r: Option<(String, String)>)
    ensures
        match r {
            Some((a, b)) => legs_for(ccy@, direction@) == Some((a@, b@)),
            None => legs_for(ccy@, direction@) is None,
        },
{
    if *direction == String::from_str("from") {
        Some((ccy.clone(), String::from_str("BTCLN")))
    } else if *direction == String::from_str("to") {
        Some((String::from_str("BTCLN"), ccy.clone()))
    } else {
        None
    }
}

impl ExchangeRateRequest {
    /// The fixed-rate quote for this request, with no optional members;
    /// `None` for a direction other than `from` or `to`.
    pub fn to_quote(&self) -> (r: Option<client::ExchangeRateRequest>)
        ensures
            match r {
                Some(q) => legs_for(self.ccy@, self.direction@) == Some((q.from_ccy@, q.to_ccy@))
                    && q.order_type@ == "fixed"@ && q.direction@ == self.direction@ && q.amount@
                    == self.amount@ && q.ccies is None && q.usd is None && q.refcode is None
                    && q.afftax is None,
                None => legs_for(self.ccy@, self.direction@) is None,
            },
    {
        let (from_ccy, to_ccy) = legs(&self.ccy, &self.direction)?;
        Some(
            client::ExchangeRateRequest {
                order_type: String::from_str("fixed"),
                from_ccy,
                to_ccy,
                direction: self.direction.clone(),
                amount: self.amount.clone(),
                ccies: None,
                usd: None,
                refcode: None,
                afftax: None,
            },
        )
    }
}

impl CreateOrderRequest {
    /// The fixed-rate order for this request, paying out to `to_address`;
    /// `None` for a direction other than `from` or `to`.
    pub fn to_order(&self) -> (r: Option<client::CreateOrderRequest>)
        ensures
            match r {
                Some(o) => legs_for(self.ccy@, self.direction@) == Some((o.from_ccy@, o.to_ccy@))
                    && o.order_type@ == "fixed"@ && o.direction@ == self.direction@ && o.amount@
                    == self.amount@ && o.to_address@ == self.to_address@ && o.tag is None
                    && o.refcode is None && o.afftax is None,
                None => legs_for(self.ccy@, self.direction@) is None,
            },
    {
        let (from_ccy, to_ccy) = legs(&self.ccy, &self.direction)?;
        Some(
            client::CreateOrderRequest {
                order_type: String::from_str("fixed"),
                from_ccy,
                to_ccy,
                direction: self.direction.clone(),
                amount: self.amount.clone(),
                to_address: self.to_address.clone(),
                tag: None,
                refcode: None,
                afftax: None,
            },
        )
    }
}

} // verus!
