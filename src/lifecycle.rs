//! The order lifecycle as the exchange reports it. The client never drives
//! a transition: it reads the status string of each snapshot, and a status
//! it does not know is kept as unknown rather than refused.
use vstd::prelude::*;
use crate::wire::OrderData;

verus! {

/// The stages of an order: `New` (awaiting the deposit), `Pending` (deposit
/// seen), `Confirming` (confirmations accruing), `Exchange`, `Withdraw` (payout broadcasting), `Done`, and the
/// branches `Expired` and `Emergency`; `Unknown` holds any other status.
#[derive(Debug, Clone, PartialEq, Eq)]
pub enum OrderStatus {
    New,
    Pending,
    Confirming,
    Exchange,
    Withdraw,
    Done,
    Expired,
    Emergency,
    Unknown(String),
}

/// The stage named by a status string; any other string is `Unknown`.
pub open spec fn status_of(s: Seq<char>) -> OrderStatus {
    if s == "NEW"@ {
        OrderStatus::New
    } else if s == "PENDING"@ {
        OrderStatus::Pending
    } else if s == "CONFIRMING"@ {
        OrderStatus::Confirming
    } else if s == "EXCHANGE"@ {
        OrderStatus::Exchange
    } else if s == "WITHDRAW"@ {
        OrderStatus::Withdraw
    } else if s == "DONE"@ {
        OrderStatus::Done
    } else if s == "EXPIRED"@ {
        OrderStatus::Expired
    } else if s == "EMERGENCY"@ {
        OrderStatus::Emergency
    } else {
        OrderStatus::Unknown(arbitrary())
    }
}

/// The stage of an order whose status reads `s`, unknown ones carrying `s`.
pub open spec fn parsed_status(s: Seq<char>, r: OrderStatus) -> bool {
    match status_of(s) {
        OrderStatus::Unknown(_) => r is Unknown && r->Unknown_0@ == s,
        st => r == st,
    }
}

/// Terminal stages: nothing follows `Done` or `Expired`.
pub open spec fn is_terminal_status(st: OrderStatus) -> bool {
    st is Done || st is Expired
}

impl OrderStatus {
    /// Reads a status string as the exchange writes it.
    pub fn from_wire(s: &str) -> (r: OrderStatus)
        ensures
            parsed_status(s@, r),
    {
        let t = s.to_owned();
        if t == String::from_str("NEW") {
            OrderStatus::New
        } else if t == String::from_str("PENDING") {
            OrderStatus::Pending
        } else if t == String::from_str("CONFIRMING") {
            OrderStatus::Confirming
        } else if t == String::from_str("EXCHANGE") {
            OrderStatus::Exchange
        } else if t == String::from_str("WITHDRAW") {
            OrderStatus::Withdraw
        } else if t == String::from_str("DONE") {
            OrderStatus::Done
        } else if t == String::from_str("EXPIRED") {
            OrderStatus::Expired
        } else if t == String::from_str("EMERGENCY") {
            OrderStatus::Emergency
        } else {
            OrderStatus::Unknown(t)
        }
    }

    /// Whether the order can change no more.
    pub fn is_terminal(&self) -> (r: bool)
        ensures
            r == is_terminal_status(*self),
    {
        match self {
            OrderStatus::Done | OrderStatus::Expired => true,
            _ => false,
        }
    }
}

impl OrderData {
    /// The stage this snapshot reports.
    pub fn order_status(&self) -> (r: OrderStatus)
        ensures
            parsed_status(self.status@, r),
    {
        OrderStatus::from_wire(self.status.as_str())
    }
}

} // verus!
