//! Optional members may be missing: a record whose optional members are all
//! absent still decodes, and each of them reads as absent, never as a zero
//! or an empty string.
use vstd::prelude::*;
use crate::json::{JsonV, lookup};
use crate::wire::{OrderCurrencyV, TransactionV, order_currency_of, transaction_of};

verus! {

/// A transaction with no members at all decodes, every field absent.
pub proof fn lemma_transaction_all_absent()
    ensures
        transaction_of(JsonV::Object(seq![])) == Some(
            (TransactionV {
                id: None,
                amount: None,
                fee: None,
                ccyfee: None,
                time_reg: None,
                time_block: None,
                confirmations: None,
            }),
        ),
{
}

/// A leg that carries only its required `code` and `amount` decodes, every
/// optional field absent, its transaction included.
pub proof fn lemma_order_currency_all_absent(code: Seq<char>, amount: Seq<char>)
    ensures
        order_currency_of(
            JsonV::Object(seq![("code"@, JsonV::Str(code)), ("amount"@, JsonV::Str(amount))]),
        ) == Some(
            (OrderCurrencyV {
                code,
                network: None,
                coin: None,
                amount,
                rate: None,
                precision: None,
                min: None,
                max: None,
                usd: None,
                btc: None,
                address: None,
                address_alt: None,
                tag: None,
                tag_name: None,
                req_confirmations: None,
                max_confirmations: None,
                tx: None,
            }),
        ),
{
    reveal_strlit("code");
    reveal_strlit("network");
    reveal_strlit("coin");
    reveal_strlit("amount");
    reveal_strlit("rate");
    reveal_strlit("precision");
    reveal_strlit("min");
    reveal_strlit("max");
    reveal_strlit("usd");
    reveal_strlit("btc");
    reveal_strlit("address");
    reveal_strlit("addressAlt");
    reveal_strlit("tag");
    reveal_strlit("tagName");
    reveal_strlit("reqConfirmations");
    reveal_strlit("maxConfirmations");
    reveal_strlit("tx");
    assert("code"@ =~= seq!['c', 'o', 'd', 'e']);
    assert("network"@ =~= seq!['n', 'e', 't', 'w', 'o', 'r', 'k']);
    assert("coin"@ =~= seq!['c', 'o', 'i', 'n']);
    assert("amount"@ =~= seq!['a', 'm', 'o', 'u', 'n', 't']);
    assert("rate"@ =~= seq!['r', 'a', 't', 'e']);
    assert("precision"@ =~= seq!['p', 'r', 'e', 'c', 'i', 's', 'i', 'o', 'n']);
    assert("min"@ =~= seq!['m', 'i', 'n']);
    assert("max"@ =~= seq!['m', 'a', 'x']);
    assert("usd"@ =~= seq!['u', 's', 'd']);
    assert("btc"@ =~= seq!['b', 't', 'c']);
    assert("address"@ =~= seq!['a', 'd', 'd', 'r', 'e', 's', 's']);
    assert("addressAlt"@ =~= seq!['a', 'd', 'd', 'r', 'e', 's', 's', 'A', 'l', 't']);
    assert("tag"@ =~= seq!['t', 'a', 'g']);
    assert("tagName"@ =~= seq!['t', 'a', 'g', 'N', 'a', 'm', 'e']);
    assert("reqConfirmations"@ =~= seq!['r', 'e', 'q', 'C', 'o', 'n', 'f', 'i', 'r', 'm', 'a', 't', 'i', 'o', 'n', 's']);
    assert("maxConfirmations"@ =~= seq!['m', 'a', 'x', 'C', 'o', 'n', 'f', 'i', 'r', 'm', 'a', 't', 'i', 'o', 'n', 's']);
    assert("tx"@ =~= seq!['t', 'x']);
    let m = seq![("code"@, JsonV::Str(code)), ("amount"@, JsonV::Str(amount))];
    let rest = m.drop_first();
    assert(rest =~= seq![("amount"@, JsonV::Str(amount))]);
    assert(rest.drop_first() =~= Seq::<(Seq<char>, JsonV)>::empty());
    reveal_with_fuel(lookup, 3);
}

} // verus!
