//! Writing a record and reading it back gives the same record: for every
//! wire record, decoding the JSON written for it returns it unchanged.
use vstd::prelude::*;
use crate::json::{JsonV, field, int_text, lemma_int_text_round_trip, lookup};
use crate::reply::{
    Reply, currency_response_json, currency_response_reply, envelope_of, exchange_rate_response_json,
    exchange_rate_response_reply,
};
use crate::members::{lemma_lookup_concat, lemma_lookup_entry, lemma_strs_member_of_entry, strs_json};
use crate::wire::{
    AssetV, BackCurrencyV, CcyV, CurrencyV, EmergencyV, ExchangeRateResponseDataV, TimeV, TransactionV, asset_json, asset_of, back_currency_json, back_currency_of, ccy_json, ccy_list_json, ccy_list_of, ccy_of, currency_json, currency_list_json, currency_list_of, currency_of, emergency_json, emergency_of, exchange_rate_response_data_json, exchange_rate_response_data_of, time_json, time_of, transaction_json, transaction_of,
};

verus! {

/// Decoding the JSON object written for a [`Transaction`] gives it back.
#[verifier::spinoff_prover]
#[verifier::rlimit(100)]
pub proof fn lemma_transaction_round_trip(v: TransactionV)
    ensures
        transaction_of(transaction_json(v)) == Some(v),
{
    let j = transaction_json(v);
    reveal_strlit("id");
    reveal_strlit("amount");
    reveal_strlit("fee");
    reveal_strlit("ccyfee");
    reveal_strlit("timeReg");
    reveal_strlit("timeBlock");
    reveal_strlit("confirmations");
    assert("id"@ =~= seq!['i', 'd']);
    assert("amount"@ =~= seq!['a', 'm', 'o', 'u', 'n', 't']);
    assert("fee"@ =~= seq!['f', 'e', 'e']);
    assert("ccyfee"@ =~= seq!['c', 'c', 'y', 'f', 'e', 'e']);
    assert("timeReg"@ =~= seq!['t', 'i', 'm', 'e', 'R', 'e', 'g']);
    assert("timeBlock"@ =~= seq!['t', 'i', 'm', 'e', 'B', 'l', 'o', 'c', 'k']);
    assert("confirmations"@ =~= seq!['c', 'o', 'n', 'f', 'i', 'r', 'm', 'a', 't', 'i', 'o', 'n', 's']);
    assert(field(j, "id"@) == match v.id {
        Some(s) => Some(JsonV::Str(s)),
        None => None,
    }) by {
        broadcast use lemma_lookup_concat, lemma_lookup_entry;

    }
    assert(field(j, "amount"@) == match v.amount {
        Some(s) => Some(JsonV::Str(s)),
        None => None,
    }) by {
        broadcast use lemma_lookup_concat, lemma_lookup_entry;

    }
    assert(field(j, "fee"@) == match v.fee {
        Some(s) => Some(JsonV::Str(s)),
        None => None,
    }) by {
        broadcast use lemma_lookup_concat, lemma_lookup_entry;

    }
    assert(field(j, "ccyfee"@) == match v.ccyfee {
        Some(s) => Some(JsonV::Str(s)),
        None => None,
    }) by {
        broadcast use lemma_lookup_concat, lemma_lookup_entry;

    }
    assert(field(j, "timeReg"@) == match v.time_reg {
        Some(x) => Some(JsonV::Number(int_text(x as int))),
        None => None,
    }) by {
        broadcast use lemma_lookup_concat, lemma_lookup_entry;

    }
    assert(field(j, "timeBlock"@) == match v.time_block {
        Some(x) => Some(JsonV::Number(int_text(x as int))),
        None => None,
    }) by {
        broadcast use lemma_lookup_concat, lemma_lookup_entry;

    }
    assert(field(j, "confirmations"@) == match v.confirmations {
        Some(s) => Some(JsonV::Str(s)),
        None => None,
    }) by {
        broadcast use lemma_lookup_concat, lemma_lookup_entry;

    }
    if v.time_reg is Some {
        lemma_int_text_round_trip(v.time_reg->Some_0 as int);
    }
    if v.time_block is Some {
        lemma_int_text_round_trip(v.time_block->Some_0 as int);
    }
}

/// Decoding the JSON object written for a [`Time`] gives it back.
#[verifier::spinoff_prover]
#[verifier::rlimit(100)]
pub proof fn lemma_time_round_trip(v: TimeV)
    ensures
        time_of(time_json(v)) == Some(v),
{
    let j = time_json(v);
    reveal_strlit("reg");
    reveal_strlit("start");
    reveal_strlit("finish");
    reveal_strlit("update");
    reveal_strlit("expiration");
    reveal_strlit("left");
    assert("reg"@ =~= seq!['r', 'e', 'g']);
    assert("start"@ =~= seq!['s', 't', 'a', 'r', 't']);
    assert("finish"@ =~= seq!['f', 'i', 'n', 'i', 's', 'h']);
    assert("update"@ =~= seq!['u', 'p', 'd', 'a', 't', 'e']);
    assert("expiration"@ =~= seq!['e', 'x', 'p', 'i', 'r', 'a', 't', 'i', 'o', 'n']);
    assert("left"@ =~= seq!['l', 'e', 'f', 't']);
    assert(field(j, "reg"@) == Some(JsonV::Number(int_text(v.reg as int)))) by {
        broadcast use lemma_lookup_concat, lemma_lookup_entry;

    }
    assert(field(j, "start"@) == match v.start {
        Some(x) => Some(JsonV::Number(int_text(x as int))),
        None => None,
    }) by {
        broadcast use lemma_lookup_concat, lemma_lookup_entry;

    }
    assert(field(j, "finish"@) == match v.finish {
        Some(x) => Some(JsonV::Number(int_text(x as int))),
        None => None,
    }) by {
        broadcast use lemma_lookup_concat, lemma_lookup_entry;

    }
    assert(field(j, "update"@) == Some(JsonV::Number(int_text(v.update as int)))) by {
        broadcast use lemma_lookup_concat, lemma_lookup_entry;

    }
    assert(field(j, "expiration"@) == Some(JsonV::Number(int_text(v.expiration as int)))) by {
        broadcast use lemma_lookup_concat, lemma_lookup_entry;

    }
    assert(field(j, "left"@) == Some(JsonV::Number(int_text(v.left as int)))) by {
        broadcast use lemma_lookup_concat, lemma_lookup_entry;

    }
    lemma_int_text_round_trip(v.reg as int);
    if v.start is Some {
        lemma_int_text_round_trip(v.start->Some_0 as int);
    }
    if v.finish is Some {
        lemma_int_text_round_trip(v.finish->Some_0 as int);
    }
    lemma_int_text_round_trip(v.update as int);
    lemma_int_text_round_trip(v.expiration as int);
    lemma_int_text_round_trip(v.left as int);
}

/// Decoding the JSON object written for a [`Emergency`] gives it back.
pub proof fn lemma_emergency_round_trip(v: EmergencyV)
    ensures
        emergency_of(emergency_json(v)) == Some(v),
{
    let j = emergency_json(v);
    reveal_strlit("status");
    reveal_strlit("choice");
    reveal_strlit("repeat");
    assert("status"@ =~= seq!['s', 't', 'a', 't', 'u', 's']);
    assert("choice"@ =~= seq!['c', 'h', 'o', 'i', 'c', 'e']);
    assert("repeat"@ =~= seq!['r', 'e', 'p', 'e', 'a', 't']);
    assert(field(j, "status"@) == Some(strs_json(v.status))) by {
        broadcast use lemma_lookup_concat, lemma_lookup_entry;

    }
    assert(field(j, "choice"@) == Some(JsonV::Str(v.choice))) by {
        broadcast use lemma_lookup_concat, lemma_lookup_entry;

    }
    assert(field(j, "repeat"@) == Some(JsonV::Str(v.repeat))) by {
        broadcast use lemma_lookup_concat, lemma_lookup_entry;

    }
    lemma_strs_member_of_entry(j, "status"@, v.status);
}

/// Decoding the JSON object written for a [`Currency`] gives it back.
#[verifier::spinoff_prover]
#[verifier::rlimit(100)]
pub proof fn lemma_currency_round_trip(v: CurrencyV)
    ensures
        currency_of(currency_json(v)) == Some(v),
{
    let j = currency_json(v);
    reveal_strlit("code");
    reveal_strlit("coin");
    reveal_strlit("network");
    reveal_strlit("name");
    reveal_strlit("recv");
    reveal_strlit("send");
    reveal_strlit("tag");
    reveal_strlit("logo");
    reveal_strlit("color");
    reveal_strlit("priority");
    assert("code"@ =~= seq!['c', 'o', 'd', 'e']);
    assert("coin"@ =~= seq!['c', 'o', 'i', 'n']);
    assert("network"@ =~= seq!['n', 'e', 't', 'w', 'o', 'r', 'k']);
    assert("name"@ =~= seq!['n', 'a', 'm', 'e']);
    assert("recv"@ =~= seq!['r', 'e', 'c', 'v']);
    assert("send"@ =~= seq!['s', 'e', 'n', 'd']);
    assert("tag"@ =~= seq!['t', 'a', 'g']);
    assert("logo"@ =~= seq!['l', 'o', 'g', 'o']);
    assert("color"@ =~= seq!['c', 'o', 'l', 'o', 'r']);
    assert("priority"@ =~= seq!['p', 'r', 'i', 'o', 'r', 'i', 't', 'y']);
    assert(field(j, "code"@) == Some(JsonV::Str(v.code))) by {
        broadcast use lemma_lookup_concat, lemma_lookup_entry;

    }
    assert(field(j, "coin"@) == Some(JsonV::Str(v.coin))) by {
        broadcast use lemma_lookup_concat, lemma_lookup_entry;

    }
    assert(field(j, "network"@) == Some(JsonV::Str(v.network))) by {
        broadcast use lemma_lookup_concat, lemma_lookup_entry;

    }
    assert(field(j, "name"@) == Some(JsonV::Str(v.name))) by {
        broadcast use lemma_lookup_concat, lemma_lookup_entry;

    }
    assert(field(j, "recv"@) == Some(JsonV::Number(int_text(v.recv as int)))) by {
        broadcast use lemma_lookup_concat, lemma_lookup_entry;

    }
    assert(field(j, "send"@) == Some(JsonV::Number(int_text(v.send as int)))) by {
        broadcast use lemma_lookup_concat, lemma_lookup_entry;

    }
    assert(field(j, "tag"@) == match v.tag {
        Some(s) => Some(JsonV::Str(s)),
        None => None,
    }) by {
        broadcast use lemma_lookup_concat, lemma_lookup_entry;

    }
    assert(field(j, "logo"@) == Some(JsonV::Str(v.logo))) by {
        broadcast use lemma_lookup_concat, lemma_lookup_entry;

    }
    assert(field(j, "color"@) == Some(JsonV::Str(v.color))) by {
        broadcast use lemma_lookup_concat, lemma_lookup_entry;

    }
    assert(field(j, "priority"@) == Some(JsonV::Number(int_text(v.priority as int)))) by {
        broadcast use lemma_lookup_concat, lemma_lookup_entry;

    }
    lemma_int_text_round_trip(v.recv as int);
    lemma_int_text_round_trip(v.send as int);
    lemma_int_text_round_trip(v.priority as int);
}

/// Decoding the JSON object written for a [`Asset`] gives it back.
#[verifier::spinoff_prover]
#[verifier::rlimit(100)]
pub proof fn lemma_asset_round_trip(v: AssetV)
    ensures
        asset_of(asset_json(v)) == Some(v),
{
    let j = asset_json(v);
    reveal_strlit("code");
    reveal_strlit("network");
    reveal_strlit("coin");
    reveal_strlit("amount");
    reveal_strlit("rate");
    reveal_strlit("precision");
    reveal_strlit("min");
    reveal_strlit("max");
    reveal_strlit("usd");
    reveal_strlit("btc");
    assert("code"@ =~= seq!['c', 'o', 'd', 'e']);
    assert("network"@ =~= seq!['n', 'e', 't', 'w', 'o', 'r', 'k']);
    assert("coin"@ =~= seq!['c', 'o', 'i', 'n']);
    assert("amount"@ =~= seq!['a', 'm', 'o', 'u', 'n', 't']);
    assert("rate"@ =~= seq!['r', 'a', 't', 'e']);
    assert("precision"@ =~= seq!['p', 'r', 'e', 'c', 'i', 's', 'i', 'o', 'n']);
    assert("min"@ =~= seq!['m', 'i', 'n']);
    assert("max"@ =~= seq!['m', 'a', 'x']);
    assert("usd"@ =~= seq!['u', 's', 'd']);
    assert("btc"@ =~= seq!['b', 't', 'c']);
    assert(field(j, "code"@) == Some(JsonV::Str(v.code))) by {
        broadcast use lemma_lookup_concat, lemma_lookup_entry;

    }
    assert(field(j, "network"@) == Some(JsonV::Str(v.network))) by {
        broadcast use lemma_lookup_concat, lemma_lookup_entry;

    }
    assert(field(j, "coin"@) == Some(JsonV::Str(v.coin))) by {
        broadcast use lemma_lookup_concat, lemma_lookup_entry;

    }
    assert(field(j, "amount"@) == Some(JsonV::Str(v.amount))) by {
        broadcast use lemma_lookup_concat, lemma_lookup_entry;

    }
    assert(field(j, "rate"@) == match v.rate {
        Some(s) => Some(JsonV::Str(s)),
        None => None,
    }) by {
        broadcast use lemma_lookup_concat, lemma_lookup_entry;

    }
    assert(field(j, "precision"@) == match v.precision {
        Some(x) => Some(JsonV::Number(int_text(x as int))),
        None => None,
    }) by {
        broadcast use lemma_lookup_concat, lemma_lookup_entry;

    }
    assert(field(j, "min"@) == match v.min {
        Some(s) => Some(JsonV::Str(s)),
        None => None,
    }) by {
        broadcast use lemma_lookup_concat, lemma_lookup_entry;

    }
    assert(field(j, "max"@) == match v.max {
        Some(s) => Some(JsonV::Str(s)),
        None => None,
    }) by {
        broadcast use lemma_lookup_concat, lemma_lookup_entry;

    }
    assert(field(j, "usd"@) == match v.usd {
        Some(s) => Some(JsonV::Str(s)),
        None => None,
    }) by {
        broadcast use lemma_lookup_concat, lemma_lookup_entry;

    }
    assert(field(j, "btc"@) == match v.btc {
        Some(s) => Some(JsonV::Str(s)),
        None => None,
    }) by {
        broadcast use lemma_lookup_concat, lemma_lookup_entry;

    }
    if v.precision is Some {
        lemma_int_text_round_trip(v.precision->Some_0 as int);
    }
}

/// Decoding the JSON object written for a [`Ccy`] gives it back.
pub proof fn lemma_ccy_round_trip(v: CcyV)
    ensures
        ccy_of(ccy_json(v)) == Some(v),
{
    let j = ccy_json(v);
    reveal_strlit("code");
    reveal_strlit("recv");
    reveal_strlit("send");
    assert("code"@ =~= seq!['c', 'o', 'd', 'e']);
    assert("recv"@ =~= seq!['r', 'e', 'c', 'v']);
    assert("send"@ =~= seq!['s', 'e', 'n', 'd']);
    assert(field(j, "code"@) == Some(JsonV::Str(v.code))) by {
        broadcast use lemma_lookup_concat, lemma_lookup_entry;

    }
    assert(field(j, "recv"@) == Some(JsonV::Bool(v.recv))) by {
        broadcast use lemma_lookup_concat, lemma_lookup_entry;

    }
    assert(field(j, "send"@) == Some(JsonV::Bool(v.send))) by {
        broadcast use lemma_lookup_concat, lemma_lookup_entry;

    }
}

/// Decoding the JSON object written for a [`ExchangeRateResponseData`] gives it back.
pub proof fn lemma_exchange_rate_response_data_round_trip(v: ExchangeRateResponseDataV)
    ensures
        exchange_rate_response_data_of(exchange_rate_response_data_json(v)) == Some(v),
{
    let j = exchange_rate_response_data_json(v);
    reveal_strlit("from");
    reveal_strlit("to");
    reveal_strlit("ccies");
    assert("from"@ =~= seq!['f', 'r', 'o', 'm']);
    assert("to"@ =~= seq!['t', 'o']);
    assert("ccies"@ =~= seq!['c', 'c', 'i', 'e', 's']);
    assert(field(j, "from"@) == Some(asset_json(v.from))) by {
        broadcast use lemma_lookup_concat, lemma_lookup_entry;

    }
    assert(field(j, "to"@) == Some(asset_json(v.to))) by {
        broadcast use lemma_lookup_concat, lemma_lookup_entry;

    }
    assert(field(j, "ccies"@) == match v.ccies {
        Some(s) => Some(ccy_list_json(s)),
        None => None,
    }) by {
        broadcast use lemma_lookup_concat, lemma_lookup_entry;

    }
    lemma_asset_round_trip(v.from);
    lemma_asset_round_trip(v.to);
    if v.ccies is Some {
        lemma_ccy_list_round_trip(v.ccies->Some_0);
    }
}

/// Decoding the JSON object written for a [`BackCurrency`] gives it back.
#[verifier::spinoff_prover]
#[verifier::rlimit(100)]
pub proof fn lemma_back_currency_round_trip(v: BackCurrencyV)
    ensures
        back_currency_of(back_currency_json(v)) == Some(v),
{
    let j = back_currency_json(v);
    reveal_strlit("code");
    reveal_strlit("network");
    reveal_strlit("coin");
    reveal_strlit("amount");
    reveal_strlit("alias");
    reveal_strlit("address");
    reveal_strlit("tag");
    reveal_strlit("tagName");
    reveal_strlit("tx");
    assert("code"@ =~= seq!['c', 'o', 'd', 'e']);
    assert("network"@ =~= seq!['n', 'e', 't', 'w', 'o', 'r', 'k']);
    assert("coin"@ =~= seq!['c', 'o', 'i', 'n']);
    assert("amount"@ =~= seq!['a', 'm', 'o', 'u', 'n', 't']);
    assert("alias"@ =~= seq!['a', 'l', 'i', 'a', 's']);
    assert("address"@ =~= seq!['a', 'd', 'd', 'r', 'e', 's', 's']);
    assert("tag"@ =~= seq!['t', 'a', 'g']);
    assert("tagName"@ =~= seq!['t', 'a', 'g', 'N', 'a', 'm', 'e']);
    assert("tx"@ =~= seq!['t', 'x']);
    assert(field(j, "code"@) == Some(JsonV::Str(v.code))) by {
        broadcast use lemma_lookup_concat, lemma_lookup_entry;

    }
    assert(field(j, "network"@) == match v.network {
        Some(s) => Some(JsonV::Str(s)),
        None => None,
    }) by {
        broadcast use lemma_lookup_concat, lemma_lookup_entry;

    }
    assert(field(j, "coin"@) == match v.coin {
        Some(s) => Some(JsonV::Str(s)),
        None => None,
    }) by {
        broadcast use lemma_lookup_concat, lemma_lookup_entry;

    }
    assert(field(j, "amount"@) == match v.amount {
        Some(s) => Some(JsonV::Str(s)),
        None => None,
    }) by {
        broadcast use lemma_lookup_concat, lemma_lookup_entry;

    }
    assert(field(j, "alias"@) == match v.alias {
        Some(s) => Some(JsonV::Str(s)),
        None => None,
    }) by {
        broadcast use lemma_lookup_concat, lemma_lookup_entry;

    }
    assert(field(j, "address"@) == match v.address {
        Some(s) => Some(JsonV::Str(s)),
        None => None,
    }) by {
        broadcast use lemma_lookup_concat, lemma_lookup_entry;

    }
    assert(field(j, "tag"@) == match v.tag {
        Some(s) => Some(JsonV::Str(s)),
        None => None,
    }) by {
        broadcast use lemma_lookup_concat, lemma_lookup_entry;

    }
    assert(field(j, "tagName"@) == match v.tag_name {
        Some(s) => Some(JsonV::Str(s)),
        None => None,
    }) by {
        broadcast use lemma_lookup_concat, lemma_lookup_entry;

    }
    assert(field(j, "tx"@) == match v.tx {
        Some(t) => Some(transaction_json(t)),
        None => None,
    }) by {
        broadcast use lemma_lookup_concat, lemma_lookup_entry;

    }
    if v.tx is Some {
        lemma_transaction_round_trip(v.tx->Some_0);
    }
}

/// Decoding the JSON array written for a list of currencies gives it back.
pub proof fn lemma_currency_list_round_trip(s: Seq<CurrencyV>)
    ensures
        currency_list_of(currency_list_json(s)) == Some(s),
{
    let a = currency_list_json(s)->Array_0;
    assert forall|i: int| 0 <= i < a.len() implies currency_of(#[trigger] a[i]) == Some(s[i]) by {
        lemma_currency_round_trip(s[i]);
    }
    assert(Seq::new(a.len(), |i: int| currency_of(a[i])->Some_0) =~= s);
}

/// Decoding the JSON array written for a list of currency codes gives it back.
pub proof fn lemma_ccy_list_round_trip(s: Seq<CcyV>)
    ensures
        ccy_list_of(ccy_list_json(s)) == Some(s),
{
    let a = ccy_list_json(s)->Array_0;
    assert forall|i: int| 0 <= i < a.len() implies ccy_of(#[trigger] a[i]) == Some(s[i]) by {
        lemma_ccy_round_trip(s[i]);
    }
    assert(Seq::new(a.len(), |i: int| ccy_of(a[i])->Some_0) =~= s);
}

/// A quote reply written with code zero reads back as accepted, with the
/// same message and payload.
pub proof fn lemma_exchange_rate_response_round_trip(msg: Seq<char>, d: ExchangeRateResponseDataV)
    ensures
        exchange_rate_response_reply(exchange_rate_response_json(0, msg, d)) == Reply::Accepted(msg, d),
{
    lemma_envelope_members(exchange_rate_response_json(0, msg, d), msg, exchange_rate_response_data_json(d));
    lemma_exchange_rate_response_data_round_trip(d);
}

/// A currency-list reply written with code zero reads back as accepted,
/// with the same message and list.
pub proof fn lemma_currency_response_round_trip(msg: Seq<char>, d: Seq<CurrencyV>)
    ensures
        currency_response_reply(currency_response_json(0, msg, d)) == Reply::Accepted(msg, d),
{
    lemma_envelope_members(currency_response_json(0, msg, d), msg, currency_list_json(d));
    lemma_currency_list_round_trip(d);
}

proof fn lemma_envelope_members(j: JsonV, msg: Seq<char>, data: JsonV)
    requires
        j == JsonV::Object(
            seq![("code"@, JsonV::Number(int_text(0))), ("msg"@, JsonV::Str(msg)), ("data"@, data)],
        ),
    ensures
        envelope_of(j) == Some((0i32, msg)),
        field(j, "data"@) == Some(data),
{
    reveal_strlit("code");
    reveal_strlit("msg");
    reveal_strlit("data");
    assert("code"@ =~= seq!['c', 'o', 'd', 'e']);
    assert("msg"@ =~= seq!['m', 's', 'g']);
    assert("data"@ =~= seq!['d', 'a', 't', 'a']);
    let m = j->Object_0;
    assert(m.drop_first() =~= seq![("msg"@, JsonV::Str(msg)), ("data"@, data)]);
    assert(m.drop_first().drop_first() =~= seq![("data"@, data)]);
    reveal_with_fuel(lookup, 3);
    lemma_int_text_round_trip(0);
}

} // verus!
