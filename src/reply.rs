//! The envelope around every reply of the exchange, `{code, msg, data}`,
//! and the three typed replies. A non-zero `code` is a rejection carrying the
//! exchange's message; `data` is then never read.
use vstd::prelude::*;
use crate::json::{Json, JsonV, field, int_text, parse_json, parsed_json};
use crate::members::{
    int_member, is_object, is_object_value, members_view, object_of, push_int, push_str,
    push_value, req_int, req_str, str_member,
};
use crate::wire::{
    Currency, CurrencyV, ExchangeRateResponseData, ExchangeRateResponseDataV, OrderData,
    OrderDataV, currencies_view, currency_list_from_json, currency_list_of, currency_list_json,
    currency_list_to_json, exchange_rate_response_data_json, exchange_rate_response_data_of,
    order_data_json, order_data_of,
};

verus! {

/// What a reply comes to: accepted with its message and payload, rejected
/// with the exchange's code and message, or not a reply of the expected shape.
pub enum Reply<D> {
    Accepted(Seq<char>, D),
    Rejected(i32, Seq<char>),
    Malformed,
}

/// The `code` and `msg` of an envelope.
pub open spec fn envelope_of(j: JsonV) -> Option<(i32, Seq<char>)> {
    if is_object(j) && int_member(j, "code"@, i32::MIN as int, i32::MAX as int) is Some && str_member(
        j,
        "msg"@,
    ) is Some {
        Some(
            (
                int_member(j, "code"@, i32::MIN as int, i32::MAX as int)->Some_0 as i32,
                str_member(j, "msg"@)->Some_0,
            ),
        )
    } else {
        None
    }
}

/// What a reply comes to, given what its `data` decodes to.
pub open spec fn reply_of<D>(j: JsonV, data: Option<D>) -> Reply<D> {
    match envelope_of(j) {
        None => Reply::Malformed,
        Some((code, msg)) => if code != 0 {
            Reply::Rejected(code, msg)
        } else {
            match data {
                Some(d) => Reply::Accepted(msg, d),
                None => Reply::Malformed,
            }
        },
    }
}

/// A non-zero code makes a reply a rejection that carries the exchange's
/// message, whatever its `data` holds: such a reply never decodes to a
/// typed result.
pub proof fn lemma_nonzero_code_rejects<D>(j: JsonV, data: Option<D>)
    requires
        envelope_of(j) is Some,
        envelope_of(j)->Some_0.0 != 0,
    ensures
        reply_of(j, data) == Reply::<D>::Rejected(envelope_of(j)->Some_0.0, envelope_of(j)->Some_0.1),
        !(reply_of(j, data) is Accepted),
{
}

/// Why a JSON reply gave no typed result.
#[derive(Debug, Clone, PartialEq, Eq)]
pub enum ReplyError {
    /// The exchange answered with a non-zero code.
    Rejected { code: i32, msg: String },
    /// The value is not a reply of the expected shape.
    Malformed,
}

/// Why an exchange call failed.
#[derive(Debug, Clone, PartialEq, Eq)]
pub enum GatewayError {
    /// The key material was refused; nothing was sent.
    Signing,
    /// The request did not complete (connection, TLS, timeout).
    Transport { reason: String },
    /// The exchange answered with a non-zero code and this message.
    Application { code: i32, msg: String },
    /// The body is not a reply of the expected shape; it is kept as received.
    Decode { body: String },
}

/// Reads the envelope: the message and the `data` member when the code is zero.
fn open_envelope(j: &Json) -> (r: Result<(String, Option<&Json>), ReplyError>)
    ensures
        match r {
            Ok((msg, d)) => envelope_of(j@) == Some((0i32, msg@)) && match d {
                Some(x) => field(j@, "data"@) == Some(x@),
                None => field(j@, "data"@) is None,
            },
            Err(ReplyError::Rejected { code, msg }) => envelope_of(j@) == Some((code, msg@)) && code
                != 0,
            Err(ReplyError::Malformed) => envelope_of(j@) is None,
        },
{
    if !is_object_value(j) {
        return Err(ReplyError::Malformed);
    }
    let code = match req_int(j, "code", i32::MIN as i64, i32::MAX as i64) {
        Some(c) => c as i32,
        None => return Err(ReplyError::Malformed),
    };
    let msg = match req_str(j, "msg") {
        Some(m) => m,
        None => return Err(ReplyError::Malformed),
    };
    if code != 0 {
        return Err(ReplyError::Rejected { code, msg });
    }
    Ok((msg, j.get("data")))
}

/// What a reply body comes to, given how its `data` is decoded.
pub open spec fn body_reply<D>(body: Seq<char>, reply: spec_fn(JsonV) -> Reply<D>) -> Reply<D> {
    match parsed_json(body) {
        Some(j) => reply(j),
        None => Reply::Malformed,
    }
}

pub open spec fn data_of<D>(j: JsonV, decode: spec_fn(JsonV) -> Option<D>) -> Option<D> {
    match field(j, "data"@) {
        Some(d) => decode(d),
        None => None,
    }
}

/// The reply listing the currencies the exchange offers.
#[derive(Debug, Clone, PartialEq, Eq)]
pub struct CurrencyResponse {
    pub code: i32,
    pub msg: String,
    pub data: Vec<Currency>,
}

/// What a JSON value comes to as a [`CurrencyResponse`].
pub open spec fn currency_response_reply(j: JsonV) -> Reply<Seq<CurrencyV>> {
    reply_of(j, data_of(j, |d: JsonV| currency_list_of(d)))
}

/// The JSON object for a [`CurrencyResponse`] with this code, message and payload.
pub open spec fn currency_response_json(code: i32, msg: Seq<char>, data: Seq<CurrencyV>) -> JsonV {
    JsonV::Object(
        seq![("code"@, JsonV::Number(int_text(code as int))), ("msg"@, JsonV::Str(msg)), ("data"@, currency_list_json(data))],
    )
}

impl CurrencyResponse {
    /// Decodes a reply from a JSON value.
    pub fn from_json(j: &Json) -> (r: Result<CurrencyResponse, ReplyError>)
        ensures
            match r {
                Ok(x) => x.code == 0 && currency_response_reply(j@) == Reply::Accepted(x.msg@, currencies_view(x.data@)),
                Err(ReplyError::Rejected { code, msg }) => currency_response_reply(j@) == Reply::<Seq<CurrencyV>>::Rejected(code, msg@),
                Err(ReplyError::Malformed) => currency_response_reply(j@) is Malformed,
            },
    {
        let (msg, d) = open_envelope(j)?;
        match d {
            Some(x) => match currency_list_from_json(x) {
                Some(data) => Ok(CurrencyResponse { code: 0, msg, data }),
                None => Err(ReplyError::Malformed),
            },
            None => Err(ReplyError::Malformed),
        }
    }

    /// Decodes a reply body as received from the exchange.
    pub fn from_body(body: &str) -> (r: Result<CurrencyResponse, GatewayError>)
        ensures
            match r {
                Ok(x) => x.code == 0 && body_reply(body@, |j: JsonV| currency_response_reply(j)) == Reply::Accepted(
                    x.msg@,
                    currencies_view(x.data@),
                ),
                Err(GatewayError::Application { code, msg }) => body_reply(body@, |j: JsonV| currency_response_reply(j))
                    == Reply::<Seq<CurrencyV>>::Rejected(code, msg@),
                Err(GatewayError::Decode { body: b }) => b@ == body@ && body_reply(
                    body@,
                    |j: JsonV| currency_response_reply(j),
                ) is Malformed,
                _ => false,
            },
    {
        match parse_json(body) {
            Some(j) => match CurrencyResponse::from_json(&j) {
                Ok(x) => Ok(x),
                Err(ReplyError::Rejected { code, msg }) => Err(GatewayError::Application { code, msg }),
                Err(ReplyError::Malformed) => Err(GatewayError::Decode { body: body.to_owned() }),
            },
            None => Err(GatewayError::Decode { body: body.to_owned() }),
        }
    }

    /// The JSON object for this reply: `code`, `msg` and `data`.
    pub fn to_json(&self) -> (r: Json)
        ensures
            r@ == currency_response_json(self.code, self.msg@, currencies_view(self.data@)),
    {
        let mut m: Vec<(String, Json)> = Vec::new();
        push_int(&mut m, "code", self.code as i64);
        push_str(&mut m, "msg", &self.msg);
        push_value(&mut m, "data", currency_list_to_json(&self.data));
        assert(members_view(m@) =~= currency_response_json(self.code, self.msg@, currencies_view(self.data@))->Object_0);
        object_of(m)
    }
}

/// The reply to a quote.
#[derive(Debug, Clone, PartialEq, Eq)]
pub struct ExchangeRateResponse {
    pub code: i32,
    pub msg: String,
    pub data: ExchangeRateResponseData,
}

/// What a JSON value comes to as a [`ExchangeRateResponse`].
pub open spec fn exchange_rate_response_reply(j: JsonV) -> Reply<ExchangeRateResponseDataV> {
    reply_of(j, data_of(j, |d: JsonV| exchange_rate_response_data_of(d)))
}

/// The JSON object for a [`ExchangeRateResponse`] with this code, message and payload.
pub open spec fn exchange_rate_response_json(code: i32, msg: Seq<char>, data: ExchangeRateResponseDataV) -> JsonV {
    JsonV::Object(
        seq![("code"@, JsonV::Number(int_text(code as int))), ("msg"@, JsonV::Str(msg)), ("data"@, exchange_rate_response_data_json(data))],
    )
}

impl ExchangeRateResponse {
    /// Decodes a reply from a JSON value.
    pub fn from_json(j: &Json) -> (r: Result<ExchangeRateResponse, ReplyError>)
        ensures
            match r {
                Ok(x) => x.code == 0 && exchange_rate_response_reply(j@) == Reply::Accepted(x.msg@, x.data@),
                Err(ReplyError::Rejected { code, msg }) => exchange_rate_response_reply(j@) == Reply::<ExchangeRateResponseDataV>::Rejected(code, msg@),
                Err(ReplyError::Malformed) => exchange_rate_response_reply(j@) is Malformed,
            },
    {
        let (msg, d) = open_envelope(j)?;
        match d {
            Some(x) => match ExchangeRateResponseData::from_json(x) {
                Some(data) => Ok(ExchangeRateResponse { code: 0, msg, data }),
                None => Err(ReplyError::Malformed),
            },
            None => Err(ReplyError::Malformed),
        }
    }

    /// Decodes a reply body as received from the exchange.
    pub fn from_body(body: &str) -> (r: Result<ExchangeRateResponse, GatewayError>)
        ensures
            match r {
                Ok(x) => x.code == 0 && body_reply(body@, |j: JsonV| exchange_rate_response_reply(j)) == Reply::Accepted(
                    x.msg@,
                    x.data@,
                ),
                Err(GatewayError::Application { code, msg }) => body_reply(body@, |j: JsonV| exchange_rate_response_reply(j))
                    == Reply::<ExchangeRateResponseDataV>::Rejected(code, msg@),
                Err(GatewayError::Decode { body: b }) => b@ == body@ && body_reply(
                    body@,
                    |j: JsonV| exchange_rate_response_reply(j),
                ) is Malformed,
                _ => false,
            },
    {
        match parse_json(body) {
            Some(j) => match ExchangeRateResponse::from_json(&j) {
                Ok(x) => Ok(x),
                Err(ReplyError::Rejected { code, msg }) => Err(GatewayError::Application { code, msg }),
                Err(ReplyError::Malformed) => Err(GatewayError::Decode { body: body.to_owned() }),
            },
            None => Err(GatewayError::Decode { body: body.to_owned() }),
        }
    }

    /// The JSON object for this reply: `code`, `msg` and `data`.
    pub fn to_json(&self) -> (r: Json)
        ensures
            r@ == exchange_rate_response_json(self.code, self.msg@, self.data@),
    {
        let mut m: Vec<(String, Json)> = Vec::new();
        push_int(&mut m, "code", self.code as i64);
        push_str(&mut m, "msg", &self.msg);
        push_value(&mut m, "data", self.data.to_json());
        assert(members_view(m@) =~= exchange_rate_response_json(self.code, self.msg@, self.data@)->Object_0);
        object_of(m)
    }
}

/// The reply to an order creation or lookup: the order's current snapshot.
#[derive(Debug, Clone, PartialEq, Eq)]
pub struct OrderResponse {
    pub code: i32,
    pub msg: String,
    pub data: OrderData,
}

/// What a JSON value comes to as a [`OrderResponse`].
pub open spec fn order_response_reply(j: JsonV) -> Reply<OrderDataV> {
    reply_of(j, data_of(j, |d: JsonV| order_data_of(d)))
}

/// The JSON object for a [`OrderResponse`] with this code, message and payload.
pub open spec fn order_response_json(code: i32, msg: Seq<char>, data: OrderDataV) -> JsonV {
    JsonV::Object(
        seq![("code"@, JsonV::Number(int_text(code as int))), ("msg"@, JsonV::Str(msg)), ("data"@, order_data_json(data))],
    )
}

impl OrderResponse {
    /// Decodes a reply from a JSON value.
    pub fn from_json(j: &Json) -> (r: Result<OrderResponse, ReplyError>)
        ensures
            match r {
                Ok(x) => x.code == 0 && order_response_reply(j@) == Reply::Accepted(x.msg@, x.data@),
                Err(ReplyError::Rejected { code, msg }) => order_response_reply(j@) == Reply::<OrderDataV>::Rejected(code, msg@),
                Err(ReplyError::Malformed) => order_response_reply(j@) is Malformed,
            },
    {
        let (msg, d) = open_envelope(j)?;
        match d {
            Some(x) => match OrderData::from_json(x) {
                Some(data) => Ok(OrderResponse { code: 0, msg, data }),
                None => Err(ReplyError::Malformed),
            },
            None => Err(ReplyError::Malformed),
        }
    }

    /// Decodes a reply body as received from the exchange.
    pub fn from_body(body: &str) -> (r: Result<OrderResponse, GatewayError>)
        ensures
            match r {
                Ok(x) => x.code == 0 && body_reply(body@, |j: JsonV| order_response_reply(j)) == Reply::Accepted(
                    x.msg@,
                    x.data@,
                ),
                Err(GatewayError::Application { code, msg }) => body_reply(body@, |j: JsonV| order_response_reply(j))
                    == Reply::<OrderDataV>::Rejected(code, msg@),
                Err(GatewayError::Decode { body: b }) => b@ == body@ && body_reply(
                    body@,
                    |j: JsonV| order_response_reply(j),
                ) is Malformed,
                _ => false,
            },
    {
        match parse_json(body) {
            Some(j) => match OrderResponse::from_json(&j) {
                Ok(x) => Ok(x),
                Err(ReplyError::Rejected { code, msg }) => Err(GatewayError::Application { code, msg }),
                Err(ReplyError::Malformed) => Err(GatewayError::Decode { body: body.to_owned() }),
            },
            None => Err(GatewayError::Decode { body: body.to_owned() }),
        }
    }

    /// The JSON object for this reply: `code`, `msg` and `data`.
    pub fn to_json(&self) -> (r: Json)
        ensures
            r@ == order_response_json(self.code, self.msg@, self.data@),
    {
        let mut m: Vec<(String, Json)> = Vec::new();
        push_int(&mut m, "code", self.code as i64);
        push_str(&mut m, "msg", &self.msg);
        push_value(&mut m, "data", self.data.to_json());
        assert(members_view(m@) =~= order_response_json(self.code, self.msg@, self.data@)->Object_0);
        object_of(m)
    }
}

} // verus!
