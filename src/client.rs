//! The gateway client: its configuration, the four operations' request
//! bodies, and the signed request that goes over the wire. Sending it is
//! left to the caller; the reply body comes back through the decoders of
//! [`crate::reply`].
use vstd::prelude::*;
use vstd::string::StringSliceAdditionalSpecFns;
use vstd::utf8::encode_utf8;
use crate::json::{Json, JsonV, field, is_digit, text_of};
use crate::members::{
    lemma_lookup_concat, lemma_lookup_entry, members_view, object_of, opt_bool_entry, opt_number_entry, opt_str_entry, push_opt_bool,
    push_opt_number, push_opt_str, push_str, str_entry, text_opt,
};
use crate::reply::GatewayError;
use crate::signer::{secret_too_long, sign, signature_of};

verus! {

/// Where the exchange's API lives unless the configuration says otherwise.
pub open spec fn default_base_url() -> Seq<char> {
    "https://fixedfloat.com/api/v2"@
}

/// The client's immutable configuration: API root and credentials.
#[derive(Debug, Clone)]
pub struct FixedFloatClientConfig {
    pub base_url: String,
    pub api_key: String,
    pub api_secret: String,
}

impl FixedFloatClientConfig {
    /// A configuration for the exchange's own API root; neither credential
    /// may be empty.
    pub fn new(api_key: String, api_secret: String) -> (r: FixedFloatClientConfig)
        requires
            api_key@.len() > 0,
            api_secret@.len() > 0,
        ensures
            r.base_url@ == default_base_url(),
            r.api_key@ == api_key@,
            r.api_secret@ == api_secret@,
    {
        FixedFloatClientConfig {
            base_url: String::from_str("https://fixedfloat.com/api/v2"),
            api_key,
            api_secret,
        }
    }

    /// Appends `/path` to the API root.
    pub fn extend_base_url(&mut self, path: &str)
        ensures
            final(self).base_url@ == old(self).base_url@ + "/"@ + path@,
            final(self).api_key == old(self).api_key,
            final(self).api_secret == old(self).api_secret,
    {
        self.base_url.append("/");
        self.base_url.append(path);
    }
}

/// Plain decimal text: an optional minus sign, an integer part without
/// leading zeros, and an optional fraction of at least one digit
/// (`0.5`, `-12`, `3.250`). Such text is a JSON number as it stands.
pub open spec fn is_decimal_text(t: Seq<char>) -> bool {
    let u = unsigned_part(t);
    &&& u.len() > 0
    &&& forall|i: int| 0 <= i < u.len() ==> is_digit(#[trigger] u[i]) || u[i] == '.'
    &&& forall|i: int, k: int|
        0 <= i < u.len() && 0 <= k < u.len() && #[trigger] u[i] == '.' && #[trigger] u[k] == '.'
            ==> i == k
    &&& u[0] != '.'
    &&& u[u.len() - 1] != '.'
    &&& (u[0] == '0' && u.len() > 1 ==> u[1] == '.')
}

/// `t` without its leading minus sign, if it has one.
pub open spec fn unsigned_part(t: Seq<char>) -> Seq<char> {
    if t.len() > 0 && t[0] == '-' {
        t.drop_first()
    } else {
        t
    }
}

/// An affiliate tax that is absent or decimal text.
pub open spec fn afftax_ok(o: Option<String>) -> bool {
    match o {
        Some(t) => is_decimal_text(t@),
        None => true,
    }
}

/// Whether `t` is decimal text, as `is_decimal_text` defines it.
pub fn check_decimal_text(t: &str) -> (r: bool)
    ensures
        r == is_decimal_text(t@),
{
    let n = t.unicode_len();
    if n == 0 {
        return false;
    }
    let start: usize = if t.get_char(0) == '-' {
        1
    } else {
        0
    };
    let u = t.substring_char(start, n);
    assert(u@ =~= unsigned_part(t@));
    let m = n - start;
    if m == 0 {
        return false;
    }
    let mut i: usize = 0;
    let mut seen = false;
    let ghost mut dot: int = -1;
    #[verifier::loop_isolation(false)]
    while i < m
        invariant
            0 <= i <= m,
            m == u@.len(),
            forall|k: int| 0 <= k < i ==> is_digit(#[trigger] u@[k]) || u@[k] == '.',
            forall|k: int| 0 <= k < i ==> (#[trigger] u@[k] == '.') == (k == dot),
            seen == (dot >= 0),
            -1 <= dot < i,
        decreases m - i,
    {
        let c = u.get_char(i);
        if c == '.' {
            if seen {
                assert(u@[dot] == '.' && u@[i as int] == '.' && dot != i);
                return false;
            }
            seen = true;
            proof {
                dot = i as int;
            }
        } else {
            let cu = c as u32;
            if !(48 <= cu && cu <= 57) {
                assert(!is_digit(u@[i as int]) && u@[i as int] != '.');
                return false;
            }
        }
        i = i + 1;
    }
    let first = u.get_char(0);
    if first == '.' || u.get_char(m - 1) == '.' {
        return false;
    }
    if m > 1 && first == '0' && u.get_char(1) != '.' {
        return false;
    }
    true
}

/// A quote request. `afftax` is decimal text, written as a JSON number digit
/// for digit.
#[derive(Debug, Clone, PartialEq, Eq)]
pub struct ExchangeRateRequest {
    pub order_type: String,
    pub from_ccy: String,
    pub to_ccy: String,
    pub direction: String,
    pub amount: String,
    pub ccies: Option<bool>,
    pub usd: Option<bool>,
    pub refcode: Option<String>,
    pub afftax: Option<String>,
}

/// The body of a quote request: the five required members, then each
/// optional one that is present; absent ones are left out, not sent as null.
pub open spec fn exchange_rate_request_json(r: ExchangeRateRequest) -> JsonV {
    JsonV::Object(
        str_entry("type"@, r.order_type@) + str_entry("fromCcy"@, r.from_ccy@) + str_entry(
            "toCcy"@,
            r.to_ccy@,
        ) + str_entry("direction"@, r.direction@) + str_entry("amount"@, r.amount@)
            + opt_bool_entry("ccies"@, r.ccies) + opt_bool_entry("usd"@, r.usd) + opt_str_entry(
            "refcode"@,
            text_opt(r.refcode),
        ) + opt_number_entry("afftax"@, text_opt(r.afftax)),
    )
}

impl ExchangeRateRequest {
    /// The JSON body of this request.
    pub fn to_json(&self) -> (r: Json)
        requires
            afftax_ok(self.afftax),
        ensures
            r@ == exchange_rate_request_json(*self),
    {
        let mut m: Vec<(String, Json)> = Vec::new();
        assert(members_view(m@) =~= Seq::empty());
        push_str(&mut m, "type", &self.order_type);
        push_str(&mut m, "fromCcy", &self.from_ccy);
        push_str(&mut m, "toCcy", &self.to_ccy);
        push_str(&mut m, "direction", &self.direction);
        push_str(&mut m, "amount", &self.amount);
        push_opt_bool(&mut m, "ccies", self.ccies);
        push_opt_bool(&mut m, "usd", self.usd);
        push_opt_str(&mut m, "refcode", &self.refcode);
        push_opt_number(&mut m, "afftax", &self.afftax);
        assert(JsonV::Object(members_view(m@)) =~= exchange_rate_request_json(*self));
        object_of(m)
    }
}

/// An order creation request. `afftax` is decimal text, as in a quote.
#[derive(Debug, Clone, PartialEq, Eq)]
pub struct CreateOrderRequest {
    pub order_type: String,
    pub from_ccy: String,
    pub to_ccy: String,
    pub direction: String,
    pub amount: String,
    pub to_address: String,
    pub tag: Option<String>,
    pub refcode: Option<String>,
    pub afftax: Option<String>,
}

/// The body of an order creation request; absent optional members are left out.
pub open spec fn create_order_request_json(r: CreateOrderRequest) -> JsonV {
    JsonV::Object(
        str_entry("type"@, r.order_type@) + str_entry("fromCcy"@, r.from_ccy@) + str_entry(
            "toCcy"@,
            r.to_ccy@,
        ) + str_entry("direction"@, r.direction@) + str_entry("amount"@, r.amount@) + str_entry(
            "toAddress"@,
            r.to_address@,
        ) + opt_str_entry("tag"@, text_opt(r.tag)) + opt_str_entry("refcode"@, text_opt(r.refcode))
            + opt_number_entry("afftax"@, text_opt(r.afftax)),
    )
}

impl CreateOrderRequest {
    /// The JSON body of this request.
    pub fn to_json(&self) -> (r: Json)
        requires
            afftax_ok(self.afftax),
        ensures
            r@ == create_order_request_json(*self),
    {
        let mut m: Vec<(String, Json)> = Vec::new();
        assert(members_view(m@) =~= Seq::empty());
        push_str(&mut m, "type", &self.order_type);
        push_str(&mut m, "fromCcy", &self.from_ccy);
        push_str(&mut m, "toCcy", &self.to_ccy);
        push_str(&mut m, "direction", &self.direction);
        push_str(&mut m, "amount", &self.amount);
        push_str(&mut m, "toAddress", &self.to_address);
        push_opt_str(&mut m, "tag", &self.tag);
        push_opt_str(&mut m, "refcode", &self.refcode);
        push_opt_number(&mut m, "afftax", &self.afftax);
        assert(JsonV::Object(members_view(m@)) =~= create_order_request_json(*self));
        object_of(m)
    }
}

/// An order lookup: the order's id and the token handed out when it was made.
#[derive(Debug, Clone, PartialEq, Eq)]
pub struct OrderDetailsRequest {
    pub id: String,
    pub token: String,
}

/// The body of an order lookup: `id` and `token`.
pub open spec fn order_details_request_json(id: Seq<char>, token: Seq<char>) -> JsonV {
    JsonV::Object(str_entry("id"@, id) + str_entry("token"@, token))
}

impl OrderDetailsRequest {
    /// The JSON body of this request.
    pub fn to_json(&self) -> (r: Json)
        ensures
            r@ == order_details_request_json(self.id@, self.token@),
    {
        let mut m: Vec<(String, Json)> = Vec::new();
        assert(members_view(m@) =~= Seq::empty());
        push_str(&mut m, "id", &self.id);
        push_str(&mut m, "token", &self.token);
        assert(JsonV::Object(members_view(m@)) =~= order_details_request_json(self.id@, self.token@));
        object_of(m)
    }
}

/// A request ready to be posted: where, with which headers, and the exact
/// body that was signed.
#[derive(Debug, Clone, PartialEq, Eq)]
pub struct SignedRequest {
    pub url: String,
    pub headers: Vec<(String, String)>,
    pub body: String,
}

pub open spec fn headers_view(h: Seq<(String, String)>) -> Seq<(Seq<char>, Seq<char>)> {
    Seq::new(h.len(), |i: int| (h[i].0@, h[i].1@))
}

/// The headers of every request: the API key, the signature of the body,
/// and the JSON content type and accept headers.
pub open spec fn request_headers(key: Seq<char>, sig: Seq<char>) -> Seq<(Seq<char>, Seq<char>)> {
    seq![
        ("X-API-KEY"@, key),
        ("X-API-SIGN"@, sig),
        ("Content-Type"@, "application/json; charset=UTF-8"@),
        ("Accept"@, "application/json"@),
    ]
}

/// What a well-formed request for `method` with body `body` is.
pub open spec fn signed_request_for(
    r: SignedRequest,
    config: FixedFloatClientConfig,
    method: Seq<char>,
    body: Seq<char>,
) -> bool {
    &&& r.url@ == config.base_url@ + "/"@ + method
    &&& r.body@ == body
    &&& headers_view(r.headers@) == request_headers(
        config.api_key@,
        signature_of(encode_utf8(body), encode_utf8(config.api_secret@)),
    )
}


/// The exchange client: the configuration every request is made with.
#[derive(Debug, Clone)]
pub struct FixedFloat {
    pub config: FixedFloatClientConfig,
}

impl FixedFloat {
    /// A client for the exchange's own API root with these credentials,
    /// neither of which may be empty.
    pub fn new(api_key: &str, api_secret: &str) -> (r: FixedFloat)
        requires
            api_key@.len() > 0,
            api_secret@.len() > 0,
        ensures
            r.config.base_url@ == default_base_url(),
            r.config.api_key@ == api_key@,
            r.config.api_secret@ == api_secret@,
    {
        FixedFloat {
            config: FixedFloatClientConfig::new(api_key.to_owned(), api_secret.to_owned()),
        }
    }

    /// The headers that go with a request signed `sig`.
    pub fn headers(&self, sig: String) -> (r: Vec<(String, String)>)
        ensures
            headers_view(r@) == request_headers(self.config.api_key@, sig@),
    {
        let mut h: Vec<(String, String)> = Vec::new();
        h.push((String::from_str("X-API-KEY"), self.config.api_key.clone()));
        h.push((String::from_str("X-API-SIGN"), sig));
        h.push(
            (
                String::from_str("Content-Type"),
                String::from_str("application/json; charset=UTF-8"),
            ),
        );
        h.push((String::from_str("Accept"), String::from_str("application/json")));
        assert(headers_view(h@) =~= request_headers(self.config.api_key@, sig@));
        h
    }

    /// Signs `data_json` and frames the request for `method`. It fails,
    /// before anything is sent, only where the secret cannot serve as a key;
    /// a secret longer than a C `int` can count always does.
    pub fn post_request(&self, method: &str, data_json: &str) -> (r: Result<SignedRequest, GatewayError>)
        ensures
            match r {
                Ok(req) => signed_request_for(req, self.config, method@, data_json@),
                Err(e) => e == GatewayError::Signing,
            },
            secret_too_long(encode_utf8(self.config.api_secret@)) ==> r is Err,
    {
        let secret = self.config.api_secret.as_str();
        let sig = match sign(data_json, secret) {
            Ok(s) => s,
            Err(_) => return Err(GatewayError::Signing),
        };
        let headers = self.headers(sig);
        let mut url = self.config.base_url.clone();
        url.append("/");
        url.append(method);
        Ok(SignedRequest { url, headers, body: data_json.to_owned() })
    }

    /// The request listing the currencies: method `ccies`, body `{}`.
    pub fn get_available_currencies_request(&self) -> (r: Result<SignedRequest, GatewayError>)
        ensures
            match r {
                Ok(req) => signed_request_for(req, self.config, "ccies"@, "{}"@),
                Err(e) => e == GatewayError::Signing,
            },
            secret_too_long(encode_utf8(self.config.api_secret@)) ==> r is Err,
    {
        self.post_request("ccies", "{}")
    }

    /// The request for a quote: method `price`, body the request's JSON text.
    pub fn get_exchange_rate_request(&self, req: &ExchangeRateRequest) -> (r: Result<
        SignedRequest,
        GatewayError,
    >)
        requires
            afftax_ok(req.afftax),
        ensures
            match r {
                Ok(x) => signed_request_for(
                    x,
                    self.config,
                    "price"@,
                    text_of(exchange_rate_request_json(*req)),
                ),
                Err(e) => e == GatewayError::Signing,
            },
            secret_too_long(encode_utf8(self.config.api_secret@)) ==> r is Err,
    {
        let body = req.to_json().to_text();
        self.post_request("price", body.as_str())
    }

    /// The request creating an order: method `create`.
    pub fn create_order_request(&self, req: &CreateOrderRequest) -> (r: Result<
        SignedRequest,
        GatewayError,
    >)
        requires
            afftax_ok(req.afftax),
        ensures
            match r {
                Ok(x) => signed_request_for(
                    x,
                    self.config,
                    "create"@,
                    text_of(create_order_request_json(*req)),
                ),
                Err(e) => e == GatewayError::Signing,
            },
            secret_too_long(encode_utf8(self.config.api_secret@)) ==> r is Err,
    {
        let body = req.to_json().to_text();
        self.post_request("create", body.as_str())
    }

    /// The request looking an order up by id and token: method `order`.
    pub fn order_details_request(&self, order_id: &str, token: &str) -> (r: Result<
        SignedRequest,
        GatewayError,
    >)
        ensures
            match r {
                Ok(x) => signed_request_for(
                    x,
                    self.config,
                    "order"@,
                    text_of(order_details_request_json(order_id@, token@)),
                ),
                Err(e) => e == GatewayError::Signing,
            },
            secret_too_long(encode_utf8(self.config.api_secret@)) ==> r is Err,
    {
        let req = OrderDetailsRequest { id: order_id.to_owned(), token: token.to_owned() };
        let body = req.to_json().to_text();
        self.post_request("order", body.as_str())
    }
}


pub open spec fn count_present<T>(o: Option<T>) -> nat {
    if o is Some {
        1
    } else {
        0
    }
}

/// A quote body holds exactly the five required members and each optional
/// member that was given: an absent option is left out, a present one is
/// written unchanged, the affiliate tax digit for digit.
pub proof fn lemma_quote_body_members(r: ExchangeRateRequest)
    ensures
        field(exchange_rate_request_json(r), "type"@) == Some(JsonV::Str(r.order_type@)),
        field(exchange_rate_request_json(r), "fromCcy"@) == Some(JsonV::Str(r.from_ccy@)),
        field(exchange_rate_request_json(r), "toCcy"@) == Some(JsonV::Str(r.to_ccy@)),
        field(exchange_rate_request_json(r), "direction"@) == Some(JsonV::Str(r.direction@)),
        field(exchange_rate_request_json(r), "amount"@) == Some(JsonV::Str(r.amount@)),
        field(exchange_rate_request_json(r), "ccies"@) == match r.ccies {
            Some(b) => Some(JsonV::Bool(b)),
            None => None,
        },
        field(exchange_rate_request_json(r), "usd"@) == match r.usd {
            Some(b) => Some(JsonV::Bool(b)),
            None => None,
        },
        field(exchange_rate_request_json(r), "refcode"@) == match r.refcode {
            Some(s) => Some(JsonV::Str(s@)),
            None => None,
        },
        field(exchange_rate_request_json(r), "afftax"@) == match r.afftax {
            Some(t) => Some(JsonV::Number(t@)),
            None => None,
        },
        exchange_rate_request_json(r)->Object_0.len() == 5 + count_present(r.ccies) + count_present(
            r.usd,
        ) + count_present(r.refcode) + count_present(r.afftax),
{
    reveal_strlit("type");
    reveal_strlit("fromCcy");
    reveal_strlit("toCcy");
    reveal_strlit("direction");
    reveal_strlit("amount");
    reveal_strlit("ccies");
    reveal_strlit("usd");
    reveal_strlit("refcode");
    reveal_strlit("afftax");
    assert("type"@ =~= seq!['t', 'y', 'p', 'e']);
    assert("fromCcy"@ =~= seq!['f', 'r', 'o', 'm', 'C', 'c', 'y']);
    assert("toCcy"@ =~= seq!['t', 'o', 'C', 'c', 'y']);
    assert("direction"@ =~= seq!['d', 'i', 'r', 'e', 'c', 't', 'i', 'o', 'n']);
    assert("amount"@ =~= seq!['a', 'm', 'o', 'u', 'n', 't']);
    assert("ccies"@ =~= seq!['c', 'c', 'i', 'e', 's']);
    assert("usd"@ =~= seq!['u', 's', 'd']);
    assert("refcode"@ =~= seq!['r', 'e', 'f', 'c', 'o', 'd', 'e']);
    assert("afftax"@ =~= seq!['a', 'f', 'f', 't', 'a', 'x']);
    let j = exchange_rate_request_json(r);
    assert(field(j, "type"@) == Some(JsonV::Str(r.order_type@))) by {
        broadcast use lemma_lookup_concat, lemma_lookup_entry;

    }
    assert(field(j, "fromCcy"@) == Some(JsonV::Str(r.from_ccy@))) by {
        broadcast use lemma_lookup_concat, lemma_lookup_entry;

    }
    assert(field(j, "toCcy"@) == Some(JsonV::Str(r.to_ccy@))) by {
        broadcast use lemma_lookup_concat, lemma_lookup_entry;

    }
    assert(field(j, "direction"@) == Some(JsonV::Str(r.direction@))) by {
        broadcast use lemma_lookup_concat, lemma_lookup_entry;

    }
    assert(field(j, "amount"@) == Some(JsonV::Str(r.amount@))) by {
        broadcast use lemma_lookup_concat, lemma_lookup_entry;

    }
    assert(field(j, "ccies"@) == match r.ccies {
        Some(b) => Some(JsonV::Bool(b)),
        None => None,
    }) by {
        broadcast use lemma_lookup_concat, lemma_lookup_entry;

    }
    assert(field(j, "usd"@) == match r.usd {
        Some(b) => Some(JsonV::Bool(b)),
        None => None,
    }) by {
        broadcast use lemma_lookup_concat, lemma_lookup_entry;

    }
    assert(field(j, "refcode"@) == match r.refcode {
        Some(s) => Some(JsonV::Str(s@)),
        None => None,
    }) by {
        broadcast use lemma_lookup_concat, lemma_lookup_entry;

    }
    assert(field(j, "afftax"@) == match r.afftax {
        Some(t) => Some(JsonV::Number(t@)),
        None => None,
    }) by {
        broadcast use lemma_lookup_concat, lemma_lookup_entry;

    }
}

} // verus!
