use fixedfloat_gateway::client::{
    CreateOrderRequest, ExchangeRateRequest, FixedFloat, FixedFloatClientConfig,
};
use fixedfloat_gateway::signer::sign;

fn quote(order_type: &str, from: &str, to: &str, direction: &str, amount: &str) -> ExchangeRateRequest {
    ExchangeRateRequest {
        order_type: order_type.to_string(),
        from_ccy: from.to_string(),
        to_ccy: to.to_string(),
        direction: direction.to_string(),
        amount: amount.to_string(),
        ccies: None,
        usd: None,
        refcode: None,
        afftax: None,
    }
}

#[test]
fn quote_body_without_options_has_exactly_five_keys() {
    let client = FixedFloat::new("key", "secret");
    let req = client.get_exchange_rate_request(&quote("fixed", "BTC", "ETH", "from", "0.5")).unwrap();
    assert_eq!(
        req.body,
        r#"{"type":"fixed","fromCcy":"BTC","toCcy":"ETH","direction":"from","amount":"0.5"}"#
    );
    assert_eq!(req.url, "https://fixedfloat.com/api/v2/price");
}

#[test]
fn quote_body_includes_present_options_verbatim() {
    let mut q = quote("float", "USDTTRC", "BTCLN", "to", "0.000123456789");
    q.ccies = Some(true);
    q.usd = Some(false);
    q.refcode = Some("ref\"1".to_string());
    q.afftax = Some("0.50".to_string());
    let client = FixedFloat::new("key", "secret");
    let req = client.get_exchange_rate_request(&q).unwrap();
    assert_eq!(
        req.body,
        r#"{"type":"float","fromCcy":"USDTTRC","toCcy":"BTCLN","direction":"to","amount":"0.000123456789","ccies":true,"usd":false,"refcode":"ref\"1","afftax":0.50}"#
    );
}

#[test]
fn quote_body_omits_only_absent_options() {
    let mut q = quote("fixed", "BTC", "ETH", "from", "1");
    q.usd = Some(true);
    let body = q.to_json().to_text();
    assert_eq!(
        body,
        r#"{"type":"fixed","fromCcy":"BTC","toCcy":"ETH","direction":"from","amount":"1","usd":true}"#
    );
    assert!(!body.contains("null"));
}

#[test]
fn create_order_body_and_url() {
    let req = CreateOrderRequest {
        order_type: "fixed".to_string(),
        from_ccy: "USDTTRC".to_string(),
        to_ccy: "BTCLN".to_string(),
        direction: "from".to_string(),
        amount: "25".to_string(),
        to_address: "lnbc1xyz".to_string(),
        tag: None,
        refcode: Some("abc".to_string()),
        afftax: None,
    };
    let client = FixedFloat::new("key", "secret");
    let signed = client.create_order_request(&req).unwrap();
    assert_eq!(signed.url, "https://fixedfloat.com/api/v2/create");
    assert_eq!(
        signed.body,
        r#"{"type":"fixed","fromCcy":"USDTTRC","toCcy":"BTCLN","direction":"from","amount":"25","toAddress":"lnbc1xyz","refcode":"abc"}"#
    );
}

#[test]
fn order_details_and_currency_requests() {
    let client = FixedFloat::new("key", "secret");
    let signed = client.order_details_request("ABC123", "tok").unwrap();
    assert_eq!(signed.url, "https://fixedfloat.com/api/v2/order");
    assert_eq!(signed.body, r#"{"id":"ABC123","token":"tok"}"#);
    let signed = client.get_available_currencies_request().unwrap();
    assert_eq!(signed.url, "https://fixedfloat.com/api/v2/ccies");
    assert_eq!(signed.body, "{}");
}

#[test]
fn headers_carry_key_and_signature_of_body() {
    let client = FixedFloat::new("my-key", "my-secret");
    let signed = client.get_exchange_rate_request(&quote("fixed", "BTC", "ETH", "from", "0.5")).unwrap();
    let expected_sig = sign(&signed.body, "my-secret").unwrap();
    assert_eq!(
        signed.headers,
        vec![
            ("X-API-KEY".to_string(), "my-key".to_string()),
            ("X-API-SIGN".to_string(), expected_sig),
            ("Content-Type".to_string(), "application/json; charset=UTF-8".to_string()),
            ("Accept".to_string(), "application/json".to_string()),
        ]
    );
}

#[test]
fn sign_matches_known_hmac_sha256() {
    let sig = sign("The quick brown fox jumps over the lazy dog", "key").unwrap();
    assert_eq!(sig, "f7bc83f430538424b13298e6aa6fb143ef4d59a14946175997479dbc2d1a3cd8");
}

#[test]
fn sign_is_deterministic_and_sensitive_to_each_byte() {
    let a = sign(r#"{"amount":"0.5"}"#, "secret").unwrap();
    let b = sign(r#"{"amount":"0.5"}"#, "secret").unwrap();
    let c = sign(r#"{"amount":"0.6"}"#, "secret").unwrap();
    assert_eq!(a, b);
    assert_ne!(a, c);
    assert_eq!(a.len(), 64);
    assert!(a.chars().all(|ch| ch.is_ascii_digit() || ('a'..='f').contains(&ch)));
}

#[test]
fn config_defaults_and_extends_base_url() {
    let mut config = FixedFloatClientConfig::new("k".to_string(), "s".to_string());
    assert_eq!(config.base_url, "https://fixedfloat.com/api/v2");
    config.extend_base_url("price");
    assert_eq!(config.base_url, "https://fixedfloat.com/api/v2/price");
    assert_eq!(config.api_key, "k");
    assert_eq!(config.api_secret, "s");
}
