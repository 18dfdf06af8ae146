use fixedfloat_gateway::json::Json;
use fixedfloat_gateway::reply::{
    CurrencyResponse, ExchangeRateResponse, GatewayError, OrderResponse, ReplyError,
};

const ORDER_NEW: &str = r#"{"code":0,"msg":"OK","data":{"id":"TESTID","type":"fixed","email":"","status":"NEW","time":{"reg":1700000000,"start":null,"finish":null,"update":1700000000,"expiration":1700001800,"left":1800},"from":{"code":"USDTTRC","coin":"USDT","network":"TRX","amount":"25","rate":"0.0000231","precision":6,"address":"TAddr","reqConfirmations":1,"maxConfirmations":20},"to":{"code":"BTCLN","amount":"0.000577","address":"lnbc1"},"back":{"code":"USDTTRC","address":null,"tx":null},"emergency":{"status":[],"choice":"NONE","repeat":"0"},"token":"TOKEN"}}"#;

const QUOTE: &str = r#"{"code":0,"msg":"OK","data":{"from":{"code":"BTC","network":"BTC","coin":"BTC","amount":"0.5","rate":"17.05","precision":8,"min":"0.001","max":"3.2","usd":"33000.5","btc":"0.5"},"to":{"code":"ETH","network":"ETH","coin":"ETH","amount":"8.52","rate":"0.0586","precision":8,"min":"0.01","max":"50","usd":"32900.1","btc":"0.49"},"ccies":[{"code":"BTC","recv":true,"send":false}]}}"#;

#[test]
fn new_order_without_transactions_decodes_with_absent_tx() {
    let order = OrderResponse::from_body(ORDER_NEW).unwrap();
    assert_eq!(order.code, 0);
    assert_eq!(order.msg, "OK");
    let data = &order.data;
    assert_eq!(data.status, "NEW");
    assert_eq!(data.order_type, "fixed");
    assert_eq!(data.token, "TOKEN");
    assert!(data.from.tx.is_none());
    assert!(data.to.tx.is_none());
    assert!(data.back.tx.is_none());
    assert_eq!(data.time.start, None);
    assert_eq!(data.time.left, 1800);
    assert_eq!(data.from.precision, Some(6));
    assert_eq!(data.from.req_confirmations, Some(1));
    assert_eq!(data.to.network, None);
    assert_eq!(data.to.rate, None);
    assert_eq!(data.back.address, None);
    assert!(data.emergency.status.is_empty());
}

#[test]
fn leg_with_every_option_absent_decodes() {
    let body = ORDER_NEW.replace(
        r#""from":{"code":"USDTTRC","coin":"USDT","network":"TRX","amount":"25","rate":"0.0000231","precision":6,"address":"TAddr","reqConfirmations":1,"maxConfirmations":20}"#,
        r#""from":{"code":"USDTTRC","amount":"25","tx":{}}"#,
    );
    let order = OrderResponse::from_body(&body).unwrap();
    let from = &order.data.from;
    assert_eq!(from.code, "USDTTRC");
    assert_eq!(from.network, None);
    assert_eq!(from.precision, None);
    assert_eq!(from.max_confirmations, None);
    let tx = from.tx.as_ref().unwrap();
    assert_eq!(tx.id, None);
    assert_eq!(tx.time_reg, None);
    assert_eq!(tx.confirmations, None);
}

#[test]
fn nonzero_code_is_application_error_with_message() {
    let r = OrderResponse::from_body(r#"{"code":429,"msg":"rate limited","data":null}"#);
    assert_eq!(r, Err(GatewayError::Application { code: 429, msg: "rate limited".to_string() }));
    let r = ExchangeRateResponse::from_body(r#"{"code":301,"msg":"Invalid currency","data":{"garbage":true}}"#);
    assert_eq!(r, Err(GatewayError::Application { code: 301, msg: "Invalid currency".to_string() }));
    let r = CurrencyResponse::from_body(r#"{"code":-1,"msg":"x"}"#);
    assert_eq!(r, Err(GatewayError::Application { code: -1, msg: "x".to_string() }));
}

#[test]
fn malformed_bodies_are_decode_errors_with_the_body() {
    for body in [
        "not json",
        r#"{"msg":"OK","data":{}}"#,
        r#"{"code":0,"data":{}}"#,
        r#"{"code":0,"msg":"OK"}"#,
        r#"{"code":0,"msg":"OK","data":{"id":"x"}}"#,
        r#"{"code":"0","msg":"OK","data":{}}"#,
        r#"{"code":1.5,"msg":"OK","data":{}}"#,
        r#"{"code":4294967296,"msg":"OK","data":{}}"#,
    ] {
        assert_eq!(
            OrderResponse::from_body(body),
            Err(GatewayError::Decode { body: body.to_string() }),
            "{}",
            body
        );
    }
}

#[test]
fn wrong_kind_of_optional_member_is_malformed() {
    let body = ORDER_NEW.replace(r#""precision":6"#, r#""precision":"6""#);
    assert!(matches!(OrderResponse::from_body(&body), Err(GatewayError::Decode { .. })));
    let body = ORDER_NEW.replace(r#""left":1800"#, r#""left":3000000000"#);
    assert!(matches!(OrderResponse::from_body(&body), Err(GatewayError::Decode { .. })));
}

#[test]
fn quote_reply_decodes_and_round_trips() {
    let quote = ExchangeRateResponse::from_body(QUOTE).unwrap();
    assert_eq!(quote.data.from.amount, "0.5");
    assert_eq!(quote.data.to.rate, Some("0.0586".to_string()));
    assert_eq!(quote.data.ccies.as_ref().unwrap()[0].code, "BTC");
    assert!(quote.data.ccies.as_ref().unwrap()[0].recv);
    let text = quote.to_json().to_text();
    let again = ExchangeRateResponse::from_body(&text).unwrap();
    assert_eq!(again, quote);
    assert_eq!(again.to_json().to_text(), text);
}

#[test]
fn order_reply_round_trips() {
    let order = OrderResponse::from_body(ORDER_NEW).unwrap();
    let text = order.to_json().to_text();
    let again = OrderResponse::from_body(&text).unwrap();
    assert_eq!(again, order);
    assert_eq!(again.to_json().to_text(), text);
}

#[test]
fn currency_list_decodes() {
    let body = r##"{"code":0,"msg":"OK","data":[{"code":"BTC","coin":"BTC","network":"BTC","name":"Bitcoin","recv":1,"send":1,"tag":null,"logo":"https://x/btc.svg","color":"#f7931a","priority":5},{"code":"XRP","coin":"XRP","network":"XRP","name":"Ripple","recv":1,"send":0,"tag":"Destination tag","logo":"l","color":"c","priority":3}]}"##;
    let list = CurrencyResponse::from_body(body).unwrap();
    assert_eq!(list.data.len(), 2);
    assert_eq!(list.data[0].name, "Bitcoin");
    assert_eq!(list.data[0].tag, None);
    assert_eq!(list.data[1].send, 0);
    assert_eq!(list.data[1].tag, Some("Destination tag".to_string()));
    let bad = body.replace(r#""priority":3"#, r#""priority":300"#);
    assert!(matches!(CurrencyResponse::from_body(&bad), Err(GatewayError::Decode { .. })));
}

#[test]
fn json_level_decoding_reports_rejection() {
    let j = Json::Object(vec![
        ("code".to_string(), Json::Number("7".to_string())),
        ("msg".to_string(), Json::Str("no".to_string())),
    ]);
    assert_eq!(
        OrderResponse::from_json(&j),
        Err(ReplyError::Rejected { code: 7, msg: "no".to_string() })
    );
    assert_eq!(OrderResponse::from_json(&Json::Null), Err(ReplyError::Malformed));
}
