use fixedfloat_gateway::client::check_decimal_text;
use fixedfloat_gateway::json::{int_to_text, parse_int, Json};
use fixedfloat_gateway::lifecycle::OrderStatus;
use fixedfloat_gateway::models::SupportedCurrency as ClientCurrency;
use fixedfloat_gateway::supported_currencies::SupportedCurrency;

#[test]
fn parse_int_reads_plain_decimal_integers_in_range() {
    assert_eq!(parse_int("0", i64::MIN, i64::MAX), Some(0));
    assert_eq!(parse_int("-5", -10, 10), Some(-5));
    assert_eq!(parse_int("255", 0, 255), Some(255));
    assert_eq!(parse_int("256", 0, 255), None);
    assert_eq!(parse_int("-1", 0, 255), None);
    assert_eq!(parse_int("9223372036854775807", i64::MIN, i64::MAX), Some(i64::MAX));
    assert_eq!(parse_int("-9223372036854775808", i64::MIN, i64::MAX), Some(i64::MIN));
    assert_eq!(parse_int("9223372036854775808", i64::MIN, i64::MAX), None);
    assert_eq!(parse_int("99999999999999999999999", i64::MIN, i64::MAX), None);
    assert_eq!(parse_int("", -1, 1), None);
    assert_eq!(parse_int("-", -1, 1), None);
    assert_eq!(parse_int("1.0", -10, 10), None);
    assert_eq!(parse_int("1e3", 0, 10000), None);
    assert_eq!(parse_int("5", 1, 10), Some(5));
    assert_eq!(parse_int("0", 1, 10), None);
    assert_eq!(parse_int("-3", -5, -1), Some(-3));
    assert_eq!(parse_int("-7", -5, -1), None);
    assert_eq!(parse_int("3", -5, -1), None);
}

#[test]
fn int_to_text_writes_decimal() {
    assert_eq!(int_to_text(0), "0");
    assert_eq!(int_to_text(42), "42");
    assert_eq!(int_to_text(-1800), "-1800");
    assert_eq!(int_to_text(i64::MIN), "-9223372036854775808");
    assert_eq!(int_to_text(i64::MAX), "9223372036854775807");
}

#[test]
fn json_text_escapes_strings_and_keeps_number_text() {
    let j = Json::Object(vec![
        ("a\"b".to_string(), Json::Str("line\nbreak".to_string())),
        ("n".to_string(), Json::Number("0.10".to_string())),
        ("l".to_string(), Json::Array(vec![Json::Null, Json::Bool(true), Json::Array(vec![])])),
    ]);
    assert_eq!(j.to_text(), r#"{"a\"b":"line\nbreak","n":0.10,"l":[null,true,[]]}"#);
    assert!(matches!(j.get("n"), Some(Json::Number(t)) if t == "0.10"));
    assert!(j.get("missing").is_none());
    assert!(Json::Null.get("n").is_none());
}

#[test]
fn order_status_reads_known_and_unknown_values() {
    assert_eq!(OrderStatus::from_wire("NEW"), OrderStatus::New);
    assert_eq!(OrderStatus::from_wire("PENDING"), OrderStatus::Pending);
    assert_eq!(OrderStatus::from_wire("EXCHANGE"), OrderStatus::Exchange);
    assert_eq!(OrderStatus::from_wire("WITHDRAW"), OrderStatus::Withdraw);
    assert_eq!(OrderStatus::from_wire("DONE"), OrderStatus::Done);
    assert_eq!(OrderStatus::from_wire("EXPIRED"), OrderStatus::Expired);
    assert_eq!(OrderStatus::from_wire("EMERGENCY"), OrderStatus::Emergency);
    assert_eq!(OrderStatus::from_wire("REFUNDED"), OrderStatus::Unknown("REFUNDED".to_string()));
    assert_eq!(OrderStatus::from_wire("new"), OrderStatus::Unknown("new".to_string()));
    assert!(OrderStatus::Done.is_terminal());
    assert!(OrderStatus::Expired.is_terminal());
    assert!(!OrderStatus::Emergency.is_terminal());
    assert!(!OrderStatus::New.is_terminal());
}

#[test]
fn supported_currencies_codes_and_contracts() {
    assert_eq!(SupportedCurrency::get_all(), vec!["USDCETH", "USDTETH", "USDTTRC"]);
    assert_eq!(SupportedCurrency::USDCTRC.to_str(), "USDCTRC");
    assert_eq!(
        SupportedCurrency::USDTTRC.get_contract_address(),
        "TR7NHqjeKQxGTCi8q8ZY4pL8otSzgjLj6t"
    );
    assert_eq!(
        SupportedCurrency::USDCETH.get_contract_address(),
        "0xA0b86991c6218b36c1d19D4a2e9Eb0cE3606eB48"
    );
    assert_eq!(ClientCurrency::USDTETH.to_str(), "USDTETH");
    assert_eq!(
        ClientCurrency::USDTETH.get_contract_address(),
        "0xdAC17F958D2ee523a2206206994597C13D831ec7"
    );
}

#[test]
fn decimal_text_is_checked() {
    for ok in ["0", "0.5", "0.50", "-12", "3.250", "10", "-0.001"] {
        assert!(check_decimal_text(ok), "{}", ok);
    }
    for bad in ["", "-", ".5", "5.", "00", "01.5", "1.2.3", "1e3", "abc", "NaN", "inf", "+1", "1,5"] {
        assert!(!check_decimal_text(bad), "{}", bad);
    }
}
