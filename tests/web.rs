use fixedfloat_gateway::web::{CreateOrderRequest, ExchangeRateRequest};

#[test]
fn quote_direction_picks_the_fixed_leg() {
    let from = ExchangeRateRequest { ccy: "USDTTRC".into(), direction: "from".into(), amount: "25".into() }
        .to_quote()
        .unwrap();
    assert_eq!((from.from_ccy.as_str(), from.to_ccy.as_str()), ("USDTTRC", "BTCLN"));
    assert_eq!(from.direction, "from");
    assert_eq!(from.order_type, "fixed");
    let to = ExchangeRateRequest { ccy: "USDTTRC".into(), direction: "to".into(), amount: "25".into() }
        .to_quote()
        .unwrap();
    assert_eq!((to.from_ccy.as_str(), to.to_ccy.as_str()), ("BTCLN", "USDTTRC"));
    assert_eq!(to.direction, "to");
    assert!(ExchangeRateRequest { ccy: "X".into(), direction: "sideways".into(), amount: "1".into() }
        .to_quote()
        .is_none());
}

#[test]
fn order_direction_is_kept_for_both_legs() {
    let req = CreateOrderRequest {
        ccy: "USDCETH".into(),
        direction: "from".into(),
        amount: "10".into(),
        to_address: "lnbc1".into(),
    };
    let order = req.to_order().unwrap();
    assert_eq!(order.direction, "from");
    assert_eq!(order.from_ccy, "USDCETH");
    assert_eq!(order.to_address, "lnbc1");
    let req = CreateOrderRequest { direction: "to".into(), ..req };
    let order = req.to_order().unwrap();
    assert_eq!(order.direction, "to");
    assert_eq!(order.to_ccy, "USDCETH");
    let req = CreateOrderRequest { direction: "".into(), ..req };
    assert!(req.to_order().is_none());
}
