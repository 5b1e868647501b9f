use cbadv::errors::CbError;
use cbadv::models::order::{
    ClosePositionQuery, CreateOrderBuilder, ListFillsQuery, ListOrdersQuery, OrderCancelRequest,
    OrderClosePositionRequest, OrderConfiguration, OrderCreateBuilder, OrderListFillsQuery,
    OrderListQuery, OrderSide, OrderSortBy, OrderStatus, OrderType, StopDirection, TimeInForce,
};
use cbadv::models::product::ProductType;
use cbadv::order::{
    cancel_all_query, cancel_plan, get_all_query, market_configuration, next_page,
    ListOrdersQuery as FirstListOrdersQuery, OrderSide as FirstSide, OrderStatus as FirstStatus,
    OrderType as FirstType,
};
use cbadv::traits::{Query, Request};

fn parse_message(e: CbError) -> String {
    match e {
        CbError::BadParse(m) => m,
        other => panic!("expected a parse error, got {:?}", other),
    }
}

fn query_message(e: CbError) -> String {
    match e {
        CbError::BadQuery(m) => m,
        other => panic!("expected a query error, got {:?}", other),
    }
}

fn request_message(e: CbError) -> String {
    match e {
        CbError::BadRequest(m) => m,
        other => panic!("expected a request error, got {:?}", other),
    }
}

fn is_uuid_v4(s: &str) -> bool {
    let b = s.as_bytes();
    b.len() == 36
        && b.iter().enumerate().all(|(i, c)| match i {
            8 | 13 | 18 | 23 => *c == b'-',
            _ => c.is_ascii_digit() || (b'a'..=b'f').contains(c),
        })
        && b[14] == b'4'
}

#[test]
fn limit_gtc_order_is_built() {
    let req = OrderCreateBuilder::new("BTC-USD", OrderSide::Buy)
        .order_type(OrderType::Limit)
        .time_in_force(TimeInForce::GoodUntilCancelled)
        .base_size("0.5")
        .limit_price("50000")
        .build()
        .unwrap();
    assert_eq!(req.product_id, "BTC-USD");
    assert_eq!(req.side, OrderSide::Buy);
    assert!(!req.is_preview);
    assert!(is_uuid_v4(&req.client_order_id));
    assert!(req.check().is_ok());
    match req.order_configuration {
        OrderConfiguration::LimitGtc(c) => {
            assert_eq!(c.base_size, "0.5");
            assert_eq!(c.limit_price, "50000");
            assert!(!c.post_only);
        }
        _ => panic!("expected a limit GTC configuration"),
    }
}

#[test]
fn preview_order_has_no_client_id() {
    let req = OrderCreateBuilder::new("BTC-USD", OrderSide::Sell)
        .order_type(OrderType::Market)
        .time_in_force(TimeInForce::ImmediateOrCancel)
        .quote_size("10")
        .client_order_id("mine")
        .preview(true)
        .build()
        .unwrap();
    assert_eq!(req.client_order_id, "");
    assert!(req.is_preview);
    assert!(req.check().is_ok());
    match req.order_configuration {
        OrderConfiguration::MarketIoc(c) => {
            assert_eq!(c.quote_size, Some("10".to_string()));
            assert_eq!(c.base_size, None);
        }
        _ => panic!("expected a market IOC configuration"),
    }
}

#[test]
fn given_client_order_id_is_kept() {
    let req = OrderCreateBuilder::new("ETH-USD", OrderSide::Buy)
        .order_type(OrderType::StopLimit)
        .time_in_force(TimeInForce::GoodUntilDate)
        .base_size("1")
        .limit_price("2")
        .stop_price("3")
        .stop_direction(StopDirection::StopDown)
        .end_time("2030-01-01T00:00:00Z")
        .client_order_id("abc")
        .build()
        .unwrap();
    assert_eq!(req.client_order_id, "abc");
    match req.order_configuration {
        OrderConfiguration::StopLimitGtd(c) => {
            assert_eq!(c.stop_price, "3");
            assert_eq!(c.end_time, "2030-01-01T00:00:00Z");
            assert_eq!(c.stop_direction, StopDirection::StopDown);
        }
        _ => panic!("expected a stop limit GTD configuration"),
    }
}

#[test]
fn order_builder_errors() {
    let unknown_side = OrderCreateBuilder::new("BTC-USD", OrderSide::Unknown).build();
    assert_eq!(parse_message(unknown_side.err().unwrap()), "Order side cannot be unknown.");
    let blank = OrderCreateBuilder::new("  ", OrderSide::Buy).build();
    assert_eq!(parse_message(blank.err().unwrap()), "Product ID cannot be empty.");
    let no_type = OrderCreateBuilder::new("BTC-USD", OrderSide::Buy).build();
    assert_eq!(parse_message(no_type.err().unwrap()), "Order type must be specified.");
    let unknown_type = OrderCreateBuilder::new("BTC-USD", OrderSide::Buy).order_type(OrderType::Unknown).build();
    assert_eq!(parse_message(unknown_type.err().unwrap()), "Order type must be specified.");
    let no_tif = OrderCreateBuilder::new("BTC-USD", OrderSide::Buy).order_type(OrderType::Limit).build();
    assert_eq!(parse_message(no_tif.err().unwrap()), "Time in force must be specified.");
    let market = OrderCreateBuilder::new("BTC-USD", OrderSide::Buy)
        .order_type(OrderType::Market)
        .time_in_force(TimeInForce::ImmediateOrCancel)
        .build();
    assert_eq!(
        parse_message(market.err().unwrap()),
        "Either base_size or quote_size must be provided for Market IOC orders"
    );
    let limit = OrderCreateBuilder::new("BTC-USD", OrderSide::Buy)
        .order_type(OrderType::Limit)
        .time_in_force(TimeInForce::GoodUntilCancelled)
        .base_size("1")
        .build();
    assert_eq!(parse_message(limit.err().unwrap()), "limit_price is required.");
    let gtd = OrderCreateBuilder::new("BTC-USD", OrderSide::Buy)
        .order_type(OrderType::Limit)
        .time_in_force(TimeInForce::GoodUntilDate)
        .base_size("1")
        .limit_price("2")
        .build();
    assert_eq!(parse_message(gtd.err().unwrap()), "end_time is required.");
    let stop = OrderCreateBuilder::new("BTC-USD", OrderSide::Buy)
        .order_type(OrderType::StopLimit)
        .time_in_force(TimeInForce::GoodUntilCancelled)
        .base_size("1")
        .limit_price("2")
        .stop_price("3")
        .build();
    assert_eq!(parse_message(stop.err().unwrap()), "stop_direction is required.");
    let unsupported = OrderCreateBuilder::new("BTC-USD", OrderSide::Buy)
        .order_type(OrderType::Stop)
        .time_in_force(TimeInForce::FillOrKill)
        .build();
    assert_eq!(
        parse_message(unsupported.err().unwrap()),
        "Invalid or unsupported combination of order_type and time_in_force"
    );
}

#[test]
fn legacy_create_order_builder() {
    let order = CreateOrderBuilder::new("BTC-USD", &OrderSide::Sell)
        .order_type(OrderType::Limit)
        .time_in_force(TimeInForce::GoodUntilCancelled)
        .base_size("1")
        .limit_price("100")
        .post_only(true)
        .build()
        .unwrap();
    assert_eq!(order.side, "SELL");
    assert_eq!(order.product_id, "BTC-USD");
    assert!(is_uuid_v4(&order.client_order_id));
    match order.order_configuration {
        OrderConfiguration::LimitGtc(c) => assert!(c.post_only),
        _ => panic!("expected a limit GTC configuration"),
    }
    let missing = CreateOrderBuilder::new("BTC-USD", &OrderSide::Sell)
        .order_type(OrderType::StopLimit)
        .time_in_force(TimeInForce::GoodUntilDate)
        .base_size("1")
        .limit_price("100")
        .build();
    assert_eq!(
        parse_message(missing.err().unwrap()),
        "stop_price is required for Stop Limit GTD orders"
    );
}

#[test]
fn order_type_names() {
    assert_eq!(OrderType::StopLimit.as_ref(), "STOP_LIMIT");
    assert_eq!(OrderType::Unknown.to_string(), "UNKNOWN_ORDER_TYPE");
    assert_eq!(OrderType::from_name("limit"), Some(OrderType::Limit));
    assert_eq!(OrderType::from_name("Stop_Limit"), Some(OrderType::StopLimit));
    assert_eq!(OrderType::from_name("BRACKET"), Some(OrderType::Bracket));
    assert_eq!(OrderType::from_name("unknown_order_type"), Some(OrderType::Unknown));
    assert_eq!(OrderType::from_name("market"), Some(OrderType::Market));
    assert_eq!(OrderType::from_name("stop"), Some(OrderType::Stop));
    assert_eq!(OrderType::from_name("Limit Order"), None);
    assert_eq!(OrderType::from_uppercase_name("limit"), None);
    assert_eq!(OrderSide::Buy.to_string(), "BUY");
    assert_eq!(OrderSortBy::LastFillTime.as_ref(), "LAST_FILL_TIME");
    assert_eq!(TimeInForce::GoodUntilCancelled.as_ref(), "GOOD_TIL_CANCELLED");
}

#[test]
fn order_list_query_renders_set_parameters() {
    let q = OrderListQuery::new()
        .product_ids(&["BTC-USD".to_string(), "ETH-USD".to_string()])
        .order_status(&[OrderStatus::Open])
        .limit(10)
        .sort_by(OrderSortBy::Price);
    assert!(q.check().is_ok());
    assert_eq!(
        q.to_query(),
        "product_ids=BTC-USD&product_ids=ETH-USD&order_status=Open&limit=10&sort_by=PRICE"
    );
    assert_eq!(OrderListQuery::new().to_query(), "");
}

#[test]
fn order_list_query_errors() {
    let q = OrderListQuery::new().product_type(ProductType::Unknown).limit(0);
    assert_eq!(query_message(q.check().err().unwrap()), "product_type must not be unknown");
    let q = OrderListQuery::new().limit(0);
    assert_eq!(query_message(q.check().err().unwrap()), "limit must be greater than 0");
    let q = OrderListQuery::new().start_date("2024-02-01".to_string()).end_date("2024-01-01".to_string());
    assert_eq!(query_message(q.check().err().unwrap()), "start_date must be before end_date");
    let q = OrderListQuery::new().sort_by(OrderSortBy::Unknown);
    assert_eq!(query_message(q.check().err().unwrap()), "sort_by must not be unknown");
    // Only the first condition that applies is checked.
    let q = OrderListQuery::new().limit(5).sort_by(OrderSortBy::Unknown);
    assert!(q.check().is_ok());
}

#[test]
fn order_list_fills_query() {
    let q = OrderListFillsQuery::new();
    assert!(q.check().is_ok());
    assert_eq!(q.to_query(), "limit=100");
    let q = OrderListFillsQuery::new().limit(0);
    assert_eq!(query_message(q.check().err().unwrap()), "limit must be greater than 0");
    let q = OrderListFillsQuery::new()
        .start_sequence_timestamp("b".to_string())
        .end_sequence_timestamp("a".to_string());
    assert_eq!(
        query_message(q.check().err().unwrap()),
        "start_sequence_timestamp must be before end_sequence_timestamp"
    );
    let q = OrderListFillsQuery::new().order_ids(&["o1".to_string()]).cursor("c".to_string());
    assert_eq!(q.to_query(), "order_ids=o1&limit=100&cursor=c");
}

#[test]
fn legacy_list_queries() {
    let q = ListOrdersQuery {
        order_ids: None,
        product_ids: Some(vec!["BTC-USD".to_string()]),
        product_type: Some("SPOT".to_string()),
        order_status: Some(vec![OrderStatus::Open]),
        time_in_forces: None,
        order_types: None,
        order_side: Some(OrderSide::Buy),
        start_date: None,
        end_date: None,
        asset_filters: None,
        limit: Some(5),
        cursor: None,
    };
    assert_eq!(
        q.to_query(),
        "product_ids=BTC-USD&product_type=SPOT&order_status=Open&order_side=BUY&limit=5"
    );
    let f = ListFillsQuery {
        order_id: Some("o".to_string()),
        product_id: None,
        start_sequence_timestamp: None,
        end_sequence_timestamp: None,
        limit: Some(3),
        cursor: None,
    };
    assert_eq!(f.to_query(), "order_id=o&limit=3");
    assert_eq!(f.to_string(), "order_id=o&limit=3");
    let c = ClosePositionQuery {
        client_order_id: Some("c".to_string()),
        product_id: Some("p".to_string()),
        size: Some(2),
    };
    assert_eq!(c.to_query(), "client_order_id=c&product_id=p&size=2");
}

#[test]
fn order_requests_are_checked() {
    assert_eq!(request_message(OrderCancelRequest::new(&[]).check().err().unwrap()), "no order IDs provided");
    assert!(OrderCancelRequest::new(&["a".to_string()]).check().is_ok());
    let close = OrderClosePositionRequest::new("", "BTC-USD");
    assert_eq!(request_message(close.check().err().unwrap()), "client_order_id is required");
    let close = OrderClosePositionRequest::new("id", "");
    assert_eq!(request_message(close.check().err().unwrap()), "product_id is required");
    let close = OrderClosePositionRequest::new("id", "BTC-USD").size(0);
    assert_eq!(request_message(close.check().err().unwrap()), "size must be greater than 0");
    assert!(OrderClosePositionRequest::new("id", "BTC-USD").size(1).check().is_ok());
}

#[test]
fn first_version_list_orders_query() {
    let mut q = FirstListOrdersQuery::new();
    assert_eq!(q.to_string(), "");
    q.product_id = Some("BTC-USD".to_string());
    q.order_status = Some(vec![FirstStatus::OPEN, FirstStatus::EXPIRED]);
    q.limit = Some(2);
    q.order_type = Some(FirstType::STOPLIMIT);
    q.order_side = Some(FirstSide::SELL);
    q.product_type = Some("SPOT".to_string());
    assert_eq!(
        q.to_string(),
        "product_id=BTC-USD&order_status=OPEN&order_status=EXPIRED&limit=2&order_type=STOPLIMIT&order_side=SELL&product_type=SPOT"
    );
}

#[test]
fn first_version_order_decisions() {
    let q = get_all_query("BTC-USD", None);
    assert_eq!(q.to_string(), "product_id=BTC-USD");
    let mut given = FirstListOrdersQuery::new();
    given.limit = Some(7);
    given.product_id = Some("ETH-USD".to_string());
    let q = get_all_query("BTC-USD", Some(given));
    assert_eq!(q.to_string(), "product_id=BTC-USD&limit=7");
    let next = next_page(q, true, "c1".to_string()).unwrap();
    assert_eq!(next.to_string(), "product_id=BTC-USD&limit=7&cursor=c1");
    assert!(next_page(next, false, "c2".to_string()).is_none());
    assert_eq!(cancel_all_query("BTC-USD").to_string(), "product_id=BTC-USD&order_status=OPEN");
    match cancel_plan(vec![]) {
        Err(CbError::NothingToDo(m)) => assert_eq!(m, "no orders found to cancel"),
        _ => panic!("nothing to cancel is an error"),
    }
    assert_eq!(cancel_plan(vec!["a".to_string()]).unwrap(), vec!["a".to_string()]);
    let buy = market_configuration("BUY", "10");
    assert_eq!((buy.quote_size, buy.base_size), (Some("10".to_string()), None));
    let sell = market_configuration("SELL", "0.5");
    assert_eq!((sell.quote_size, sell.base_size), (None, Some("0.5".to_string())));
}
