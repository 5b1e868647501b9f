use cbadv::errors::CbError;
use cbadv::models::account::AccountListQuery;
use cbadv::models::convert::ConvertQuery;
use cbadv::models::fee::FeeTransactionSummaryQuery;
use cbadv::models::portfolio::{
    PortfolioBreakdownQuery, PortfolioListQuery, PortfolioModifyRequest, PortfolioType,
};
use cbadv::models::product::{
    ProductBidAskQuery, ProductCandleQuery, ProductListQuery, ProductTickerQuery, ProductType,
};
use cbadv::product::{ListProductsQuery, TickerQuery};
use cbadv::time::Granularity;
use cbadv::traits::{Query, Request};
use cbadv::utils::QueryBuilder;

fn query_message(e: CbError) -> String {
    match e {
        CbError::BadQuery(m) => m,
        other => panic!("expected a query error, got {:?}", other),
    }
}

fn request_message(e: CbError) -> String {
    match e {
        CbError::BadRequest(m) => m,
        other => panic!("expected a request error, got {:?}", other),
    }
}

#[test]
fn query_builder_joins_pairs() {
    let q = QueryBuilder::new()
        .push("a", &1u32)
        .push_optional("b", &None::<u32>)
        .push_optional("c", &Some(true))
        .push_vec("d", &vec!["x".to_string(), "y".to_string()])
        .push_optional_vec("e", &None::<Vec<u64>>)
        .build();
    assert_eq!(q, "a=1&c=true&d=x&d=y");
    assert_eq!(QueryBuilder::new().build(), "");
}

#[test]
fn account_list_query() {
    let q = AccountListQuery::new();
    assert_eq!(q.limit, 49);
    assert!(q.check().is_ok());
    assert_eq!(q.to_query(), "limit=49");
    let q = AccountListQuery::new().limit(250).cursor("next".to_string());
    assert!(q.check().is_ok());
    assert_eq!(q.to_query(), "limit=250&cursor=next");
    let q = AccountListQuery::new().limit(251);
    assert_eq!(query_message(q.check().err().unwrap()), "Limit must be greater than 0 with a maximum of 250");
    let q = AccountListQuery::new().limit(0);
    assert_eq!(query_message(q.check().err().unwrap()), "Limit must be greater than 0 with a maximum of 250");
}

#[test]
fn convert_query() {
    let q = ConvertQuery::new("USD", "USDC");
    assert!(Query::check(&q).is_ok());
    assert!(Request::check(&q).is_ok());
    assert_eq!(q.to_query(), "from_account=USD&to_account=USDC");
    let q = ConvertQuery::new("", "USDC");
    assert_eq!(query_message(Query::check(&q).err().unwrap()), "from_account is required");
    assert_eq!(request_message(Request::check(&q).err().unwrap()), "from_account is required");
    let q = ConvertQuery::new("USD", "");
    assert_eq!(query_message(Query::check(&q).err().unwrap()), "to_account is required");
    let q = ConvertQuery::new("A", "B").from_account("C").to_account("D");
    assert_eq!(q.to_query(), "from_account=C&to_account=D");
}

#[test]
fn fee_query() {
    let q = FeeTransactionSummaryQuery::new();
    assert!(q.check().is_ok());
    assert_eq!(q.to_query(), "");
    let q = FeeTransactionSummaryQuery::new().product_type(ProductType::Spot);
    assert_eq!(q.to_query(), "product_type=SPOT");
    let q = FeeTransactionSummaryQuery::new().product_type(ProductType::Unknown);
    assert_eq!(query_message(q.check().err().unwrap()), "product_type cannot be unknown");
}

#[test]
fn portfolio_queries_and_requests() {
    let q = PortfolioListQuery::new().portfolio_type(PortfolioType::Default);
    assert!(q.check().is_ok());
    assert_eq!(q.to_query(), "portfolio_type=DEFAULT");
    let q = PortfolioListQuery::new().portfolio_type(PortfolioType::Undefined);
    assert_eq!(query_message(q.check().err().unwrap()), "portfolio type cannot be undefined");
    let b = PortfolioBreakdownQuery::new().currency("USD");
    assert!(b.check().is_ok());
    assert_eq!(b.to_query(), "currency=USD");
    assert_eq!(request_message(PortfolioModifyRequest::new("").check().err().unwrap()), "portfolio name cannot be empty");
    assert!(PortfolioModifyRequest::new("main").check().is_ok());
}

#[test]
fn product_list_query() {
    let q = ProductListQuery::new()
        .limit(5)
        .offset(2)
        .product_type(ProductType::Future)
        .product_ids(&["A".to_string(), "B".to_string()])
        .get_all_products(true)
        .get_tradability_status(false);
    assert!(q.check().is_ok());
    assert_eq!(
        q.to_query(),
        "limit=5&offset=2&product_type=FUTURE&product_ids=A&product_ids=B&get_all_products=true&get_tradability_status=false"
    );
    assert_eq!(query_message(ProductListQuery::new().limit(0).check().err().unwrap()), "limit must be greater than 0");
    assert_eq!(query_message(ProductListQuery::new().offset(0).check().err().unwrap()), "offset must be greater than 0");
    assert_eq!(
        query_message(ProductListQuery::new().product_type(ProductType::Unknown).check().err().unwrap()),
        "product_type cannot be unknown"
    );
}

#[test]
fn product_ticker_query() {
    let q = ProductTickerQuery::default();
    assert!(q.check().is_ok());
    assert_eq!(q.to_query(), "limit=100");
    let q = ProductTickerQuery::new(5).start("2024").end("2025");
    assert_eq!(q.to_query(), "limit=5&start=2024&end=2025");
    assert_eq!(query_message(ProductTickerQuery::new(0).check().err().unwrap()), "limit must be greater than 0");
    let q = ProductTickerQuery::new(5).start("b").end("a");
    assert_eq!(query_message(q.check().err().unwrap()), "start must be less than end");
}

#[test]
fn product_bid_ask_query() {
    let q = ProductBidAskQuery::new().product_ids(&["BTC-USD".to_string(), "ETH-USD".to_string()]);
    assert!(q.check().is_ok());
    assert_eq!(q.to_query(), "product_ids=BTC-USD&product_ids=ETH-USD");
    assert_eq!(ProductBidAskQuery::new().to_query(), "");
}

#[test]
fn product_candle_query() {
    let q = ProductCandleQuery::new(100, 200, Granularity::OneHour);
    assert!(q.check().is_ok());
    assert_eq!(q.to_query(), "start=100&end=200&granularity=ONE_HOUR&limit=350");
    assert_eq!(
        query_message(ProductCandleQuery::new(100, 200, Granularity::OneHour).limit(0).check().err().unwrap()),
        "limit must be greater than 0"
    );
    assert_eq!(
        query_message(ProductCandleQuery::new(200, 200, Granularity::OneHour).check().err().unwrap()),
        "start must be less than end"
    );
    assert_eq!(
        query_message(ProductCandleQuery::new(100, 200, Granularity::Unknown).check().err().unwrap()),
        "granularity cannot be unknown or unset"
    );
    let d = ProductCandleQuery::default();
    assert_eq!(d.granularity, Granularity::FiveMinute);
    assert_eq!(d.limit, 350);
    assert!(d.start <= d.end);
}

#[test]
fn legacy_product_queries() {
    let q = ListProductsQuery {
        limit: Some(3),
        offset: None,
        product_type: Some("SPOT".to_string()),
        product_ids: Some(vec!["A".to_string(), "B".to_string()]),
    };
    assert_eq!(q.to_string(), "limit=3&product_type=SPOT&product_ids=A&product_ids=B");
    let empty = ListProductsQuery { limit: None, offset: None, product_type: None, product_ids: None };
    assert_eq!(empty.to_string(), "");
    assert_eq!(TickerQuery { limit: 25 }.to_string(), "limit=25");
}

#[test]
fn candle_query_of_the_last_day() {
    let q = ProductCandleQuery::last_day(100_000, 100_500);
    assert_eq!((q.start, q.end, q.limit), (13_600, 100_500, 350));
    assert_eq!(q.granularity, Granularity::FiveMinute);
    let early = ProductCandleQuery::last_day(10, 20);
    assert_eq!((early.start, early.end), (0, 20));
}
