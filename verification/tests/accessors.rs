//! Tests for the document accessors: fixed key paths, the currency and price
//! fallback policy, and the URL builder.

use yahoo_fundamentals::{Json, Ticker, extract_quote_store, quote_url};

fn page_with_store(store_json: &str) -> String {
    let mut html = String::from("root.App.main = {\"context\":{\"dispatcher\":{\"stores\":{\"QuoteSummaryStore\":");
    html.push_str(store_json);
    html.push_str("}}}}(this);\n}");
    html
}

fn ticker_with_store(store_json: &str) -> Ticker {
    Ticker::from_html(&page_with_store(store_json)).unwrap()
}

#[test]
fn price_reads_regular_market_price_raw() {
    let t = ticker_with_store("{\"price\":{\"regularMarketPrice\":{\"raw\":123.45}}}");
    assert_eq!(t.info().price(), Some("123.45".to_string()));
}

#[test]
fn price_falls_back_to_regular_market_open() {
    let t = ticker_with_store(
        "{\"price\":{\"regularMarketPrice\":null,\"regularMarketOpen\":{\"raw\":87.0}}}",
    );
    assert_eq!(t.info().price(), Some("87.0".to_string()));
}

#[test]
fn price_without_price_section_is_absent() {
    let t = ticker_with_store("{\"quoteType\":{}}");
    assert_eq!(t.info().price(), None);
}

#[test]
fn price_with_non_numeric_raw_is_absent() {
    let t = ticker_with_store("{\"price\":{\"regularMarketPrice\":{\"raw\":\"text\"}}}");
    assert_eq!(t.info().price(), None);
}

#[test]
fn currency_reads_price_currency() {
    let t = ticker_with_store("{\"price\":{\"currency\":\"EUR\"}}");
    assert_eq!(t.info().currency(), "EUR");
}

#[test]
fn currency_defaults_to_placeholder() {
    let t = ticker_with_store("{\"price\":{}}");
    assert_eq!(t.info().currency(), "---");
    let no_price = ticker_with_store("{}");
    assert_eq!(no_price.info().currency(), "---");
    let wrong_type = ticker_with_store("{\"price\":{\"currency\":7}}");
    assert_eq!(wrong_type.info().currency(), "---");
}

#[test]
fn sections_are_read_from_their_keys() {
    let t = ticker_with_store(
        "{\"summaryProfile\":{\"sector\":\"Tech\"},\"financialData\":{\"ebitda\":{\"raw\":5}},\"quoteType\":{\"exchange\":\"NMS\"},\"defaultKeyStatistics\":{\"beta\":1},\"assetProfile\":{\"country\":\"US\"},\"summaryDetail\":{\"volume\":9},\"topHoldings\":{\"cashPosition\":2},\"esgScores\":{\"totalEsg\":31}}",
    );
    let info = t.info();
    assert_eq!(info.summary().get("sector"), &Json::Text("Tech".to_string()));
    assert_eq!(
        info.financial_data().get("ebitda").get("raw"),
        &Json::Num("5".to_string())
    );
    assert_eq!(info.quote_type().get("exchange"), &Json::Text("NMS".to_string()));
    assert_eq!(info.default_key_statistics().get("beta"), &Json::Num("1".to_string()));
    assert_eq!(info.asset_profile().get("country"), &Json::Text("US".to_string()));
    assert_eq!(info.summary_detail().get("volume"), &Json::Num("9".to_string()));
    assert_eq!(info.top_holdings().get("cashPosition"), &Json::Num("2".to_string()));
    assert_eq!(t.sustainability().get("totalEsg"), &Json::Num("31".to_string()));
}

#[test]
fn missing_sections_are_null() {
    let t = ticker_with_store("{}");
    let info = t.info();
    assert_eq!(info.summary(), &Json::Null);
    assert_eq!(info.financial_data(), &Json::Null);
    assert_eq!(info.top_holdings(), &Json::Null);
    assert_eq!(t.sustainability(), &Json::Null);
}

#[test]
fn summary_returns_the_store_of_the_full_document() {
    let t = ticker_with_store("{\"inner\":true}");
    assert_eq!(t.summary().get("inner"), &Json::Bool(true));
    assert_eq!(t.summary().get("missing"), &Json::Null);
    let no_store = Ticker::from_html("root.App.main = {\"context\":{}}(this);\n}").unwrap();
    assert_eq!(no_store.summary(), &Json::Null);
}

#[test]
fn time_series_shares_are_read_beside_the_store() {
    let html = "root.App.main = {\"context\":{\"dispatcher\":{\"stores\":{\"QuoteSummaryStore\":{\"price\":{}},\"QuoteTimeSeriesStore\":{\"timeSeries\":{\"annualBasicAverageShares\":[{\"raw\":100}]}}}}}}(this);\n}";
    let t = Ticker::from_html(html).unwrap();
    let shares = t.annual_basic_average_shares();
    assert_eq!(shares.get("missing"), &Json::Null);
    match shares {
        Json::Arr(items) => {
            assert_eq!(items.len(), 1);
            assert_eq!(items[0].get("raw"), &Json::Num("100".to_string()));
        },
        _ => panic!("expected an array"),
    }
    let without_series = ticker_with_store("{\"price\":{}}");
    assert_eq!(without_series.annual_basic_average_shares(), &Json::Null);
}

#[test]
fn get_path_follows_keys_permissively() {
    let store = extract_quote_store(&page_with_store(
        "{\"price\":{\"regularMarketPrice\":{\"raw\":3}}}",
    ))
    .unwrap();
    assert_eq!(
        store.get_path(&["price", "regularMarketPrice", "raw"]),
        &Json::Num("3".to_string())
    );
    assert_eq!(store.get_path(&["price", "missing", "raw"]), &Json::Null);
    assert_eq!(store.get_path(&[]), &store);
}

#[test]
fn quote_url_appends_the_symbol() {
    assert_eq!(quote_url("RGR"), "https://finance.yahoo.com/quote/RGR");
    assert_eq!(quote_url("LCUW.DE"), "https://finance.yahoo.com/quote/LCUW.DE");
}
