//! Tests for cutting the bootstrap JSON out of a quote page's HTML.

use yahoo_fundamentals::{Json, Ticker, YahooError, extract_json_text, extract_quote_store};

const PAGE: &str = "<html><script>(function (root) {\nroot.App.main = {\"context\":{\"dispatcher\":{\"stores\":{\"QuoteSummaryStore\":{\"price\":{\"regularMarketPrice\":{\"raw\":123.45}},\"currency\":\"USD\"}}}}}(this);\n}</script></html>";

#[test]
fn missing_marker_is_malformed() {
    let html = "<html><body>no bootstrap assignment anywhere</body></html>";
    assert_eq!(extract_quote_store(html), Err(YahooError::MalformedDocument));
    assert!(Ticker::from_html(html).is_err());
}

#[test]
fn missing_call_marker_is_malformed() {
    let html = "root.App.main = {\"a\":1};\n} and nothing closes the call";
    assert_eq!(extract_quote_store(html), Err(YahooError::MalformedDocument));
}

#[test]
fn missing_terminator_is_malformed() {
    let html = "root.App.main = {\"a\":1}(this) with no statement terminator";
    assert_eq!(extract_quote_store(html), Err(YahooError::MalformedDocument));
}

#[test]
fn garbage_between_markers_is_invalid_json() {
    let html = "root.App.main = @@not json at all@@(this);\n}";
    assert_eq!(extract_quote_store(html), Err(YahooError::InvalidJson));
}

#[test]
fn embedded_text_is_cut_and_trimmed() {
    let html = "prefix root.App.main =   {\"a\": 1}   ;\n}(this));suffix";
    assert_eq!(extract_json_text(html).unwrap(), "{\"a\": 1}");
}

#[test]
fn markers_in_either_order_delimit_the_text() {
    let with_call_first = "root.App.main = {\"a\": 1}(this);\n}";
    assert_eq!(extract_json_text(with_call_first).unwrap(), "{\"a\": 1}");
    let with_terminator_first = "root.App.main = {\"a\": 1};\n}(this));";
    assert_eq!(extract_json_text(with_terminator_first).unwrap(), "{\"a\": 1}");
}

#[test]
fn first_marker_occurrence_wins() {
    let html = "root.App.main = {\"a\":1};\n}(this) root.App.main = zzz(this);\n}";
    assert_eq!(extract_json_text(html).unwrap(), "{\"a\":1}");
}

#[test]
fn quote_page_store_is_extracted() {
    let store = extract_quote_store(PAGE).unwrap();
    let price_raw = store.get("price").get("regularMarketPrice").get("raw");
    assert_eq!(price_raw, &Json::Num("123.45".to_string()));
    assert_eq!(store.get("currency"), &Json::Text("USD".to_string()));
}

#[test]
fn store_outside_the_fixed_path_is_null() {
    let html = "root.App.main = {\"context\":{\"other\":1}}(this);\n}";
    assert_eq!(extract_quote_store(html), Ok(Json::Null));
}

#[test]
fn null_document_is_accepted() {
    let html = "root.App.main = null;\n}(this));";
    assert_eq!(extract_quote_store(html), Ok(Json::Null));
}

#[test]
fn extraction_is_deterministic_and_isolated() {
    let one = "root.App.main = {\"context\":{\"dispatcher\":{\"stores\":{\"QuoteSummaryStore\":{\"price\":{\"regularMarketPrice\":{\"raw\":1.5}}}}}}}(this);\n}";
    let two = "root.App.main = {\"context\":{\"dispatcher\":{\"stores\":{\"QuoteSummaryStore\":{\"price\":{\"regularMarketPrice\":{\"raw\":2.5}}}}}}}(this);\n}";
    let t1 = Ticker::from_html(one).unwrap();
    let t2 = Ticker::from_html(two).unwrap();
    let t1_again = Ticker::from_html(one).unwrap();
    assert_eq!(t1.info().price(), Some("1.5".to_string()));
    assert_eq!(t2.info().price(), Some("2.5".to_string()));
    assert_eq!(t1_again.info().price(), Some("1.5".to_string()));
    assert_eq!(t1.info().price(), t1_again.info().price());
}
