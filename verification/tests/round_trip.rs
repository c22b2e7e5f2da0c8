//! Tests for serializing a document back to JSON text: re-serializing the
//! extracted store must preserve every key and value, which serde_json's own
//! parser and value equality check here.

use yahoo_fundamentals::{Json, extract_quote_store};

fn wrap(inner: &str) -> String {
    let mut html = String::from("root.App.main = ");
    html.push_str(inner);
    html.push_str("(this);\n}");
    html
}

fn store_round_trips(inner: &str) {
    let store = extract_quote_store(&wrap(inner)).unwrap();
    let reserialized = store.to_text();
    let direct: serde_json::Value = serde_json::from_str(inner).unwrap();
    let expected = &direct["context"]["dispatcher"]["stores"]["QuoteSummaryStore"];
    let reparsed: serde_json::Value = serde_json::from_str(&reserialized).unwrap();
    assert_eq!(&reparsed, expected);
}

#[test]
fn extracted_store_reserializes_unchanged() {
    store_round_trips(
        "{\"context\":{\"dispatcher\":{\"stores\":{\"QuoteSummaryStore\":{\"price\":{\"regularMarketPrice\":{\"raw\":123.45}},\"currency\":\"USD\",\"list\":[1,2.5,-3,true,false,null],\"empty\":{},\"none\":[]}}}}}",
    );
}

#[test]
fn strings_reserialize_with_escapes() {
    store_round_trips(
        "{\"context\":{\"dispatcher\":{\"stores\":{\"QuoteSummaryStore\":{\"s\":\"a\\\"b\\\\c\\nd\\u0007e\",\"k\\\"ey\":1}}}}}",
    );
}

#[test]
fn serialized_text_is_exact() {
    let store = extract_quote_store(&wrap(
        "{\"context\":{\"dispatcher\":{\"stores\":{\"QuoteSummaryStore\":{\"b\":true,\"n\":null,\"x\":[1,\"two\"]}}}}}",
    ))
    .unwrap();
    assert_eq!(store.to_text(), "{\"b\":true,\"n\":null,\"x\":[1,\"two\"]}");
}

#[test]
fn text_values_escape_quote_backslash_and_controls() {
    let j = Json::Text("a\"b\\c\nd".to_string());
    assert_eq!(j.to_text(), "\"a\\\"b\\\\c\\u000ad\"");
}
