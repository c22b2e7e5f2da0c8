//! The ticker document and its accessors.
//!
//! A `Ticker` is an immutable snapshot of one ticker's full scraped bootstrap
//! document; the views borrow it and re-navigate their fixed key paths, so
//! accessors that reach outside the `QuoteSummaryStore` (the time-series
//! shares) still find their sections. Accessors never fail: a missing key
//! degrades to a null, a default string or an absent number, so a reshaped
//! upstream payload can never turn them into a source of errors.

use vstd::prelude::*;
use vstd::string::StringExecFns;

use crate::YahooError;
use crate::extract::{parse_page, spec_parse_page, store_path};
use crate::json::{Json, spec_key};

verus! {

/// The URL of the provider's quote page for a ticker symbol. The symbol is
/// not validated; any string is pasted into the path segment.
pub open spec fn spec_quote_url(ticker: Seq<char>) -> Seq<char> {
    "https://finance.yahoo.com/quote/"@ + ticker
}

/// The URL of the provider's quote page for a ticker symbol.
pub fn quote_url(ticker: &str) -> (r: String)
    ensures
        r@ == spec_quote_url(ticker@),
{
    let mut url = "https://finance.yahoo.com/quote/".to_owned();
    url.append(ticker);
    url
}

/// One ticker's full scraped bootstrap document, built once from the page
/// text and never mutated afterwards. Its view is that document; the
/// `QuoteSummaryStore` is the value at `store_path` of it.
pub struct Ticker {
    document: Json,
}

impl View for Ticker {
    type V = Json;

    closed spec fn view(&self) -> Json {
        self.document
    }
}

impl Ticker {
    /// Build the document from a quote page's HTML. The result is a function
    /// of the page text alone: two constructions share and mutate nothing.
    pub fn from_html(html: &str) -> (r: Result<Ticker, YahooError>)
        ensures
            match r {
                Ok(t) => spec_parse_page(html@) == Ok::<Json, YahooError>(t@),
                Err(e) => spec_parse_page(html@) == Err::<Json, YahooError>(e),
            },
    {
        match parse_page(html) {
            Ok(j) => Ok(Ticker { document: j }),
            Err(e) => Err(e),
        }
    }

    /// The `QuoteSummaryStore` sub-object: the value at the fixed store path
    /// of the full document.
    pub fn summary(&self) -> (r: &Json)
        ensures
            *r == store_path(self@),
    {
        self.document.get("context").get("dispatcher").get("stores").get("QuoteSummaryStore")
    }

    /// The yearly basic average share counts: a path of the full document
    /// that reaches outside the `QuoteSummaryStore`, into the time-series
    /// store beside it.
    pub fn annual_basic_average_shares(&self) -> (r: &Json)
        ensures
            *r == spec_key(
                spec_key(
                    spec_key(
                        spec_key(spec_key(spec_key(self@, "context"@), "dispatcher"@), "stores"@),
                        "QuoteTimeSeriesStore"@,
                    ),
                    "timeSeries"@,
                ),
                "annualBasicAverageShares"@,
            ),
    {
        self.document.get("context").get("dispatcher").get("stores").get(
            "QuoteTimeSeriesStore",
        ).get("timeSeries").get("annualBasicAverageShares")
    }

    /// The ESG scores section of the store.
    pub fn sustainability(&self) -> (r: &Json)
        ensures
            *r == spec_key(store_path(self@), "esgScores"@),
    {
        self.summary().get("esgScores")
    }

    /// A view over the `QuoteSummaryStore` for the named per-section
    /// accessors.
    pub fn info<'a>(&'a self) -> (r: Info<'a>)
        ensures
            r@ == store_path(self@),
    {
        Info { data: self.summary() }
    }
}

/// A stateless view of a ticker's store: named fixed-path lookups. It owns
/// nothing and borrows the document, which must outlive it.
pub struct Info<'a> {
    pub(crate) data: &'a Json,
}

impl<'a> View for Info<'a> {
    type V = Json;

    closed spec fn view(&self) -> Json {
        *self.data
    }
}

/// The currency of the document: the text under `price.currency`, or the
/// placeholder `---` when that field is absent or not text.
pub open spec fn spec_currency(d: Json) -> Seq<char> {
    match spec_key(spec_key(d, "price"@), "currency"@) {
        Json::Text(s) => s@,
        _ => "---"@,
    }
}

/// The node the price is read from: `price.regularMarketPrice.raw`, unless
/// `price.regularMarketPrice` is a null, in which case
/// `price.regularMarketOpen.raw`.
pub open spec fn spec_price_node(d: Json) -> Json {
    let p = spec_key(spec_key(d, "price"@), "regularMarketPrice"@);
    if p is Null {
        spec_key(spec_key(spec_key(d, "price"@), "regularMarketOpen"@), "raw"@)
    } else {
        spec_key(p, "raw"@)
    }
}

/// The price of the document, as the literal text of the chosen number, and
/// nothing when the chosen node is absent or not a number.
pub open spec fn spec_price(d: Json) -> Option<Seq<char>> {
    match spec_price_node(d) {
        Json::Num(t) => Some(t@),
        _ => None,
    }
}

impl<'a> Info<'a> {
    /// The summary profile section.
    pub fn summary(&self) -> (r: &Json)
        ensures
            *r == spec_key(self@, "summaryProfile"@),
    {
        self.data.get("summaryProfile")
    }

    /// The financial data section.
    pub fn financial_data(&self) -> (r: &Json)
        ensures
            *r == spec_key(self@, "financialData"@),
    {
        self.data.get("financialData")
    }

    /// The quote type section.
    pub fn quote_type(&self) -> (r: &Json)
        ensures
            *r == spec_key(self@, "quoteType"@),
    {
        self.data.get("quoteType")
    }

    /// The key statistics section.
    pub fn default_key_statistics(&self) -> (r: &Json)
        ensures
            *r == spec_key(self@, "defaultKeyStatistics"@),
    {
        self.data.get("defaultKeyStatistics")
    }

    /// The asset profile section.
    pub fn asset_profile(&self) -> (r: &Json)
        ensures
            *r == spec_key(self@, "assetProfile"@),
    {
        self.data.get("assetProfile")
    }

    /// The summary detail section.
    pub fn summary_detail(&self) -> (r: &Json)
        ensures
            *r == spec_key(self@, "summaryDetail"@),
    {
        self.data.get("summaryDetail")
    }

    /// The currency, or the placeholder `---` when the document does not name
    /// one as text.
    pub fn currency(&self) -> (r: &str)
        ensures
            r@ == spec_currency(self@),
    {
        match self.data.get("price").get("currency") {
            Json::Text(s) => s.as_str(),
            _ => "---",
        }
    }

    /// The regular market price, as the literal text of the number: the value
    /// under `price.regularMarketPrice.raw`, falling back to
    /// `price.regularMarketOpen.raw` when the former node is a null. `None`
    /// stands for the not-a-number sentinel: the chosen field is absent or
    /// not a number. Never an error.
    pub fn price(&self) -> (r: Option<String>)
        ensures
            match r {
                Some(t) => spec_price(self@) == Some(t@),
                None => spec_price(self@) is None,
            },
    {
        let p = self.data.get("price").get("regularMarketPrice");
        let node = match p {
            Json::Null => self.data.get("price").get("regularMarketOpen").get("raw"),
            _ => p.get("raw"),
        };
        match node {
            Json::Num(t) => Some(t.clone()),
            _ => None,
        }
    }

    /// The top holdings section (ETF documents only).
    pub fn top_holdings(&self) -> (r: &Json)
        ensures
            *r == spec_key(self@, "topHoldings"@),
    {
        self.data.get("topHoldings")
    }
}

/// Law: when `price.regularMarketPrice` is a null, the price is read from
/// `price.regularMarketOpen.raw`: the fallback applies.
pub proof fn lemma_price_fallback(d: Json)
    requires
        spec_key(spec_key(d, "price"@), "regularMarketPrice"@) is Null,
    ensures
        spec_price(d) == (match spec_key(
            spec_key(spec_key(d, "price"@), "regularMarketOpen"@),
            "raw"@,
        ) {
            Json::Num(t) => Some(t@),
            _ => None::<Seq<char>>,
        }),
{
}

/// Law: a document whose `price` lookup yields a null (a missing key in
/// particular) has no price number; the accessor answers the sentinel, never
/// an error.
pub proof fn lemma_missing_price_gives_no_number(d: Json)
    requires
        spec_key(d, "price"@) is Null,
    ensures
        spec_price(d) is None,
{
}

/// Law: a document whose `price.currency` lookup yields anything but text
/// gets the placeholder currency.
pub proof fn lemma_missing_currency_gives_placeholder(d: Json)
    requires
        !(spec_key(spec_key(d, "price"@), "currency"@) is Text),
    ensures
        spec_currency(d) == "---"@,
{
}

} // verus!
