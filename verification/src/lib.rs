//! Scraping helpers for a financial data provider's quote pages: locate the
//! JSON blob embedded in a page's HTML, parse it, and navigate its fields by
//! fixed key paths.
//!
//! The fetch itself is one plain HTTP GET and lives with the caller; this
//! library does everything after it: cutting the bootstrap data out of the
//! page text, parsing it, and the accessors over the parsed document.

use vstd::prelude::*;

pub mod codec;
pub mod extract;
pub mod json;
pub mod ser;
pub mod text;
pub mod ticker;

pub use extract::extract_json_text;
pub use extract::extract_quote_store;
pub use extract::parse_page;
pub use json::Json;
pub use ticker::Info;
pub use ticker::Ticker;
pub use ticker::quote_url;

verus! {

/// Why a ticker document could not be built. Every failure aborts the whole
/// construction; once a document is built, no accessor ever fails.
#[derive(Debug, Clone, Copy, PartialEq, Eq, Structural)]
pub enum YahooError {
    /// The transport failed, the server answered with an error status, or the
    /// body was not text. Only the fetching caller produces this.
    NetworkError,
    /// One of the three delimiters around the embedded JSON was not found.
    MalformedDocument,
    /// The delimiters were found but the text between them did not parse.
    InvalidJson,
}

} // verus!
