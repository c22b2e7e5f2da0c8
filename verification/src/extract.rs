//! Locating the JSON blob embedded in a provider quote page and pulling the
//! `QuoteSummaryStore` object out of it.
//!
//! The page carries its bootstrap data as a JavaScript assignment: the text
//! after the first `root.App.main =`, cut before the closing markers `(this)`
//! and `;\n}` of the surrounding call, trimmed of whitespace, must be a JSON
//! document of the shape `{ "context": { "dispatcher": { "stores": {
//! "QuoteSummaryStore": ... } } } }`.

use vstd::prelude::*;

use crate::YahooError;
use crate::codec::{parse_json, parsed_json};
use crate::json::{Json, spec_key};
use crate::text::{find_from, is_match_at, spec_find_from, spec_trim, trim};
use crate::text::{lemma_find_from_finds, lemma_find_from_some};

verus! {

/// The text between the page's delimiters: everything after the first
/// `root.App.main =`, cut before the start of the first `;\n}` that follows
/// it and bounded additionally by the first `(this)`, then trimmed. The page
/// wrapper puts the two closing markers next to each other, in either order,
/// so the cut falls at whichever comes first; a missing delimiter makes the
/// document malformed.
pub open spec fn spec_extract_text(h: Seq<char>) -> Result<Seq<char>, YahooError> {
    match spec_find_from(h, "root.App.main ="@, 0) {
        None => Err(YahooError::MalformedDocument),
        Some(i) => {
            let rest = h.subrange(i + "root.App.main ="@.len(), h.len() as int);
            match spec_find_from(rest, "(this)"@, 0) {
                None => Err(YahooError::MalformedDocument),
                Some(j) => match spec_find_from(rest, ";\n}"@, 0) {
                    None => Err(YahooError::MalformedDocument),
                    Some(k) => Ok(
                        spec_trim(
                            rest.subrange(
                                0,
                                if j <= k {
                                    j
                                } else {
                                    k
                                },
                            ),
                        ),
                    ),
                },
            }
        },
    }
}

/// The fixed path from the root of the bootstrap data to the quote store.
pub open spec fn store_path(j: Json) -> Json {
    spec_key(
        spec_key(spec_key(spec_key(j, "context"@), "dispatcher"@), "stores"@),
        "QuoteSummaryStore"@,
    )
}

/// The full bootstrap document of a page text: the delimited text must exist
/// and parse as JSON.
pub open spec fn spec_parse_page(h: Seq<char>) -> Result<Json, YahooError> {
    match spec_extract_text(h) {
        Err(e) => Err(e),
        Ok(t) => match parsed_json(t) {
            None => Err(YahooError::InvalidJson),
            Some(j) => Ok(j),
        },
    }
}

/// What store extraction returns for a page text: the value at the fixed path
/// of the full bootstrap document, a null when any key along it is absent.
pub open spec fn spec_extract_store(h: Seq<char>) -> Result<Json, YahooError> {
    match spec_parse_page(h) {
        Err(e) => Err(e),
        Ok(j) => Ok(store_path(j)),
    }
}

/// Cut the embedded JSON text out of a page's HTML.
pub fn extract_json_text(html: &str) -> (r: Result<String, YahooError>)
    ensures
        match r {
            Ok(s) => spec_extract_text(html@) == Ok::<Seq<char>, YahooError>(s@),
            Err(e) => spec_extract_text(html@) == Err::<Seq<char>, YahooError>(e),
        },
{
    let hlen = html.unicode_len();
    let marker = "root.App.main =";
    let mlen = marker.unicode_len();
    match find_from(html, marker, 0) {
        None => Err(YahooError::MalformedDocument),
        Some(i) => {
            let rest = html.substring_char(i + mlen, hlen);
            match find_from(rest, "(this)", 0) {
                None => Err(YahooError::MalformedDocument),
                Some(j) => match find_from(rest, ";\n}", 0) {
                    None => Err(YahooError::MalformedDocument),
                    Some(k) => {
                        let cut = rest.substring_char(
                            0,
                            if j <= k {
                                j
                            } else {
                                k
                            },
                        );
                        let trimmed = trim(cut);
                        Ok(trimmed.to_owned())
                    },
                },
            }
        },
    }
}

/// Parse the full bootstrap document embedded in a quote page.
pub fn parse_page(html: &str) -> (r: Result<Json, YahooError>)
    ensures
        r == spec_parse_page(html@),
{
    let text = match extract_json_text(html) {
        Ok(t) => t,
        Err(e) => {
            return Err(e);
        },
    };
    match parse_json(text.as_str()) {
        None => Err(YahooError::InvalidJson),
        Some(j) => Ok(j),
    }
}

/// Extract the `QuoteSummaryStore` object embedded in a quote page, detached
/// from the rest of the document.
pub fn extract_quote_store(html: &str) -> (r: Result<Json, YahooError>)
    ensures
        r == spec_extract_store(html@),
{
    match parse_page(html) {
        Err(e) => Err(e),
        Ok(j) => Ok(
            j.take_key("context").take_key("dispatcher").take_key("stores").take_key(
                "QuoteSummaryStore",
            ),
        ),
    }
}

/// Law: a page that nowhere contains the opening marker `root.App.main =` is
/// a malformed document, whatever else it holds.
pub proof fn lemma_missing_marker_is_malformed(h: Seq<char>)
    requires
        forall|i: int| !is_match_at(h, "root.App.main ="@, i),
    ensures
        spec_extract_text(h) == Err::<Seq<char>, YahooError>(YahooError::MalformedDocument),
        spec_parse_page(h) == Err::<Json, YahooError>(YahooError::MalformedDocument),
        spec_extract_store(h) == Err::<Json, YahooError>(YahooError::MalformedDocument),
{
    match spec_find_from(h, "root.App.main ="@, 0) {
        Some(i) => {
            lemma_find_from_some(h, "root.App.main ="@, 0, i);
        },
        None => {},
    }
}

/// Law: a page holding the three markers in order passes the delimiter stage:
/// some candidate text always comes out, and extraction can only fail by that
/// text not being valid JSON.
pub proof fn lemma_markers_in_order_give_text(h: Seq<char>, i1: int, i2: int, i3: int)
    requires
        is_match_at(h, "root.App.main ="@, i1),
        is_match_at(h, "(this)"@, i2),
        is_match_at(h, ";\n}"@, i3),
        i1 + "root.App.main ="@.len() <= i2,
        i2 + "(this)"@.len() <= i3,
    ensures
        spec_extract_text(h) is Ok,
{
    let m1 = "root.App.main ="@;
    let m2 = "(this)"@;
    let m3 = ";\n}"@;
    lemma_find_from_finds(h, m1, 0, i1);
    match spec_find_from(h, m1, 0) {
        Some(i) => {
            lemma_find_from_some(h, m1, 0, i);
            let base = i + m1.len();
            let rest = h.subrange(base, h.len() as int);
            let j2 = i2 - base;
            assert forall|t: int| 0 <= t < m2.len() implies rest[j2 + t] == m2[t] by {
                assert(rest[j2 + t] == h[i2 + t]);
            }
            assert(is_match_at(rest, m2, j2));
            lemma_find_from_finds(rest, m2, 0, j2);
            let j3 = i3 - base;
            assert forall|t: int| 0 <= t < m3.len() implies rest[j3 + t] == m3[t] by {
                assert(rest[j3 + t] == h[i3 + t]);
            }
            assert(is_match_at(rest, m3, j3));
            lemma_find_from_finds(rest, m3, 0, j3);
        },
        None => {
            assert(false);
        },
    }
}

/// Law: when all three delimiters are found, so that a candidate text comes
/// out, but that text is not valid JSON, extraction fails with `InvalidJson`
/// (and never with `MalformedDocument`).
pub proof fn lemma_unparsable_body_is_invalid_json(h: Seq<char>, t: Seq<char>)
    requires
        spec_extract_text(h) == Ok::<Seq<char>, YahooError>(t),
        parsed_json(t) is None,
    ensures
        spec_parse_page(h) == Err::<Json, YahooError>(YahooError::InvalidJson),
        spec_extract_store(h) == Err::<Json, YahooError>(YahooError::InvalidJson),
{
}

} // verus!
