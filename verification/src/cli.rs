//! Reading a quote that was given as text, on the command line or in a file.

use vstd::prelude::*;
use crate::encoding::{hex_decode, hex_decoded};
use crate::error::{ErrorView, TdxError};

verus! {

/// A quote as text in hexadecimal notation, and where the text comes from.
#[derive(Debug, Clone, PartialEq, Eq)]
pub enum QuoteText {
    /// Given on the command line; taken as it is.
    Argument(String),
    /// The contents of a file; a leading `0x` is dropped.
    File(String),
}

/// The file that holds the quote where the command line names none.
pub const DEFAULT_QUOTE_PATH: &'static str = "./data/quote.hex";

/// Where the text of a quote is to be taken from.
#[derive(Debug, Clone, PartialEq, Eq)]
pub enum QuoteSource {
    /// From the command line: this is the text.
    Argument(String),
    /// From the file at this path.
    File(String),
}

/// Where the text of a quote is taken from, by what the command line gives:
/// the text itself where it is given, whether or not a path is given too;
/// else the file at the path that is given; else the default file.
pub open spec fn source_of(path: Option<String>, hex: Option<String>, source: QuoteSource) -> bool {
    match hex {
        Some(text) => source == QuoteSource::Argument(text),
        None => match path {
            Some(p) => source == QuoteSource::File(p),
            None => source matches QuoteSource::File(p) && p@ == DEFAULT_QUOTE_PATH@,
        },
    }
}

/// `h` without the `0x` that it may begin with.
pub open spec fn without_prefix(h: Seq<char>) -> Seq<char> {
    if h.len() >= 2 && h[0] == '0' && h[1] == 'x' {
        h.skip(2)
    } else {
        h
    }
}

/// The text that is decoded for a quote given as `input`.
pub open spec fn digits_of(input: QuoteText) -> Seq<char> {
    match input {
        QuoteText::Argument(text) => text@,
        QuoteText::File(text) => without_prefix(text@),
    }
}

/// What a caller hears whose text is no hexadecimal notation of bytes.
pub open spec fn quote_text_refused() -> ErrorView {
    ErrorView::IO("Failed to read quote from the provided path"@)
}

/// Settles where the text of a quote is taken from. Text on the command
/// line goes before a path, and a path before the default file.
pub fn quote_source(path: Option<String>, hex: Option<String>) -> (source: QuoteSource)
    ensures
        source_of(path, hex, source),
{
    match hex {
        Some(text) => QuoteSource::Argument(text),
        None => match path {
            Some(p) => QuoteSource::File(p),
            None => QuoteSource::File(DEFAULT_QUOTE_PATH.to_owned()),
        },
    }
}

/// Drops the `0x` that a text in hexadecimal notation may begin with.
pub fn remove_prefix_if_found(h: &str) -> (r: &str)
    ensures
        r@ == without_prefix(h@),
{
    let n = h.unicode_len();
    if n >= 2 && h.get_char(0) == '0' && h.get_char(1) == 'x' {
        h.substring_char(2, n)
    } else {
        h
    }
}

/// Decodes the quote that was given as text.
///
/// Text from a file may begin with `0x`, which is dropped; text from the
/// command line is taken as it is. Succeeds exactly where what is left is an
/// even number of hexadecimal digits, and fails with `IO` everywhere else.
pub fn get_quote(input: &QuoteText) -> (r: Result<Vec<u8>, TdxError>)
    ensures
        match hex_decoded(digits_of(*input)) {
            Some(bytes) => r matches Ok(quote) && quote@ == bytes,
            None => r matches Err(e) && e@ == quote_text_refused(),
        },
{
    let decoded = match input {
        QuoteText::Argument(text) => hex_decode(text.as_str()),
        QuoteText::File(text) => hex_decode(remove_prefix_if_found(text.as_str())),
    };
    match decoded {
        Some(quote) => Ok(quote),
        None => Err(TdxError::IO("Failed to read quote from the provided path".to_owned())),
    }
}

} // verus!
