use vstd::prelude::*;

verus! {

/// A quoted price, held as the IEEE 754 binary64 encoding of the number.
#[derive(Clone, Copy, Debug, PartialEq, Eq, Structural)]
pub struct Price {
    pub bits: u64,
}

/// The `meta` object of a chart result.
#[derive(Clone, Copy, Debug, PartialEq, Eq, Structural)]
pub struct Meta {
    /// `regularMarketPrice`; `None` where the field is absent or null.
    pub regular_market_price: Option<Price>,
}

/// One element of the chart's `result` list.
#[derive(Clone, Copy, Debug, PartialEq, Eq, Structural)]
pub struct ChartResult {
    pub meta: Meta,
}

/// The `chart` object of a quote payload.
#[derive(Clone, Debug)]
pub struct Chart {
    /// `result`; `None` where the field is absent or null.
    pub result: Option<Vec<ChartResult>>,
}

/// A decoded quote payload: `{"chart": {"result": [{"meta": {"regularMarketPrice": ..}}]}}`.
#[derive(Clone, Debug)]
pub struct QuoteResponse {
    pub chart: Chart,
}

/// Why a quote could not be had.
#[derive(Clone, Debug)]
pub enum FetchError {
    /// The request failed in transport; holds the transport's description.
    Request(String),
    /// The response body could not be read as text.
    Body(String),
    /// The body is not JSON of the expected shape.
    Json(String),
    /// The payload decoded but holds no price: the result list is absent or
    /// empty, or the first result's price is absent or null.
    MissingPrice,
}

/// The price that a payload quotes: that of the first chart result, if any.
pub open spec fn quoted_price(resp: QuoteResponse) -> Option<Price> {
    match resp.chart.result {
        Some(results) => if results@.len() > 0 {
            results@[0].meta.regular_market_price
        } else {
            None
        },
        None => None,
    }
}

/// The text by which an error is reported.
pub open spec fn message_of(e: FetchError) -> Seq<char> {
    match e {
        FetchError::Request(d) => "Request failed: "@ + d@,
        FetchError::Body(d) => "Failed to read response body: "@ + d@,
        FetchError::Json(d) => "Failed to parse JSON: "@ + d@,
        FetchError::MissingPrice => "Failed to parse price data"@,
    }
}

impl FetchError {
    pub fn message(&self) -> (r: String)
        ensures
            r@ == message_of(*self),
    {
        match self {
            FetchError::Request(d) => {
                let mut r = String::from_str("Request failed: ");
                r.append(d.as_str());
                r
            },
            FetchError::Body(d) => {
                let mut r = String::from_str("Failed to read response body: ");
                r.append(d.as_str());
                r
            },
            FetchError::Json(d) => {
                let mut r = String::from_str("Failed to parse JSON: ");
                r.append(d.as_str());
                r
            },
            FetchError::MissingPrice => String::from_str("Failed to parse price data"),
        }
    }
}

/// Takes the price out of a decoded payload. All the ways in which it can be
/// missing give the one `MissingPrice` error.
pub fn extract_price(resp: &QuoteResponse) -> (r: Result<Price, FetchError>)
    ensures
        match quoted_price(*resp) {
            Some(p) => r == Ok::<Price, FetchError>(p),
            None => r matches Err(FetchError::MissingPrice),
        },
{
    match &resp.chart.result {
        Some(results) => if results.len() > 0 {
            match results[0].meta.regular_market_price {
                Some(p) => Ok(p),
                None => Err(FetchError::MissingPrice),
            }
        } else {
            Err(FetchError::MissingPrice)
        },
        None => Err(FetchError::MissingPrice),
    }
}

/// A payload that is not JSON of the expected shape is reported in words
/// that differ from those for a payload without a price.
pub proof fn lemma_parse_message_differs_from_missing_price(e: FetchError)
    requires
        e is Json,
    ensures
        message_of(e) != message_of(FetchError::MissingPrice),
{
    reveal_strlit("Failed to parse JSON: ");
    reveal_strlit("Failed to parse price data");
    assert(message_of(e)[16] == 'J');
    assert(message_of(FetchError::MissingPrice)[16] == 'p');
}

} // verus!
