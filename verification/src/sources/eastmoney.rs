//! Provider C, named `providerC`: one JSON document per stock, whose `data`
//! object holds money fields in hundredths of a currency unit.

use vstd::prelude::*;
use vstd::string::StringExecFns;
use crate::amount::{is_amount, AMOUNT_LIMIT, SCALE};
use crate::json::{json_document, parse_json, JsonValue};
use crate::models::{quote_in, quotes_of, PriceUpdate, Quote};
use crate::sources::{
    all_well_formed,
    make_update,
    present,
    quote_of,
    requests_of,
    result_view,
    well_formed,
    Failure,
    FetchError,
    HttpRequest,
    Request,
};
use crate::text::same_text;

verus! {

/// Number of amount units in one hundredth of a currency unit.
pub const UNITS_PER_CENT: i64 = 100;

/// The provider's identifier for a stock: `0.` and the code for the market
/// `sz`, `1.` and the code for any other market.
pub open spec fn secid_of(market: Seq<char>, code: Seq<char>) -> Seq<char> {
    if market == "sz"@ {
        "0."@ + code
    } else {
        "1."@ + code
    }
}

/// The address that serves the quote of one stock.
pub open spec fn quote_url(market: Seq<char>, code: Seq<char>) -> Seq<char> {
    "http://push2.eastmoney.com/api/qt/stock/get?secid="@ + secid_of(market, code)
        + "&fields=f43,f44,f45,f46,f57,f58,f60,f170"@
}

/// The requests that fetch a batch: one for each stock, in order.
pub open spec fn eastmoney_requests(stocks: Seq<(String, String)>) -> Seq<Request> {
    Seq::new(
        stocks.len(),
        |i: int| Request { url: quote_url(stocks[i].0@, stocks[i].1@), referer: None },
    )
}

/// The hundredths that a money field holds: the member's integer, or zero
/// where the member is missing or not an integer.
pub open spec fn cents_in(data: JsonValue, key: Seq<char>) -> int {
    match data.spec_member(key) {
        Some(v) => match v.spec_integer() {
            Some(cents) => cents,
            None => 0,
        },
        None => 0,
    }
}

/// The amount that a money field holds, or `None` where it is out of range.
pub open spec fn money_in(data: JsonValue, key: Seq<char>) -> Option<int> {
    if is_amount(cents_in(data, key) * UNITS_PER_CENT) {
        Some(cents_in(data, key) * UNITS_PER_CENT)
    } else {
        None
    }
}

/// The text that a member holds, empty where it is missing or not a string.
pub open spec fn text_in(data: JsonValue, key: Seq<char>) -> Seq<char> {
    match data.spec_member(key) {
        Some(v) => match v.spec_text() {
            Some(s) => s,
            None => Seq::empty(),
        },
        None => Seq::empty(),
    }
}

/// The quote that a document yields for the stock that was asked for.
///
/// The document must hold an object under `data`. Its members `f43`, `f44`,
/// `f45` and `f60` give price, high, low and previous close in hundredths,
/// `f58` gives the name. All four amounts must be in range, and price and
/// previous close must be tradable.
pub open spec fn eastmoney_quote(
    doc: JsonValue,
    market: Seq<char>,
    code: Seq<char>,
    timestamp: u64,
) -> Option<Quote> {
    match doc.spec_member("data"@) {
        Some(data) => if data is Object {
            match (
                money_in(data, "f43"@),
                money_in(data, "f44"@),
                money_in(data, "f45"@),
                money_in(data, "f60"@),
            ) {
                (Some(price), Some(high), Some(low), Some(prev_close)) => quote_of(
                    market + code,
                    code,
                    market,
                    text_in(data, "f58"@),
                    price,
                    prev_close,
                    high,
                    low,
                    timestamp,
                    "providerC"@,
                ),
                _ => None,
            }
        } else {
            None
        },
        None => None,
    }
}

/// The quote that a response body yields: that of the document it decodes
/// to, none where it is not a JSON document.
pub open spec fn body_quote(
    body: Seq<char>,
    market: Seq<char>,
    code: Seq<char>,
    timestamp: u64,
) -> Option<Quote> {
    match json_document(body) {
        Some(doc) => eastmoney_quote(doc, market, code, timestamp),
        None => None,
    }
}

/// The quote that the reply for one stock yields; a failed request yields
/// none.
pub open spec fn reply_quote(
    stock: (String, String),
    reply: Result<String, String>,
    timestamp: u64,
) -> Option<Quote> {
    match reply {
        Ok(body) => body_quote(body@, stock.0@, stock.1@, timestamp),
        Err(_) => None,
    }
}

/// The quotes that the replies for a batch yield, in the order of the batch.
pub open spec fn batch_quotes(
    stocks: Seq<(String, String)>,
    replies: Seq<Result<String, String>>,
    timestamp: u64,
) -> Seq<Quote> {
    present(Seq::new(stocks.len(), |i: int| reply_quote(stocks[i], replies[i], timestamp)))
}

/// Why the reply for a stock yields no quote, as mathematical values.
pub enum Gap {
    RequestFailed(Seq<char>),
    NotJson,
    NoData,
    OutOfRange,
    NotTradable,
}

/// Why a document that yields no quote yields none: it holds no object
/// under `data`, or one of the four amounts is out of range, or price and
/// previous close are not both above zero.
pub open spec fn document_gap(doc: JsonValue) -> Gap {
    match doc.spec_member("data"@) {
        Some(data) => if data is Object {
            if money_in(data, "f43"@) is Some && money_in(data, "f44"@) is Some && money_in(
                data,
                "f45"@,
            ) is Some && money_in(data, "f60"@) is Some {
                Gap::NotTradable
            } else {
                Gap::OutOfRange
            }
        } else {
            Gap::NoData
        },
        None => Gap::NoData,
    }
}

/// What the reply for one stock yields: the quote, or why there is none. A
/// failed request is reported with the transport's words; a body that is not
/// a JSON document is told apart from a document without a quote.
pub open spec fn reply_outcome(
    reply: Result<String, String>,
    market: Seq<char>,
    code: Seq<char>,
    timestamp: u64,
) -> Result<Quote, Gap> {
    match reply {
        Ok(body) => match json_document(body@) {
            Some(doc) => match eastmoney_quote(doc, market, code, timestamp) {
                Some(q) => Ok(q),
                None => Err(document_gap(doc)),
            },
            None => Err(Gap::NotJson),
        },
        Err(cause) => Err(Gap::RequestFailed(cause@)),
    }
}

/// The quote of a stock is there exactly where the outcome of its reply is
/// a quote, and it is that quote.
pub proof fn lemma_outcome_holds_the_quote(
    stock: (String, String),
    reply: Result<String, String>,
    timestamp: u64,
)
    ensures
        reply_quote(stock, reply, timestamp) == match reply_outcome(
            reply,
            stock.0@,
            stock.1@,
            timestamp,
        ) {
            Ok(q) => Some(q),
            Err(_) => None::<Quote>,
        },
{
}

/// A document that yields no quote for want of a tradable price states a
/// price or a previous close that is not above zero.
pub proof fn lemma_not_tradable_means_not_positive(
    doc: JsonValue,
    market: Seq<char>,
    code: Seq<char>,
    timestamp: u64,
)
    ensures
        eastmoney_quote(doc, market, code, timestamp) is None && document_gap(doc)
            is NotTradable ==> {
            let data = doc.spec_member("data"@)->0;
            cents_in(data, "f43"@) <= 0 || cents_in(data, "f60"@) <= 0
        },
{
}

/// Every money field of a quote is the integer the provider sent, divided by
/// one hundred: the amount, which counts `SCALE` units to the currency unit,
/// times one hundred equals that integer times `SCALE`.
pub proof fn lemma_money_is_cents_over_hundred(
    doc: JsonValue,
    market: Seq<char>,
    code: Seq<char>,
    timestamp: u64,
)
    ensures
        eastmoney_quote(doc, market, code, timestamp) matches Some(q) ==> {
            let data = doc.spec_member("data"@)->0;
            &&& q.price * 100 == cents_in(data, "f43"@) * SCALE
            &&& q.high * 100 == cents_in(data, "f44"@) * SCALE
            &&& q.low * 100 == cents_in(data, "f45"@) * SCALE
            &&& q.prev_close * 100 == cents_in(data, "f60"@) * SCALE
        },
{
}

/// A document yields a quote only where the price and the previous close it
/// states are above zero.
pub proof fn lemma_eastmoney_quote_from_positive_amounts(
    doc: JsonValue,
    market: Seq<char>,
    code: Seq<char>,
    timestamp: u64,
)
    ensures
        eastmoney_quote(doc, market, code, timestamp) matches Some(q) ==> {
            let data = doc.spec_member("data"@)->0;
            &&& cents_in(data, "f43"@) > 0
            &&& cents_in(data, "f60"@) > 0
            &&& q.price > 0
            &&& q.prev_close > 0
            &&& well_formed(q)
        },
{
}

/// Writes the provider's identifier for a stock.
pub fn to_secid(market: &str, code: &str) -> (secid: String)
    ensures
        secid@ == secid_of(market@, code@),
{
    if same_text(market, "sz") {
        String::from_str("0.").concat(code)
    } else {
        String::from_str("1.").concat(code)
    }
}

/// Reads a money field of the `data` object.
fn read_money(data: &JsonValue, key: &str) -> (r: Option<i64>)
    ensures
        match r {
            Some(v) => money_in(*data, key@) == Some(v as int),
            None => money_in(*data, key@) is None,
        },
{
    let cents: i64 = match data.member(key) {
        Some(v) => match v.as_integer() {
            Some(cents) => cents,
            None => 0,
        },
        None => 0,
    };
    if -(AMOUNT_LIMIT / UNITS_PER_CENT) < cents && cents < AMOUNT_LIMIT / UNITS_PER_CENT {
        Some(cents * UNITS_PER_CENT)
    } else {
        None
    }
}

/// Reads a text member of the `data` object.
fn read_text(data: &JsonValue, key: &str) -> (r: String)
    ensures
        r@ == text_in(*data, key@),
{
    match data.member(key) {
        Some(v) => match v.as_text() {
            Some(s) => String::from_str(s),
            None => {
                proof {
                    reveal_strlit("");
                }
                String::from_str("")
            },
        },
        None => {
            proof {
                reveal_strlit("");
            }
            String::from_str("")
        },
    }
}

/// Builds the quote of one stock from a decoded document.
pub fn quote_from_document(doc: &JsonValue, market: &str, code: &str, timestamp: u64) -> (r: Option<
    PriceUpdate,
>)
    ensures
        quote_in(r) == eastmoney_quote(*doc, market@, code@, timestamp),
        r matches Some(u) ==> well_formed(u@),
{
    let data = match doc.member("data") {
        Some(data) => data,
        None => {
            return None;
        },
    };
    if !data.is_object() {
        return None;
    }
    let price = read_money(data, "f43");
    let high = read_money(data, "f44");
    let low = read_money(data, "f45");
    let prev_close = read_money(data, "f60");
    match (price, high, low, prev_close) {
        (Some(price), Some(high), Some(low), Some(prev_close)) => make_update(
            String::from_str(market).concat(code),
            String::from_str(code),
            String::from_str(market),
            read_text(data, "f58"),
            price,
            prev_close,
            high,
            low,
            timestamp,
            "providerC",
        ),
        _ => None,
    }
}

/// Builds the quote of one stock from a response body. A body that is not a
/// JSON document yields no quote.
pub fn parse_quote(body: &str, market: &str, code: &str, timestamp: u64) -> (r: Option<PriceUpdate>)
    ensures
        quote_in(r) == body_quote(body@, market@, code@, timestamp),
        r matches Some(u) ==> well_formed(u@),
{
    match parse_json(body) {
        Ok(doc) => quote_from_document(&doc, market, code, timestamp),
        Err(_) => None,
    }
}

/// Why the reply for a stock yields no quote.
#[derive(Debug)]
pub enum NoQuote {
    /// The request failed; the transport's words are attached.
    RequestFailed(String),
    /// The body is not a JSON document.
    NotJson,
    /// The document holds no object under `data`.
    NoData,
    /// One of the four amounts is out of range.
    OutOfRange,
    /// Price and previous close are not both above zero.
    NotTradable,
}

impl View for NoQuote {
    type V = Gap;

    open spec fn view(&self) -> Gap {
        match self {
            NoQuote::RequestFailed(cause) => Gap::RequestFailed(cause@),
            NoQuote::NotJson => Gap::NotJson,
            NoQuote::NoData => Gap::NoData,
            NoQuote::OutOfRange => Gap::OutOfRange,
            NoQuote::NotTradable => Gap::NotTradable,
        }
    }
}

/// What the outcome for one stock holds, as mathematical values.
pub open spec fn outcome_view(r: Result<PriceUpdate, NoQuote>) -> Result<Quote, Gap> {
    match r {
        Ok(update) => Ok(update@),
        Err(gap) => Err(gap@),
    }
}

/// Says why a document that yields no quote yields none.
pub fn explain_document(doc: &JsonValue) -> (gap: NoQuote)
    ensures
        gap@ == document_gap(*doc),
{
    let data = match doc.member("data") {
        Some(data) => data,
        None => {
            return NoQuote::NoData;
        },
    };
    if !data.is_object() {
        return NoQuote::NoData;
    }
    if read_money(data, "f43").is_some() && read_money(data, "f44").is_some() && read_money(
        data,
        "f45",
    ).is_some() && read_money(data, "f60").is_some() {
        NoQuote::NotTradable
    } else {
        NoQuote::OutOfRange
    }
}

/// Reads the reply for one stock: the quote, or why there is none.
pub fn read_reply(reply: &Result<String, String>, market: &str, code: &str, timestamp: u64) -> (r:
    Result<PriceUpdate, NoQuote>)
    ensures
        outcome_view(r) == reply_outcome(*reply, market@, code@, timestamp),
        r matches Ok(u) ==> well_formed(u@),
{
    match reply {
        Ok(body) => match parse_json(body.as_str()) {
            Ok(doc) => match quote_from_document(&doc, market, code, timestamp) {
                Some(update) => Ok(update),
                None => Err(explain_document(&doc)),
            },
            Err(_) => Err(NoQuote::NotJson),
        },
        Err(cause) => Err(NoQuote::RequestFailed(cause.clone())),
    }
}

/// The adapter for `providerC`.
#[derive(Debug, Clone, Copy, PartialEq, Eq, Structural)]
pub struct EastmoneySource {}

impl EastmoneySource {
    /// The adapter. It holds nothing: requests are sent by the caller.
    pub fn new() -> (source: Self)
        ensures
            source == (EastmoneySource {}),
    {
        EastmoneySource {}
    }

    /// The provider's stable name.
    pub fn name(&self) -> (name: &'static str)
        ensures
            name@ == "providerC"@,
    {
        "providerC"
    }

    /// Describes the requests that fetch a batch.
    pub fn requests(&self, stocks: &[(String, String)]) -> (requests: Vec<HttpRequest>)
        ensures
            requests_of(requests@) == eastmoney_requests(stocks@),
    {
        let mut requests: Vec<HttpRequest> = Vec::new();
        let mut i: usize = 0;
        while i < stocks.len()
            invariant
                i <= stocks.len(),
                requests@.len() == i,
                forall|j: int|
                    0 <= j < i ==> (#[trigger] requests@[j])@ == eastmoney_requests(stocks@)[j],
            decreases stocks.len() - i,
        {
            let secid = to_secid(stocks[i].0.as_str(), stocks[i].1.as_str());
            let url = String::from_str("http://push2.eastmoney.com/api/qt/stock/get?secid=").concat(
                secid.as_str(),
            ).concat("&fields=f43,f44,f45,f46,f57,f58,f60,f170");
            requests.push(HttpRequest { url, referer: None });
            i += 1;
        }
        requests
    }

    /// Draws the quotes of a batch from the replies to its requests, one
    /// reply per stock. A stock whose request failed, or whose reply yields
    /// no quote, is left out; the batch as a whole never fails.
    pub fn collect(
        &self,
        stocks: &[(String, String)],
        replies: &Vec<Result<String, String>>,
        timestamp: u64,
    ) -> (r: Result<Vec<PriceUpdate>, FetchError>)
        requires
            replies@.len() == stocks@.len(),
        ensures
            result_view(r) == Ok::<Seq<Quote>, Failure>(batch_quotes(stocks@, replies@, timestamp)),
            r matches Ok(updates) ==> all_well_formed(quotes_of(updates@)),
    {
        let ghost each = |i: int| reply_quote(stocks@[i], replies@[i], timestamp);
        let mut out: Vec<PriceUpdate> = Vec::new();
        let mut i: usize = 0;
        while i < stocks.len()
            invariant
                i <= stocks.len(),
                replies@.len() == stocks@.len(),
                each == |i: int| reply_quote(stocks@[i], replies@[i], timestamp),
                quotes_of(out@) == present(Seq::new(i as nat, each)),
                forall|j: int| 0 <= j < out@.len() ==> well_formed(#[trigger] out@[j]@),
            decreases stocks.len() - i,
        {
            let parsed = match &replies[i] {
                Ok(body) => parse_quote(
                    body.as_str(),
                    stocks[i].0.as_str(),
                    stocks[i].1.as_str(),
                    timestamp,
                ),
                Err(_) => None,
            };
            proof {
                let after = Seq::new((i + 1) as nat, each);
                assert(after.drop_last() =~= Seq::new(i as nat, each));
            }
            match parsed {
                Some(update) => {
                    out.push(update);
                },
                None => {},
            }
            i += 1;
        }
        Ok(out)
    }

    /// Says for each stock of a batch what its reply yields: the quote, or
    /// why there is none. `collect` keeps the quotes and passes over the
    /// rest; this is for the caller who wants to tell what was passed over.
    pub fn report(
        &self,
        stocks: &[(String, String)],
        replies: &Vec<Result<String, String>>,
        timestamp: u64,
    ) -> (report: Vec<Result<PriceUpdate, NoQuote>>)
        requires
            replies@.len() == stocks@.len(),
        ensures
            report@.len() == stocks@.len(),
            forall|i: int|
                0 <= i < report@.len() ==> outcome_view(#[trigger] report@[i]) == reply_outcome(
                    replies@[i],
                    stocks@[i].0@,
                    stocks@[i].1@,
                    timestamp,
                ),
    {
        let mut report: Vec<Result<PriceUpdate, NoQuote>> = Vec::new();
        let mut i: usize = 0;
        while i < stocks.len()
            invariant
                i <= stocks.len(),
                replies@.len() == stocks@.len(),
                report@.len() == i,
                forall|j: int|
                    0 <= j < i ==> outcome_view(#[trigger] report@[j]) == reply_outcome(
                        replies@[j],
                        stocks@[j].0@,
                        stocks@[j].1@,
                        timestamp,
                    ),
            decreases stocks.len() - i,
        {
            report.push(
                read_reply(&replies[i], stocks[i].0.as_str(), stocks[i].1.as_str(), timestamp),
            );
            i += 1;
        }
        report
    }
}

} // verus!
