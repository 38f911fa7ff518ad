//! Provider A, named `providerA`: one line per stock, of the form
//! `var hq_str_sh600519="name,open,prev_close,price,high,low,...";`.

use vstd::prelude::*;
use vstd::string::StringExecFns;
use vstd::string::StrSliceExecFns;
use crate::amount::{amount_of, parse_amount};
use crate::models::{quote_in, quotes_of, PriceUpdate, Quote};
use crate::sources::{
    all_well_formed,
    batch_ids,
    batch_result,
    collect_batch,
    join_ids,
    key_market,
    key_range,
    line_key,
    line_payload,
    make_update,
    market_of_key,
    payload_range,
    quote_of,
    requests_of,
    result_view,
    well_formed,
    FetchError,
    HttpRequest,
    LineFormat,
    Request,
};
use crate::text::{split, split_ranges, to_chars};

verus! {

/// The quote that a line yields.
///
/// The key after `hq_str_` is the stock's id; its first two characters name
/// the market and the rest is the code. The payload holds at least six
/// comma-separated fields: name, open, previous close, price, high and low.
/// All five numbers must be numerals, and price and previous close must be
/// tradable.
pub open spec fn sina_quote(line: Seq<char>, timestamp: u64) -> Option<Quote> {
    match (line_key(line, "hq_str_"@), line_payload(line)) {
        (Some(id), Some(payload)) => {
            let fields = split(payload, ',');
            if id.len() >= 2 && fields.len() >= 6 {
                match (
                    amount_of(fields[1]),
                    amount_of(fields[2]),
                    amount_of(fields[3]),
                    amount_of(fields[4]),
                    amount_of(fields[5]),
                ) {
                    (Some(_open), Some(prev_close), Some(price), Some(high), Some(low)) => quote_of(
                        id,
                        id.skip(2),
                        market_of_key(id),
                        fields[0],
                        price,
                        prev_close,
                        high,
                        low,
                        timestamp,
                        "providerA"@,
                    ),
                    _ => None,
                }
            } else {
                None
            }
        },
        _ => None,
    }
}

/// A line yields a quote only where the price and the previous close it
/// states are above zero; the quote carries both as stated.
pub proof fn lemma_sina_quote_from_positive_amounts(line: Seq<char>, timestamp: u64)
    ensures
        sina_quote(line, timestamp) matches Some(q) ==> {
            let fields = split(line_payload(line)->0, ',');
            &&& amount_of(fields[3]) == Some(q.price)
            &&& amount_of(fields[2]) == Some(q.prev_close)
            &&& q.price > 0
            &&& q.prev_close > 0
            &&& well_formed(q)
        },
{
}

/// The requests that fetch a batch: none for an empty batch, else one that
/// lists every id.
pub open spec fn sina_requests(stocks: Seq<(String, String)>) -> Seq<Request> {
    if stocks.len() == 0 {
        Seq::empty()
    } else {
        seq![
            Request {
                url: "https://hq.sinajs.cn/list="@ + batch_ids(stocks),
                referer: Some("https://finance.sina.com.cn"@),
            },
        ]
    }
}

/// The adapter for `providerA`.
#[derive(Debug, Clone, Copy, PartialEq, Eq, Structural)]
pub struct SinaSource {}

impl SinaSource {
    /// The adapter. It holds nothing: requests are sent by the caller.
    pub fn new() -> (source: Self)
        ensures
            source == (SinaSource {}),
    {
        SinaSource {}
    }

    /// The provider's stable name.
    pub fn name(&self) -> (name: &'static str)
        ensures
            name@ == "providerA"@,
    {
        "providerA"
    }

    /// Describes the requests that fetch a batch.
    pub fn requests(&self, stocks: &[(String, String)]) -> (requests: Vec<HttpRequest>)
        ensures
            requests_of(requests@) == sina_requests(stocks@),
    {
        let mut requests: Vec<HttpRequest> = Vec::new();
        if stocks.len() > 0 {
            let ids = join_ids(stocks);
            requests.push(
                HttpRequest {
                    url: String::from_str("https://hq.sinajs.cn/list=").concat(ids.as_str()),
                    referer: Some(String::from_str("https://finance.sina.com.cn")),
                },
            );
        }
        requests
    }

    /// Draws the quotes of a batch from the reply to its request.
    pub fn collect(
        &self,
        stocks: &[(String, String)],
        replies: &Vec<Result<String, String>>,
        timestamp: u64,
    ) -> (r: Result<Vec<PriceUpdate>, FetchError>)
        requires
            stocks@.len() > 0 ==> replies@.len() == 1,
        ensures
            result_view(r) == batch_result(LineFormat::Sina, "providerA"@, stocks@, replies@, timestamp),
            r matches Ok(updates) ==> all_well_formed(quotes_of(updates@)),
    {
        collect_batch(LineFormat::Sina, "providerA", stocks, replies, timestamp)
    }
}

/// Parses one line of a response.
pub fn parse_sina_line(line: &str, timestamp: u64) -> (r: Option<PriceUpdate>)
    ensures
        quote_in(r) == sina_quote(line@, timestamp),
        r matches Some(u) ==> well_formed(u@),
{
    let chars = to_chars(line);
    let (id_from, id_to) = match key_range(&chars, "hq_str_") {
        Some(range) => range,
        None => {
            return None;
        },
    };
    let (from, to) = match payload_range(&chars) {
        Some(range) => range,
        None => {
            return None;
        },
    };
    let fields = split_ranges(&chars, from, to, ',');
    if id_to - id_from < 2 || fields.len() < 6 {
        return None;
    }
    let ghost id = chars@.subrange(id_from as int, id_to as int);
    let open = parse_amount(&chars, fields[1].0, fields[1].1);
    let prev_close = parse_amount(&chars, fields[2].0, fields[2].1);
    let price = parse_amount(&chars, fields[3].0, fields[3].1);
    let high = parse_amount(&chars, fields[4].0, fields[4].1);
    let low = parse_amount(&chars, fields[5].0, fields[5].1);
    match (open, prev_close, price, high, low) {
        (Some(_open), Some(prev_close), Some(price), Some(high), Some(low)) => {
            proof {
                assert(id.skip(2) =~= chars@.subrange(id_from + 2, id_to as int));
            }
            make_update(
                String::from_str(line.substring_char(id_from, id_to)),
                String::from_str(line.substring_char(id_from + 2, id_to)),
                String::from_str(key_market(&chars, id_from, id_to)),
                String::from_str(line.substring_char(fields[0].0, fields[0].1)),
                price,
                prev_close,
                high,
                low,
                timestamp,
                "providerA",
            )
        },
        _ => None,
    }
}

} // verus!
