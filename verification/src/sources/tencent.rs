//! Provider B, named `providerB`: one line per stock, of the form
//! `v_sh600519="1~name~600519~price~prev_close~...";`.

use vstd::prelude::*;
use vstd::string::StringExecFns;
use vstd::string::StrSliceExecFns;
use crate::amount::{amount_of, parse_amount};
use crate::models::{quote_in, quotes_of, PriceUpdate, Quote};
use crate::sources::{
    all_well_formed,
    batch_ids,
    batch_result,
    collect_batch,
    join_ids,
    key_market,
    key_range,
    line_key,
    line_payload,
    make_update,
    market_of_key,
    payload_range,
    quote_of,
    requests_of,
    result_view,
    well_formed,
    FetchError,
    HttpRequest,
    LineFormat,
    Request,
};
use crate::text::{split, split_ranges, to_chars};

verus! {

/// Least number of fields in a payload.
pub const MIN_FIELDS: usize = 33;

/// Index of the field that holds the day's high.
pub const HIGH_FIELD: usize = 33;

/// Index of the field that holds the day's low.
pub const LOW_FIELD: usize = 34;

/// The amount in field `index`, or `fallback` when the payload has no such
/// field or the field is not a numeral.
pub open spec fn amount_or(fields: Seq<Seq<char>>, index: int, fallback: int) -> int {
    if 0 <= index < fields.len() {
        match amount_of(fields[index]) {
            Some(v) => v,
            None => fallback,
        }
    } else {
        fallback
    }
}

/// The quote that a line yields.
///
/// The key after `v_` is the stock's id and names the market. The payload
/// holds at least `MIN_FIELDS` tilde-separated fields, among them the name at
/// 1, the code at 2, the price at 3 and the previous close at 4; price and
/// previous close must be tradable numerals. High and low stand at
/// `HIGH_FIELD` and `LOW_FIELD` and default to the price.
pub open spec fn tencent_quote(line: Seq<char>, timestamp: u64) -> Option<Quote> {
    match (line_key(line, "v_"@), line_payload(line)) {
        (Some(id), Some(payload)) => {
            let fields = split(payload, '~');
            if fields.len() >= MIN_FIELDS {
                match (amount_of(fields[3]), amount_of(fields[4])) {
                    (Some(price), Some(prev_close)) => quote_of(
                        id,
                        fields[2],
                        market_of_key(id),
                        fields[1],
                        price,
                        prev_close,
                        amount_or(fields, HIGH_FIELD as int, price),
                        amount_or(fields, LOW_FIELD as int, price),
                        timestamp,
                        "providerB"@,
                    ),
                    _ => None,
                }
            } else {
                None
            }
        },
        _ => None,
    }
}

/// A line yields a quote only where the price and the previous close it
/// states are above zero; the quote carries both as stated.
pub proof fn lemma_tencent_quote_from_positive_amounts(line: Seq<char>, timestamp: u64)
    ensures
        tencent_quote(line, timestamp) matches Some(q) ==> {
            let fields = split(line_payload(line)->0, '~');
            &&& amount_of(fields[3]) == Some(q.price)
            &&& amount_of(fields[4]) == Some(q.prev_close)
            &&& q.price > 0
            &&& q.prev_close > 0
            &&& well_formed(q)
        },
{
}

/// The requests that fetch a batch: none for an empty batch, else one that
/// lists every id.
pub open spec fn tencent_requests(stocks: Seq<(String, String)>) -> Seq<Request> {
    if stocks.len() == 0 {
        Seq::empty()
    } else {
        seq![Request { url: "http://qt.gtimg.cn/q="@ + batch_ids(stocks), referer: None }]
    }
}

/// The adapter for `providerB`.
#[derive(Debug, Clone, Copy, PartialEq, Eq, Structural)]
pub struct TencentSource {}

impl TencentSource {
    /// The adapter. It holds nothing: requests are sent by the caller.
    pub fn new() -> (source: Self)
        ensures
            source == (TencentSource {}),
    {
        TencentSource {}
    }

    /// The provider's stable name.
    pub fn name(&self) -> (name: &'static str)
        ensures
            name@ == "providerB"@,
    {
        "providerB"
    }

    /// Describes the requests that fetch a batch.
    pub fn requests(&self, stocks: &[(String, String)]) -> (requests: Vec<HttpRequest>)
        ensures
            requests_of(requests@) == tencent_requests(stocks@),
    {
        let mut requests: Vec<HttpRequest> = Vec::new();
        if stocks.len() > 0 {
            let ids = join_ids(stocks);
            requests.push(
                HttpRequest {
                    url: String::from_str("http://qt.gtimg.cn/q=").concat(ids.as_str()),
                    referer: None,
                },
            );
        }
        requests
    }

    /// Draws the quotes of a batch from the reply to its request.
    pub fn collect(
        &self,
        stocks: &[(String, String)],
        replies: &Vec<Result<String, String>>,
        timestamp: u64,
    ) -> (r: Result<Vec<PriceUpdate>, FetchError>)
        requires
            stocks@.len() > 0 ==> replies@.len() == 1,
        ensures
            result_view(r) == batch_result(LineFormat::Tencent, "providerB"@, stocks@, replies@, timestamp),
            r matches Ok(updates) ==> all_well_formed(quotes_of(updates@)),
    {
        collect_batch(LineFormat::Tencent, "providerB", stocks, replies, timestamp)
    }
}

/// Reads the amount in field `index`, or `fallback` when there is none.
fn field_amount_or(
    line: &Vec<char>,
    fields: &Vec<(usize, usize)>,
    index: usize,
    fallback: i64,
    Ghost(pieces): Ghost<Seq<Seq<char>>>,
) -> (r: i64)
    requires
        fields@.len() == pieces.len(),
        forall|k: int|
            0 <= k < fields@.len() ==> (#[trigger] fields@[k]).0 <= fields@[k].1 <= line.len()
                && line@.subrange(fields@[k].0 as int, fields@[k].1 as int) == pieces[k],
    ensures
        r == amount_or(pieces, index as int, fallback as int),
{
    if index < fields.len() {
        match parse_amount(line, fields[index].0, fields[index].1) {
            Some(v) => v,
            None => fallback,
        }
    } else {
        fallback
    }
}

/// Parses one line of a response.
pub fn parse_tencent_line(line: &str, timestamp: u64) -> (r: Option<PriceUpdate>)
    ensures
        quote_in(r) == tencent_quote(line@, timestamp),
        r matches Some(u) ==> well_formed(u@),
{
    let chars = to_chars(line);
    let (id_from, id_to) = match key_range(&chars, "v_") {
        Some(range) => range,
        None => {
            return None;
        },
    };
    let (from, to) = match payload_range(&chars) {
        Some(range) => range,
        None => {
            return None;
        },
    };
    let fields = split_ranges(&chars, from, to, '~');
    if fields.len() < MIN_FIELDS {
        return None;
    }
    let ghost pieces = split(chars@.subrange(from as int, to as int), '~');
    let price = parse_amount(&chars, fields[3].0, fields[3].1);
    let prev_close = parse_amount(&chars, fields[4].0, fields[4].1);
    match (price, prev_close) {
        (Some(price), Some(prev_close)) => {
            let high = field_amount_or(&chars, &fields, HIGH_FIELD, price, Ghost(pieces));
            let low = field_amount_or(&chars, &fields, LOW_FIELD, price, Ghost(pieces));
            make_update(
                String::from_str(line.substring_char(id_from, id_to)),
                String::from_str(line.substring_char(fields[2].0, fields[2].1)),
                String::from_str(key_market(&chars, id_from, id_to)),
                String::from_str(line.substring_char(fields[1].0, fields[1].1)),
                price,
                prev_close,
                high,
                low,
                timestamp,
                "providerB",
            )
        },
        _ => None,
    }
}

} // verus!
