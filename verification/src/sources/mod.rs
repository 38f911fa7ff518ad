//! Quote providers: what to request from each and how to read what comes
//! back. Nothing here performs a request; the caller sends what these
//! functions describe and hands the replies back.

pub mod eastmoney;
pub mod sina;
pub mod tencent;

use vstd::prelude::*;
use vstd::string::StringExecFns;
use vstd::string::StrSliceExecFns;
use crate::amount::{ratio, ratio_of, AMOUNT_LIMIT};
use crate::models::{quote_in, quotes_of, PriceUpdate, Quote};
use crate::sources::eastmoney::{batch_quotes, eastmoney_requests, EastmoneySource};
use crate::sources::sina::{sina_requests, SinaSource};
use crate::sources::tencent::{tencent_requests, TencentSource};
use crate::text::{find, find_char, find_str, rfind_char, same_text, split, split_ranges, to_chars};

verus! {

/// The market a bare exchange code belongs to: codes that begin with `0` or
/// `3` trade in `sz`, all others in `sh`.
pub open spec fn market_for_code(code: Seq<char>) -> Seq<char> {
    if code.len() > 0 && (code[0] == '0' || code[0] == '3') {
        "sz"@
    } else {
        "sh"@
    }
}

/// Infers the market of a bare exchange code.
pub fn detect_market(code: &str) -> (market: &'static str)
    ensures
        market@ == market_for_code(code@),
{
    if code.is_empty() {
        return "sh";
    }
    let first = code.get_char(0);
    if first == '0' || first == '3' {
        "sz"
    } else {
        "sh"
    }
}

/// Forms the canonical key of a stock: its market followed by its code.
pub fn make_stock_id(market: &str, code: &str) -> (id: String)
    ensures
        id@ == market@ + code@,
{
    String::from_str(market).concat(code)
}

/// The market named by a response key: `sz` when the key begins with `sz`,
/// `sh` for every other key.
pub open spec fn market_of_key(key: Seq<char>) -> Seq<char> {
    if "sz"@.is_prefix_of(key) {
        "sz"@
    } else {
        "sh"@
    }
}

/// The key that follows the first `prefix` in a response line and runs up to
/// the next `=`.
pub open spec fn line_key(line: Seq<char>, prefix: Seq<char>) -> Option<Seq<char>> {
    match find(line, prefix) {
        Some(p) => match line.skip(p + prefix.len()).index_of_first('=') {
            Some(e) => Some(line.subrange(p + prefix.len(), p + prefix.len() + e)),
            None => None,
        },
        None => None,
    }
}

/// The text between the first and the last double quote of a response line.
/// `None` when the line has fewer than two quotes or nothing between them.
pub open spec fn line_payload(line: Seq<char>) -> Option<Seq<char>> {
    match (line.index_of_first('"'), line.index_of_last('"')) {
        (Some(a), Some(b)) => if a + 1 < b {
            Some(line.subrange(a + 1, b))
        } else {
            None
        },
        _ => None,
    }
}

/// A price and a previous close from which a quote may be built: both
/// strictly positive and representable.
pub open spec fn tradable(price: int, prev_close: int) -> bool {
    0 < price < AMOUNT_LIMIT && 0 < prev_close < AMOUNT_LIMIT
}

/// The quote built from the given parts, or `None` when price and previous
/// close are not tradable.
pub open spec fn quote_of(
    id: Seq<char>,
    code: Seq<char>,
    market: Seq<char>,
    name: Seq<char>,
    price: int,
    prev_close: int,
    high: int,
    low: int,
    timestamp: u64,
    source: Seq<char>,
) -> Option<Quote> {
    if tradable(price, prev_close) {
        Some(
            Quote {
                id,
                code,
                market,
                name,
                price,
                prev_close,
                change: price - prev_close,
                percent: ratio_of(price - prev_close, prev_close),
                high,
                low,
                timestamp: timestamp as int,
                source,
            },
        )
    } else {
        None
    }
}

/// A quote whose derived fields follow from its price and previous close,
/// both of which are tradable.
pub open spec fn well_formed(q: Quote) -> bool {
    &&& tradable(q.price, q.prev_close)
    &&& q.change == q.price - q.prev_close
    &&& q.percent == ratio_of(q.change, q.prev_close)
}

/// No quote is built from a price or a previous close of zero.
pub proof fn lemma_zero_yields_no_quote(
    id: Seq<char>,
    code: Seq<char>,
    market: Seq<char>,
    name: Seq<char>,
    price: int,
    prev_close: int,
    high: int,
    low: int,
    timestamp: u64,
    source: Seq<char>,
)
    requires
        price == 0 || prev_close == 0,
    ensures
        quote_of(id, code, market, name, price, prev_close, high, low, timestamp, source) is None,
{
}

/// Builds a quote, computing change and percent. Returns `None` when price
/// or previous close is zero, negative or out of range.
pub fn make_update(
    id: String,
    code: String,
    market: String,
    name: String,
    price: i64,
    prev_close: i64,
    high: i64,
    low: i64,
    timestamp: u64,
    source: &str,
) -> (r: Option<PriceUpdate>)
    ensures
        quote_in(r) == quote_of(
            id@,
            code@,
            market@,
            name@,
            price as int,
            prev_close as int,
            high as int,
            low as int,
            timestamp,
            source@,
        ),
        r matches Some(u) ==> well_formed(u@),
{
    if price <= 0 || price >= AMOUNT_LIMIT || prev_close <= 0 || prev_close >= AMOUNT_LIMIT {
        return None;
    }
    let change: i64 = price - prev_close;
    let percent: i64 = ratio(change, prev_close);
    Some(
        PriceUpdate {
            id,
            code,
            market,
            name,
            price,
            prev_close,
            change,
            percent,
            high,
            low,
            timestamp,
            source: String::from_str(source),
        },
    )
}

/// Locates the key of a response line: the characters that follow the first
/// `prefix` up to the next `=`.
pub fn key_range(line: &Vec<char>, prefix: &str) -> (r: Option<(usize, usize)>)
    ensures
        match r {
            Some((from, to)) => from <= to <= line.len() && line_key(line@, prefix@) == Some(
                line@.subrange(from as int, to as int),
            ),
            None => line_key(line@, prefix@) is None,
        },
{
    let pat = to_chars(prefix);
    match find_str(line, &pat) {
        None => None,
        Some(p) => {
            let from: usize = p + pat.len();
            match find_char(line, from, line.len(), '=') {
                None => None,
                Some(to) => Some((from, to)),
            }
        },
    }
}

/// Locates the payload of a response line: the characters between its first
/// and last double quote.
pub fn payload_range(line: &Vec<char>) -> (r: Option<(usize, usize)>)
    ensures
        match r {
            Some((from, to)) => from < to <= line.len() && line_payload(line@) == Some(
                line@.subrange(from as int, to as int),
            ),
            None => line_payload(line@) is None,
        },
{
    proof {
        assert(line@.subrange(0, line.len() as int) =~= line@);
    }
    let first = match find_char(line, 0, line.len(), '"') {
        Some(a) => a,
        None => {
            return None;
        },
    };
    let last = match rfind_char(line, 0, line.len(), '"') {
        Some(b) => b,
        None => {
            return None;
        },
    };
    if first + 1 < last {
        Some((first + 1, last))
    } else {
        None
    }
}

/// Names the market of the key held in `line[from..to]`.
pub fn key_market(line: &Vec<char>, from: usize, to: usize) -> (market: &'static str)
    requires
        from <= to <= line.len(),
    ensures
        market@ == market_of_key(line@.subrange(from as int, to as int)),
{
    let ghost key = line@.subrange(from as int, to as int);
    proof {
        reveal_strlit("sz");
    }
    if to - from >= 2 && line[from] == 's' && line[from + 1] == 'z' {
        "sz"
    } else {
        proof {
            if "sz"@.is_prefix_of(key) {
                assert(key[0] == key.subrange(0, 2)[0]);
                assert(key[1] == key.subrange(0, 2)[1]);
            }
        }
        "sh"
    }
}

/// A request for the caller to send: an HTTP GET of `url`, with a `Referer`
/// header where one is given.
#[derive(Debug)]
pub struct HttpRequest {
    pub url: String,
    pub referer: Option<String>,
}

/// What an `HttpRequest` holds, as mathematical values.
pub struct Request {
    pub url: Seq<char>,
    pub referer: Option<Seq<char>>,
}

impl View for HttpRequest {
    type V = Request;

    open spec fn view(&self) -> Request {
        Request {
            url: self.url@,
            referer: match self.referer {
                Some(r) => Some(r@),
                None => None,
            },
        }
    }
}

/// The requests held by a sequence of `HttpRequest`s.
pub open spec fn requests_of(requests: Seq<HttpRequest>) -> Seq<Request> {
    requests.map_values(|r: HttpRequest| r@)
}

/// A fetch that failed as a whole.
#[derive(Debug)]
pub struct FetchError {
    /// Name of the provider that was asked.
    pub source: String,
    /// What went wrong, as reported by the transport.
    pub cause: String,
}

/// What a `FetchError` holds, as mathematical values.
pub struct Failure {
    pub source: Seq<char>,
    pub cause: Seq<char>,
}

impl View for FetchError {
    type V = Failure;

    open spec fn view(&self) -> Failure {
        Failure { source: self.source@, cause: self.cause@ }
    }
}

/// What the result of a fetch holds, as mathematical values.
pub open spec fn result_view(r: Result<Vec<PriceUpdate>, FetchError>) -> Result<
    Seq<Quote>,
    Failure,
> {
    match r {
        Ok(updates) => Ok(quotes_of(updates@)),
        Err(e) => Err(e@),
    }
}

/// Every quote of a sequence is well formed.
pub open spec fn all_well_formed(quotes: Seq<Quote>) -> bool {
    forall|i: int| 0 <= i < quotes.len() ==> well_formed(#[trigger] quotes[i])
}

/// The ids of a batch of `(market, code)` pairs, separated by commas.
pub open spec fn batch_ids(stocks: Seq<(String, String)>) -> Seq<char>
    decreases stocks.len(),
{
    if stocks.len() == 0 {
        Seq::empty()
    } else if stocks.len() == 1 {
        stocks[0].0@ + stocks[0].1@
    } else {
        batch_ids(stocks.drop_last()) + seq![','] + stocks.last().0@ + stocks.last().1@
    }
}

/// Writes the ids of a batch, separated by commas.
pub fn join_ids(stocks: &[(String, String)]) -> (joined: String)
    ensures
        joined@ == batch_ids(stocks@),
{
    let mut joined = String::from_str("");
    proof {
        reveal_strlit("");
        reveal_strlit(",");
    }
    let mut i: usize = 0;
    while i < stocks.len()
        invariant
            i <= stocks.len(),
            joined@ == batch_ids(stocks@.take(i as int)),
            ","@ == seq![','],
        decreases stocks.len() - i,
    {
        proof {
            let seen = stocks@.take(i + 1);
            assert(seen.drop_last() =~= stocks@.take(i as int));
        }
        if i > 0 {
            joined.append(",");
        }
        joined.append(stocks[i].0.as_str());
        joined.append(stocks[i].1.as_str());
        i += 1;
    }
    proof {
        assert(stocks@.take(stocks@.len() as int) =~= stocks@);
    }
    joined
}

/// The result that a line-oriented provider draws from the reply to its
/// one request: the quotes in the body, or the transport's failure under the
/// provider's name. An empty batch needs no request and yields no quotes.
pub open spec fn batch_result(
    format: LineFormat,
    name: Seq<char>,
    stocks: Seq<(String, String)>,
    replies: Seq<Result<String, String>>,
    timestamp: u64,
) -> Result<Seq<Quote>, Failure> {
    if stocks.len() == 0 {
        Ok(Seq::empty())
    } else {
        match replies[0] {
            Ok(body) => Ok(body_quotes(format, body@, timestamp)),
            Err(cause) => Err(Failure { source: name, cause: cause@ }),
        }
    }
}

/// Draws the result of a line-oriented provider from the reply to its one
/// request.
pub fn collect_batch(
    format: LineFormat,
    name: &str,
    stocks: &[(String, String)],
    replies: &Vec<Result<String, String>>,
    timestamp: u64,
) -> (r: Result<Vec<PriceUpdate>, FetchError>)
    requires
        stocks@.len() > 0 ==> replies@.len() == 1,
    ensures
        result_view(r) == batch_result(format, name@, stocks@, replies@, timestamp),
        r matches Ok(updates) ==> all_well_formed(quotes_of(updates@)),
{
    if stocks.len() == 0 {
        let none: Vec<PriceUpdate> = Vec::new();
        proof {
            assert(quotes_of(none@) =~= Seq::empty());
        }
        return Ok(none);
    }
    match &replies[0] {
        Ok(body) => Ok(parse_body(format, body.as_str(), timestamp)),
        Err(cause) => Err(
            FetchError { source: String::from_str(name), cause: cause.clone() },
        ),
    }
}

/// The members of a sequence of options that are present, in order.
pub open spec fn present<T>(s: Seq<Option<T>>) -> Seq<T>
    decreases s.len(),
{
    if s.len() == 0 {
        Seq::empty()
    } else {
        match s.last() {
            Some(x) => present(s.drop_last()).push(x),
            None => present(s.drop_last()),
        }
    }
}

/// The line-oriented wire formats.
#[derive(Debug, Clone, Copy, PartialEq, Eq, Structural)]
pub enum LineFormat {
    /// Comma-separated fields, keyed by `hq_str_`.
    Sina,
    /// Tilde-separated fields, keyed by `v_`.
    Tencent,
}

/// The quote that one response line yields in the given format.
pub open spec fn line_quote(format: LineFormat, line: Seq<char>, timestamp: u64) -> Option<Quote> {
    match format {
        LineFormat::Sina => sina::sina_quote(line, timestamp),
        LineFormat::Tencent => tencent::tencent_quote(line, timestamp),
    }
}

/// The quotes that a response body yields: one for each line that parses,
/// in the order of the lines. Lines end at a line feed; a carriage return
/// before it falls outside the quoted payload and changes nothing.
pub open spec fn body_quotes(format: LineFormat, body: Seq<char>, timestamp: u64) -> Seq<Quote> {
    present(split(body, '\n').map_values(|line: Seq<char>| line_quote(format, line, timestamp)))
}

/// Every quote that a response line yields is well formed: its price and
/// previous close are above zero.
pub proof fn lemma_line_quote_well_formed(format: LineFormat, line: Seq<char>, timestamp: u64)
    ensures
        line_quote(format, line, timestamp) matches Some(q) ==> well_formed(q) && q.price > 0
            && q.prev_close > 0,
{
    sina::lemma_sina_quote_from_positive_amounts(line, timestamp);
    tencent::lemma_tencent_quote_from_positive_amounts(line, timestamp);
}

/// Parses one response line.
pub fn parse_line(format: LineFormat, line: &str, timestamp: u64) -> (r: Option<PriceUpdate>)
    ensures
        quote_in(r) == line_quote(format, line@, timestamp),
        r matches Some(u) ==> well_formed(u@),
{
    match format {
        LineFormat::Sina => sina::parse_sina_line(line, timestamp),
        LineFormat::Tencent => tencent::parse_tencent_line(line, timestamp),
    }
}

/// Parses a response body line by line. Lines that do not yield a quote are
/// skipped.
pub fn parse_body(format: LineFormat, body: &str, timestamp: u64) -> (out: Vec<PriceUpdate>)
    ensures
        quotes_of(out@) == body_quotes(format, body@, timestamp),
        all_well_formed(quotes_of(out@)),
{
    let chars = to_chars(body);
    let ranges = split_ranges(&chars, 0, chars.len(), '\n');
    let ghost lines = split(body@, '\n');
    let ghost each = |line: Seq<char>| line_quote(format, line, timestamp);
    proof {
        assert(chars@.subrange(0, chars.len() as int) =~= body@);
    }
    let mut out: Vec<PriceUpdate> = Vec::new();
    let mut k: usize = 0;
    while k < ranges.len()
        invariant
            k <= ranges.len(),
            chars@ == body@,
            lines == split(body@, '\n'),
            each == |line: Seq<char>| line_quote(format, line, timestamp),
            ranges@.len() == lines.len(),
            forall|j: int|
                0 <= j < ranges@.len() ==> (#[trigger] ranges@[j]).0 <= ranges@[j].1
                    <= chars.len() && chars@.subrange(ranges@[j].0 as int, ranges@[j].1 as int)
                    == lines[j],
            quotes_of(out@) == present(lines.take(k as int).map_values(each)),
            forall|i: int| 0 <= i < out@.len() ==> well_formed(#[trigger] out@[i]@),
        decreases ranges.len() - k,
    {
        let (from, to) = ranges[k];
        let line = body.substring_char(from, to);
        let parsed = parse_line(format, line, timestamp);
        proof {
            let before = lines.take(k as int).map_values(each);
            let after = lines.take(k + 1).map_values(each);
            assert(after.drop_last() =~= before);
        }
        match parsed {
            Some(update) => {
                out.push(update);
            },
            None => {},
        }
        k += 1;
    }
    proof {
        assert(lines.take(k as int) =~= lines);
    }
    out
}

/// A quote provider: one of the three adapters.
#[derive(Debug, Clone, Copy, PartialEq, Eq, Structural)]
pub enum DataSource {
    Sina(SinaSource),
    Tencent(TencentSource),
    Eastmoney(EastmoneySource),
}

/// The provider that a configured name stands for; `None` for a name that
/// is not recognized.
pub open spec fn source_named(name: Seq<char>) -> Option<DataSource> {
    if name == "providerA"@ {
        Some(DataSource::Sina(SinaSource {}))
    } else if name == "providerB"@ {
        Some(DataSource::Tencent(TencentSource {}))
    } else if name == "providerC"@ {
        Some(DataSource::Eastmoney(EastmoneySource {}))
    } else {
        None
    }
}

impl DataSource {
    /// The provider's stable name.
    pub open spec fn spec_name(self) -> Seq<char> {
        match self {
            DataSource::Sina(_) => "providerA"@,
            DataSource::Tencent(_) => "providerB"@,
            DataSource::Eastmoney(_) => "providerC"@,
        }
    }

    /// The requests that fetch a batch from this provider.
    pub open spec fn spec_requests(self, stocks: Seq<(String, String)>) -> Seq<Request> {
        match self {
            DataSource::Sina(_) => sina_requests(stocks),
            DataSource::Tencent(_) => tencent_requests(stocks),
            DataSource::Eastmoney(_) => eastmoney_requests(stocks),
        }
    }

    /// The result that this provider draws from the replies to its requests.
    pub open spec fn spec_collect(
        self,
        stocks: Seq<(String, String)>,
        replies: Seq<Result<String, String>>,
        timestamp: u64,
    ) -> Result<Seq<Quote>, Failure> {
        match self {
            DataSource::Sina(_) => batch_result(
                LineFormat::Sina,
                "providerA"@,
                stocks,
                replies,
                timestamp,
            ),
            DataSource::Tencent(_) => batch_result(
                LineFormat::Tencent,
                "providerB"@,
                stocks,
                replies,
                timestamp,
            ),
            DataSource::Eastmoney(_) => Ok(batch_quotes(stocks, replies, timestamp)),
        }
    }

    /// Finds the provider that a configured name stands for.
    pub fn from_name(name: &str) -> (r: Option<DataSource>)
        ensures
            r == source_named(name@),
    {
        if same_text(name, "providerA") {
            Some(DataSource::Sina(SinaSource::new()))
        } else if same_text(name, "providerB") {
            Some(DataSource::Tencent(TencentSource::new()))
        } else if same_text(name, "providerC") {
            Some(DataSource::Eastmoney(EastmoneySource::new()))
        } else {
            None
        }
    }

    /// Returns the provider's stable name.
    pub fn name(&self) -> (name: &'static str)
        ensures
            name@ == self.spec_name(),
    {
        match self {
            DataSource::Sina(source) => source.name(),
            DataSource::Tencent(source) => source.name(),
            DataSource::Eastmoney(source) => source.name(),
        }
    }

    /// Describes the requests that fetch a batch. An empty batch needs none.
    pub fn requests(&self, stocks: &[(String, String)]) -> (requests: Vec<HttpRequest>)
        ensures
            requests_of(requests@) == self.spec_requests(stocks@),
            stocks@.len() == 0 ==> requests@.len() == 0,
    {
        let requests = match self {
            DataSource::Sina(source) => source.requests(stocks),
            DataSource::Tencent(source) => source.requests(stocks),
            DataSource::Eastmoney(source) => source.requests(stocks),
        };
        proof {
            assert(requests_of(requests@).len() == requests@.len());
        }
        requests
    }

    /// Draws the result of a fetch from the replies to its requests, one
    /// reply per request and in the same order. An empty batch yields no
    /// quotes.
    pub fn collect(
        &self,
        stocks: &[(String, String)],
        replies: &Vec<Result<String, String>>,
        timestamp: u64,
    ) -> (r: Result<Vec<PriceUpdate>, FetchError>)
        requires
            replies@.len() == self.spec_requests(stocks@).len(),
        ensures
            result_view(r) == self.spec_collect(stocks@, replies@, timestamp),
            r matches Ok(updates) ==> all_well_formed(quotes_of(updates@)),
            stocks@.len() == 0 ==> (r matches Ok(updates) && updates@.len() == 0),
    {
        let r = match self {
            DataSource::Sina(source) => source.collect(stocks, replies, timestamp),
            DataSource::Tencent(source) => source.collect(stocks, replies, timestamp),
            DataSource::Eastmoney(source) => source.collect(stocks, replies, timestamp),
        };
        proof {
            if stocks@.len() == 0 {
                assert(r matches Ok(updates) && quotes_of(updates@).len() == updates@.len());
            }
        }
        r
    }
}

} // verus!
