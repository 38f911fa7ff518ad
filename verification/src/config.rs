//! Rules on the list of watched stocks and the settings a new installation
//! starts with. Reading and writing the settings file is left to the caller.

use vstd::prelude::*;
use vstd::string::StringExecFns;
use crate::models::{texts, Stock};
use crate::sources::{detect_market, make_stock_id, market_for_code};
use crate::text::same_text;

verus! {

/// A stock that was to be added is listed already.
#[derive(Debug)]
pub struct DuplicateStock {
    /// The id that is taken.
    pub id: String,
}

impl DuplicateStock {
    /// Describes the error for the user.
    pub fn message(&self) -> (text: String)
        ensures
            text@ == "股票已在列表中: "@ + self.id@,
    {
        String::from_str("股票已在列表中: ").concat(self.id.as_str())
    }
}

/// Some stock of the list has the given id.
pub open spec fn is_listed(stocks: Seq<Stock>, id: Seq<char>) -> bool {
    exists|i: int| 0 <= i < stocks.len() && (#[trigger] stocks[i]).id@ == id
}

/// The first stock of the list with the given id.
pub open spec fn listed(stocks: Seq<Stock>, id: Seq<char>) -> Option<Stock>
    decreases stocks.len(),
{
    if stocks.len() == 0 {
        None
    } else if stocks[0].id@ == id {
        Some(stocks[0])
    } else {
        listed(stocks.drop_first(), id)
    }
}

/// The stocks that remain when every stock with the given id is taken out.
pub open spec fn without(stocks: Seq<Stock>, id: Seq<char>) -> Seq<Stock> {
    stocks.filter(|s: Stock| s.id@ != id)
}

/// The stocks named by `ids`, in the order of `ids`. An id that names no
/// stock is passed over; a stock that no id names is left out.
pub open spec fn reordered(stocks: Seq<Stock>, ids: Seq<Seq<char>>) -> Seq<Stock> {
    ids.filter_map(|id: Seq<char>| listed(stocks, id))
}

/// The stock that a bare exchange code stands for: visible, without an
/// alias, in the market that the code's first digit tells.
pub open spec fn stock_for(code: Seq<char>, stock: Stock) -> bool {
    &&& stock.code@ == code
    &&& stock.market@ == market_for_code(code)
    &&& stock.id@ == market_for_code(code) + code
    &&& stock.alias@ == ""@
    &&& stock.visible
}

/// Some stock is listed exactly where `listed` finds one.
pub proof fn lemma_listed_iff_is_listed(stocks: Seq<Stock>, id: Seq<char>)
    ensures
        listed(stocks, id) is Some <==> is_listed(stocks, id),
        listed(stocks, id) matches Some(s) ==> s.id@ == id && stocks.contains(s),
    decreases stocks.len(),
{
    if stocks.len() > 0 {
        if stocks[0].id@ != id {
            let rest = stocks.drop_first();
            lemma_listed_iff_is_listed(rest, id);
            if is_listed(stocks, id) {
                let i = choose|i: int| 0 <= i < stocks.len() && (#[trigger] stocks[i]).id@ == id;
                assert(rest[i - 1] == stocks[i]);
            }
        }
    }
}

/// Builds the stock that a bare exchange code stands for.
pub fn stock_from_code(code: &str) -> (stock: Stock)
    ensures
        stock_for(code@, stock),
{
    let market = detect_market(code);
    Stock {
        id: make_stock_id(market, code),
        code: String::from_str(code),
        market: String::from_str(market),
        alias: String::from_str(""),
        visible: true,
    }
}

/// The stocks a new installation watches.
pub fn default_stocks() -> (stocks: Vec<Stock>)
    ensures
        stocks@.len() == 1,
        stocks@[0].id@ == "sh600519"@,
        stocks@[0].code@ == "600519"@,
        stocks@[0].market@ == "sh"@,
        stocks@[0].alias@ == "茅台"@,
        stocks@[0].visible,
{
    let mut stocks: Vec<Stock> = Vec::new();
    stocks.push(
        Stock {
            id: String::from_str("sh600519"),
            code: String::from_str("600519"),
            market: String::from_str("sh"),
            alias: String::from_str("茅台"),
            visible: true,
        },
    );
    stocks
}

/// Finds the first stock with the given id.
pub fn find_stock<'a>(stocks: &'a Vec<Stock>, id: &str) -> (found: Option<&'a Stock>)
    ensures
        match found {
            Some(s) => listed(stocks@, id@) == Some(*s),
            None => listed(stocks@, id@) is None,
        },
{
    let mut i: usize = 0;
    proof {
        assert(stocks@.skip(0) =~= stocks@);
    }
    while i < stocks.len()
        invariant
            i <= stocks.len(),
            listed(stocks@, id@) == listed(stocks@.skip(i as int), id@),
        decreases stocks.len() - i,
    {
        proof {
            let rest = stocks@.skip(i as int);
            assert(rest.drop_first() =~= stocks@.skip(i + 1));
        }
        if same_text(stocks[i].id.as_str(), id) {
            return Some(&stocks[i]);
        }
        i += 1;
    }
    None
}

/// Adds a stock at the end of the list, unless one with the same id is
/// listed, in which case the list stays as it is.
pub fn add_stock(stocks: &mut Vec<Stock>, stock: Stock) -> (r: Result<(), DuplicateStock>)
    ensures
        match r {
            Ok(_) => !is_listed(old(stocks)@, stock.id@) && final(stocks)@ == old(stocks)@.push(
                stock,
            ),
            Err(e) => is_listed(old(stocks)@, stock.id@) && final(stocks)@ == old(stocks)@
                && e.id@ == stock.id@,
        },
{
    proof {
        lemma_listed_iff_is_listed(stocks@, stock.id@);
    }
    if find_stock(stocks, stock.id.as_str()).is_some() {
        return Err(DuplicateStock { id: stock.id });
    }
    stocks.push(stock);
    Ok(())
}

/// Takes every stock with the given id out of the list.
pub fn remove_stock(stocks: &mut Vec<Stock>, id: &str)
    ensures
        final(stocks)@ == without(old(stocks)@, id@),
{
    let ghost keep = |s: Stock| s.id@ != id@;
    let mut kept: Vec<Stock> = Vec::new();
    let mut i: usize = 0;
    proof {
        reveal(Seq::filter);
    }
    while i < stocks.len()
        invariant
            i <= stocks.len(),
            keep == |s: Stock| s.id@ != id@,
            kept@ == stocks@.take(i as int).filter(keep),
        decreases stocks.len() - i,
    {
        proof {
            reveal(Seq::filter);
            assert(stocks@.take(i + 1).drop_last() =~= stocks@.take(i as int));
        }
        if !same_text(stocks[i].id.as_str(), id) {
            kept.push(stocks[i].clone());
        }
        i += 1;
    }
    proof {
        assert(stocks@.take(i as int) =~= stocks@);
    }
    *stocks = kept;
}

/// Puts the list in the order of `ids`.
pub fn reorder_stocks(stocks: &mut Vec<Stock>, ids: &[String])
    ensures
        final(stocks)@ == reordered(old(stocks)@, texts(ids@)),
{
    let ghost pick = |id: Seq<char>| listed(stocks@, id);
    let mut ordered: Vec<Stock> = Vec::new();
    let mut i: usize = 0;
    while i < ids.len()
        invariant
            i <= ids.len(),
            pick == |id: Seq<char>| listed(stocks@, id),
            ordered@ == texts(ids@.take(i as int)).filter_map(pick),
        decreases ids.len() - i,
    {
        proof {
            let seen = texts(ids@.take(i + 1));
            assert(seen.drop_last() =~= texts(ids@.take(i as int)));
        }
        match find_stock(stocks, ids[i].as_str()) {
            Some(stock) => {
                ordered.push(stock.clone());
            },
            None => {},
        }
        i += 1;
    }
    proof {
        assert(ids@.take(i as int) =~= ids@);
    }
    *stocks = ordered;
}

} // verus!
