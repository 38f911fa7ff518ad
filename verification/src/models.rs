//! The records exchanged with the engine: watched stocks, normalized quotes,
//! the settings the engine reads and the notices it raises.

use vstd::prelude::*;
use vstd::string::StringExecFns;

verus! {

/// A watched stock.
#[derive(Debug)]
pub struct Stock {
    /// Canonical key, market followed by code, such as `sh600519`.
    pub id: String,
    /// Exchange code, such as `600519`.
    pub code: String,
    /// Market prefix, `sh` or `sz`.
    pub market: String,
    /// Name chosen by the user.
    pub alias: String,
    /// Whether the stock is shown, and therefore polled.
    pub visible: bool,
}

impl Clone for Stock {
    fn clone(&self) -> (r: Self)
        ensures
            r == *self,
    {
        Stock {
            id: self.id.clone(),
            code: self.code.clone(),
            market: self.market.clone(),
            alias: self.alias.clone(),
            visible: self.visible,
        }
    }
}

/// What a `PriceUpdate` holds, as mathematical values.
pub struct Quote {
    pub id: Seq<char>,
    pub code: Seq<char>,
    pub market: Seq<char>,
    pub name: Seq<char>,
    pub price: int,
    pub prev_close: int,
    pub change: int,
    pub percent: int,
    pub high: int,
    pub low: int,
    pub timestamp: int,
    pub source: Seq<char>,
}

/// A normalized quote for one stock.
///
/// Money fields count ten-thousandths of a currency unit; `percent` is the
/// ratio of `change` to `prev_close` in millionths.
#[derive(Debug)]
pub struct PriceUpdate {
    /// Canonical key, such as `sh600519`.
    pub id: String,
    /// Exchange code.
    pub code: String,
    /// Market prefix.
    pub market: String,
    /// Name reported by the provider.
    pub name: String,
    /// Last price.
    pub price: i64,
    /// Previous close.
    pub prev_close: i64,
    /// `price - prev_close`.
    pub change: i64,
    /// `change / prev_close`, in millionths.
    pub percent: i64,
    /// Highest price of the day.
    pub high: i64,
    /// Lowest price of the day.
    pub low: i64,
    /// Time of the fetch, in milliseconds since the Unix epoch.
    pub timestamp: u64,
    /// Name of the provider that reported the quote.
    pub source: String,
}

impl View for PriceUpdate {
    type V = Quote;

    open spec fn view(&self) -> Quote {
        Quote {
            id: self.id@,
            code: self.code@,
            market: self.market@,
            name: self.name@,
            price: self.price as int,
            prev_close: self.prev_close as int,
            change: self.change as int,
            percent: self.percent as int,
            high: self.high as int,
            low: self.low as int,
            timestamp: self.timestamp as int,
            source: self.source@,
        }
    }
}

impl Clone for PriceUpdate {
    fn clone(&self) -> (r: Self)
        ensures
            r == *self,
    {
        PriceUpdate {
            id: self.id.clone(),
            code: self.code.clone(),
            market: self.market.clone(),
            name: self.name.clone(),
            price: self.price,
            prev_close: self.prev_close,
            change: self.change,
            percent: self.percent,
            high: self.high,
            low: self.low,
            timestamp: self.timestamp,
            source: self.source.clone(),
        }
    }
}

/// The quotes held by a sequence of updates.
pub open spec fn quotes_of(updates: Seq<PriceUpdate>) -> Seq<Quote> {
    updates.map_values(|u: PriceUpdate| u@)
}

/// The quote held by an optional update.
pub open spec fn quote_in(update: Option<PriceUpdate>) -> Option<Quote> {
    match update {
        Some(u) => Some(u@),
        None => None,
    }
}

/// Top-left corner of the monitor window, in screen coordinates.
#[derive(Debug, Clone, Copy, PartialEq, Eq, Structural)]
pub struct Position {
    pub x: i32,
    pub y: i32,
}

/// Extent of the monitor window.
#[derive(Debug, Clone, Copy, PartialEq, Eq, Structural)]
pub struct Size {
    pub width: u32,
    pub height: u32,
}

/// Application settings. The engine reads `refresh_interval_ms` and
/// `data_sources`; the rest belongs to the presentation layer.
#[derive(Debug)]
pub struct AppConfig {
    pub theme: String,
    pub up_color: String,
    pub down_color: String,
    pub neutral_color: String,
    pub font_size: String,
    pub refresh_interval_ms: u64,
    pub pause_when_hidden: bool,
    pub autostart: bool,
    pub data_sources: Vec<String>,
}

/// The views of a list of strings.
pub open spec fn texts(names: Seq<String>) -> Seq<Seq<char>> {
    names.map_values(|s: String| s@)
}

/// Copies a list of strings.
pub fn copy_names(names: &Vec<String>) -> (copy: Vec<String>)
    ensures
        copy@ == names@,
{
    let mut copy: Vec<String> = Vec::new();
    let mut i: usize = 0;
    while i < names.len()
        invariant
            i <= names.len(),
            copy@ == names@.take(i as int),
        decreases names.len() - i,
    {
        copy.push(names[i].clone());
        i += 1;
    }
    copy
}

impl Clone for AppConfig {
    fn clone(&self) -> (r: Self)
        ensures
            r.theme == self.theme,
            r.up_color == self.up_color,
            r.down_color == self.down_color,
            r.neutral_color == self.neutral_color,
            r.font_size == self.font_size,
            r.refresh_interval_ms == self.refresh_interval_ms,
            r.pause_when_hidden == self.pause_when_hidden,
            r.autostart == self.autostart,
            r.data_sources@ == self.data_sources@,
    {
        AppConfig {
            theme: self.theme.clone(),
            up_color: self.up_color.clone(),
            down_color: self.down_color.clone(),
            neutral_color: self.neutral_color.clone(),
            font_size: self.font_size.clone(),
            refresh_interval_ms: self.refresh_interval_ms,
            pause_when_hidden: self.pause_when_hidden,
            autostart: self.autostart,
            data_sources: copy_names(&self.data_sources),
        }
    }
}

impl Default for AppConfig {
    fn default() -> (r: Self)
        ensures
            r.theme@ == "auto"@,
            r.up_color@ == "#ff0000"@,
            r.down_color@ == "#00b300"@,
            r.neutral_color@ == "#888888"@,
            r.font_size@ == "medium"@,
            r.refresh_interval_ms == 3000,
            !r.pause_when_hidden,
            !r.autostart,
            texts(r.data_sources@) == seq!["providerA"@, "providerB"@, "providerC"@],
    {
        let mut data_sources: Vec<String> = Vec::new();
        data_sources.push(String::from_str("providerA"));
        data_sources.push(String::from_str("providerB"));
        data_sources.push(String::from_str("providerC"));
        AppConfig {
            theme: String::from_str("auto"),
            up_color: String::from_str("#ff0000"),
            down_color: String::from_str("#00b300"),
            neutral_color: String::from_str("#888888"),
            font_size: String::from_str("medium"),
            refresh_interval_ms: 3000,
            pause_when_hidden: false,
            autostart: false,
            data_sources,
        }
    }
}

/// Global key bindings.
#[derive(Debug)]
pub struct ShortcutConfig {
    pub toggle_visible: String,
    pub next_stock: String,
    pub prev_stock: String,
}

impl Clone for ShortcutConfig {
    fn clone(&self) -> (r: Self)
        ensures
            r == *self,
    {
        ShortcutConfig {
            toggle_visible: self.toggle_visible.clone(),
            next_stock: self.next_stock.clone(),
            prev_stock: self.prev_stock.clone(),
        }
    }
}

impl Default for ShortcutConfig {
    fn default() -> (r: Self)
        ensures
            r.toggle_visible@ == "CommandOrControl+Shift+S"@,
            r.next_stock@ == "Alt+J"@,
            r.prev_stock@ == "Alt+K"@,
    {
        ShortcutConfig {
            toggle_visible: String::from_str("CommandOrControl+Shift+S"),
            next_stock: String::from_str("Alt+J"),
            prev_stock: String::from_str("Alt+K"),
        }
    }
}

/// Notice that the engine moved from one provider to the next.
#[derive(Debug)]
pub struct SourceSwitchedEvent {
    pub from: String,
    pub to: String,
}

impl Clone for SourceSwitchedEvent {
    fn clone(&self) -> (r: Self)
        ensures
            r == *self,
    {
        SourceSwitchedEvent { from: self.from.clone(), to: self.to.clone() }
    }
}

/// Notice that a fetch failed.
#[derive(Debug)]
pub struct ErrorEvent {
    pub code: String,
    pub message: String,
}

impl Clone for ErrorEvent {
    fn clone(&self) -> (r: Self)
        ensures
            r == *self,
    {
        ErrorEvent { code: self.code.clone(), message: self.message.clone() }
    }
}

} // verus!
