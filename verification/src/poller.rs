//! The decisions of the polling loop.
//!
//! The loop itself is driven from outside: on every tick the driver asks
//! `PollSession::begin_tick` what to do, sends the requests it is handed,
//! and gives the replies to `PollSession::finish_tick`, which says what to
//! announce.

use vstd::prelude::*;
use vstd::string::StringExecFns;
use crate::manager::{fresh, sources_for, FetchOutcome, ManagerState, Outcome, SourceManager};
use crate::models::{
    copy_names,
    quotes_of,
    texts,
    AppConfig,
    ErrorEvent,
    PriceUpdate,
    Quote,
    SourceSwitchedEvent,
    Stock,
};
use crate::sources::{requests_of, HttpRequest, Request};

verus! {

/// The two flags of a poller.
pub struct PollerState {
    pub paused: bool,
    pub running: bool,
}

/// The switch of the polling loop: whether it runs, and whether it rests.
///
/// Both flags are read once per tick, so setting one takes effect at the
/// next tick.
#[derive(Debug)]
pub struct Poller {
    is_paused: bool,
    is_running: bool,
}

impl View for Poller {
    type V = PollerState;

    closed spec fn view(&self) -> PollerState {
        PollerState { paused: self.is_paused, running: self.is_running }
    }
}

impl Poller {
    /// A poller that is neither running nor paused.
    pub fn new() -> (poller: Self)
        ensures
            poller@ == (PollerState { paused: false, running: false }),
    {
        Poller { is_paused: false, is_running: false }
    }

    /// A poller with the given flags.
    pub fn with_flags(paused: bool, running: bool) -> (poller: Self)
        ensures
            poller@ == (PollerState { paused, running }),
    {
        Poller { is_paused: paused, is_running: running }
    }

    /// Sets or clears the pause flag.
    pub fn set_paused(&mut self, paused: bool)
        ensures
            final(self)@ == (PollerState { paused, running: old(self)@.running }),
    {
        self.is_paused = paused;
    }

    /// Tells whether the pause flag is set.
    pub fn is_paused(&self) -> (paused: bool)
        ensures
            paused == self@.paused,
    {
        self.is_paused
    }

    /// Tells whether the loop is meant to run.
    pub fn is_running(&self) -> (running: bool)
        ensures
            running == self@.running,
    {
        self.is_running
    }

    /// Starts polling. Returns the session for the loop to be run, built
    /// from the settings as they are now, or `None` where the poller is
    /// running already, in which case nothing changes.
    pub fn start(&mut self, app: &AppConfig) -> (session: Option<PollSession>)
        ensures
            final(self)@ == (PollerState { paused: old(self)@.paused, running: true }),
            old(self)@.running ==> session is None,
            !old(self)@.running ==> (session matches Some(s) && s@ == opening(
                texts(app.data_sources@),
                app.refresh_interval_ms,
            )),
    {
        if self.is_running {
            return None;
        }
        self.is_running = true;
        Some(PollSession::new(app))
    }

    /// Stops polling. The loop ends at its next tick.
    pub fn stop(&mut self)
        ensures
            final(self)@ == (PollerState { paused: old(self)@.paused, running: false }),
    {
        self.is_running = false;
    }
}

/// The `(market, code)` pairs of the stocks that are visible, in order.
pub open spec fn visible_pairs(stocks: Seq<Stock>) -> Seq<(String, String)> {
    stocks.filter_map(
        |s: Stock|
            if s.visible {
                Some((s.market, s.code))
            } else {
                None
            },
    )
}

/// Lists the `(market, code)` pairs of the stocks that are visible.
pub fn visible_stocks(stocks: &[Stock]) -> (pairs: Vec<(String, String)>)
    ensures
        pairs@ == visible_pairs(stocks@),
{
    let mut pairs: Vec<(String, String)> = Vec::new();
    let mut i: usize = 0;
    while i < stocks.len()
        invariant
            i <= stocks.len(),
            pairs@ == visible_pairs(stocks@.take(i as int)),
        decreases stocks.len() - i,
    {
        proof {
            assert(stocks@.take(i + 1).drop_last() =~= stocks@.take(i as int));
        }
        if stocks[i].visible {
            pairs.push((stocks[i].market.clone(), stocks[i].code.clone()));
        }
        i += 1;
    }
    proof {
        assert(stocks@.take(i as int) =~= stocks@);
    }
    pairs
}

/// Tells whether two lists hold the same names in the same order.
pub fn same_names(a: &Vec<String>, b: &Vec<String>) -> (same: bool)
    ensures
        same == (texts(a@) == texts(b@)),
{
    if a.len() != b.len() {
        return false;
    }
    let mut i: usize = 0;
    while i < a.len()
        invariant
            i <= a.len(),
            a.len() == b.len(),
            forall|j: int| 0 <= j < i ==> a@[j]@ == b@[j]@,
        decreases a.len() - i,
    {
        if a[i] != b[i] {
            proof {
                assert(texts(b@)[i as int] == b@[i as int]@);
            }
            return false;
        }
        i += 1;
    }
    proof {
        assert(texts(a@) =~= texts(b@));
    }
    true
}

/// What a `PollSession` holds, as mathematical values.
pub struct SessionState {
    /// The configured provider names that the manager was built from.
    pub source_names: Seq<Seq<char>>,
    pub manager: ManagerState,
    /// The refresh interval read at the last tick that went ahead.
    pub interval_ms: int,
}

/// What the loop is to do at a tick, as mathematical values.
pub enum TickPlan {
    Stop,
    Skip,
    Fetch { stocks: Seq<(String, String)>, requests: Seq<Request> },
}

/// What the loop is to announce after a fetch, as mathematical values.
pub enum Notice {
    PriceUpdate(Seq<Quote>),
    SourceSwitched { from: Seq<char>, to: Seq<char> },
    Error { code: Seq<char>, message: Seq<char> },
}

/// The state of a session that is about to begin.
pub open spec fn opening(source_names: Seq<Seq<char>>, interval_ms: u64) -> SessionState {
    SessionState {
        source_names,
        manager: fresh(sources_for(source_names)),
        interval_ms: interval_ms as int,
    }
}

impl SessionState {
    /// The manager holds the providers that the names stand for and is valid.
    pub open spec fn valid(self) -> bool {
        self.manager.valid() && self.manager.sources == sources_for(self.source_names)
    }

    /// The state after a tick has read the settings. A stopped or paused
    /// tick reads nothing. Otherwise the interval is noted, and the manager
    /// is built anew where the configured names have changed.
    pub open spec fn after_settings(
        self,
        poller: PollerState,
        source_names: Seq<Seq<char>>,
        interval_ms: u64,
    ) -> SessionState {
        if !poller.running || poller.paused {
            self
        } else if source_names == self.source_names {
            SessionState {
                source_names: self.source_names,
                manager: self.manager,
                interval_ms: interval_ms as int,
            }
        } else {
            opening(source_names, interval_ms)
        }
    }

    /// What a tick is to do: stop where the poller no longer runs, skip
    /// where it is paused or no stock is visible, else fetch the visible
    /// stocks from the provider that is active once the settings are read.
    pub open spec fn plan(
        self,
        poller: PollerState,
        stocks: Seq<Stock>,
        source_names: Seq<Seq<char>>,
        interval_ms: u64,
    ) -> TickPlan {
        if !poller.running {
            TickPlan::Stop
        } else if poller.paused || visible_pairs(stocks).len() == 0 {
            TickPlan::Skip
        } else {
            TickPlan::Fetch {
                stocks: visible_pairs(stocks),
                requests: self.after_settings(
                    poller,
                    source_names,
                    interval_ms,
                ).manager.active().spec_requests(visible_pairs(stocks)),
            }
        }
    }
}

/// What is announced for the outcome of a fetch: quotes where there are
/// any, the switch of provider, or the failure as an error. A fetch that
/// brought no quotes is passed over in silence.
pub open spec fn notice_for(outcome: Outcome) -> Option<Notice> {
    match outcome {
        Outcome::Quotes(quotes) => if quotes.len() > 0 {
            Some(Notice::PriceUpdate(quotes))
        } else {
            None
        },
        Outcome::Switched { from, to } => Some(Notice::SourceSwitched { from, to }),
        Outcome::Failed(failure) => Some(
            Notice::Error { code: "FETCH_ERROR"@, message: "数据获取失败: "@ + failure.cause },
        ),
    }
}

/// What the loop is to do at a tick.
#[derive(Debug)]
pub enum Tick {
    /// The poller was stopped: leave the loop for good.
    Stop,
    /// Nothing to do at this tick: wait for the next.
    Skip,
    /// Send `requests` and hand the replies to `PollSession::finish_tick`
    /// together with `stocks`.
    Fetch { stocks: Vec<(String, String)>, requests: Vec<HttpRequest> },
}

impl View for Tick {
    type V = TickPlan;

    open spec fn view(&self) -> TickPlan {
        match self {
            Tick::Stop => TickPlan::Stop,
            Tick::Skip => TickPlan::Skip,
            Tick::Fetch { stocks, requests } => TickPlan::Fetch {
                stocks: stocks@,
                requests: requests_of(requests@),
            },
        }
    }
}

/// What the loop is to announce after a fetch.
#[derive(Debug)]
pub enum PollEvent {
    PriceUpdate(Vec<PriceUpdate>),
    SourceSwitched(SourceSwitchedEvent),
    Error(ErrorEvent),
}

impl View for PollEvent {
    type V = Notice;

    open spec fn view(&self) -> Notice {
        match self {
            PollEvent::PriceUpdate(updates) => Notice::PriceUpdate(quotes_of(updates@)),
            PollEvent::SourceSwitched(event) => Notice::SourceSwitched {
                from: event.from@,
                to: event.to@,
            },
            PollEvent::Error(event) => Notice::Error { code: event.code@, message: event.message@ },
        }
    }
}

/// The notice held by an optional event.
pub open spec fn notice_in(event: Option<PollEvent>) -> Option<Notice> {
    match event {
        Some(e) => Some(e@),
        None => None,
    }
}

impl PollEvent {
    /// The name under which the event is announced.
    pub fn name(&self) -> (name: &'static str)
        ensures
            name@ == match self {
                PollEvent::PriceUpdate(_) => "quotes-updated"@,
                PollEvent::SourceSwitched(_) => "provider-switched"@,
                PollEvent::Error(_) => "error"@,
            },
    {
        match self {
            PollEvent::PriceUpdate(_) => "quotes-updated",
            PollEvent::SourceSwitched(_) => "provider-switched",
            PollEvent::Error(_) => "error",
        }
    }
}

/// Decides what to announce for the outcome of a fetch.
pub fn route(outcome: FetchOutcome) -> (event: Option<PollEvent>)
    ensures
        notice_in(event) == notice_for(outcome@),
{
    match outcome {
        FetchOutcome::Quotes(updates) => {
            if updates.len() > 0 {
                Some(PollEvent::PriceUpdate(updates))
            } else {
                None
            }
        },
        FetchOutcome::Switched(event) => Some(PollEvent::SourceSwitched(event)),
        FetchOutcome::Failed(error) => Some(
            PollEvent::Error(
                ErrorEvent {
                    code: String::from_str("FETCH_ERROR"),
                    message: String::from_str("数据获取失败: ").concat(error.cause.as_str()),
                },
            ),
        ),
    }
}

/// The state that one run of the polling loop carries from tick to tick.
#[derive(Debug)]
pub struct PollSession {
    current_sources: Vec<String>,
    source_manager: SourceManager,
    interval_ms: u64,
}

impl View for PollSession {
    type V = SessionState;

    closed spec fn view(&self) -> SessionState {
        SessionState {
            source_names: texts(self.current_sources@),
            manager: self.source_manager@,
            interval_ms: self.interval_ms as int,
        }
    }
}

impl PollSession {
    /// Begins a session from the settings as they are now.
    pub fn new(app: &AppConfig) -> (session: Self)
        ensures
            session@ == opening(texts(app.data_sources@), app.refresh_interval_ms),
            session@.valid(),
    {
        let current_sources = copy_names(&app.data_sources);
        let source_manager = SourceManager::new(current_sources.as_slice());
        PollSession { current_sources, source_manager, interval_ms: app.refresh_interval_ms }
    }

    /// The refresh interval read at the last tick that went ahead; at first,
    /// the one the session began with.
    pub fn interval_ms(&self) -> (interval_ms: u64)
        ensures
            interval_ms == self@.interval_ms,
    {
        self.interval_ms
    }

    /// The manager of this session.
    pub fn manager(&self) -> (manager: &SourceManager)
        ensures
            manager@ == self@.manager,
    {
        &self.source_manager
    }

    /// Decides what to do at a tick, given the poller's flags and the
    /// settings as they are now.
    pub fn begin_tick(&mut self, poller: &Poller, stocks: &[Stock], app: &AppConfig) -> (tick: Tick)
        ensures
            final(self)@ == old(self)@.after_settings(
                poller@,
                texts(app.data_sources@),
                app.refresh_interval_ms,
            ),
            old(self)@.valid() ==> final(self)@.valid(),
            tick@ == old(self)@.plan(
                poller@,
                stocks@,
                texts(app.data_sources@),
                app.refresh_interval_ms,
            ),
    {
        if !poller.is_running() {
            return Tick::Stop;
        }
        if poller.is_paused() {
            return Tick::Skip;
        }
        if same_names(&app.data_sources, &self.current_sources) {
            self.interval_ms = app.refresh_interval_ms;
        } else {
            *self = PollSession::new(app);
        }
        let pairs = visible_stocks(stocks);
        if pairs.len() == 0 {
            return Tick::Skip;
        }
        let requests = self.source_manager.requests(pairs.as_slice());
        Tick::Fetch { stocks: pairs, requests }
    }

    /// Takes the replies to the requests of a tick and decides what to
    /// announce.
    pub fn finish_tick(
        &mut self,
        stocks: &[(String, String)],
        replies: &Vec<Result<String, String>>,
        timestamp: u64,
    ) -> (event: Option<PollEvent>)
        requires
            replies@.len() == old(self)@.manager.active().spec_requests(stocks@).len(),
        ensures
            final(self)@ == (SessionState {
                source_names: old(self)@.source_names,
                manager: old(self)@.manager.after(
                    old(self)@.manager.active().spec_collect(stocks@, replies@, timestamp),
                ),
                interval_ms: old(self)@.interval_ms,
            }),
            old(self)@.valid() ==> final(self)@.valid(),
            notice_in(event) == notice_for(
                old(self)@.manager.outcome(
                    old(self)@.manager.active().spec_collect(stocks@, replies@, timestamp),
                ),
            ),
    {
        let outcome = self.source_manager.fetch(stocks, replies, timestamp);
        route(outcome)
    }

    /// Decides whether the timer must be set anew after a tick that went
    /// ahead: `Some` of the interval as it is now where it differs from the
    /// one read at the beginning of the tick.
    pub fn timer_reset(&self, refresh_interval_ms: u64) -> (reset: Option<u64>)
        ensures
            reset == if refresh_interval_ms == self@.interval_ms {
                None
            } else {
                Some(refresh_interval_ms)
            },
    {
        if refresh_interval_ms != self.interval_ms {
            Some(refresh_interval_ms)
        } else {
            None
        }
    }
}

} // verus!
