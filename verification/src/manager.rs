//! The failover-aware source manager: one active provider among an ordered
//! list, replaced by the next after repeated failure.

use vstd::prelude::*;
use vstd::string::StringExecFns;
use crate::models::{quotes_of, texts, PriceUpdate, Quote, SourceSwitchedEvent};
use crate::sources::sina::SinaSource;
use crate::sources::{
    all_well_formed,
    present,
    requests_of,
    result_view,
    source_named,
    DataSource,
    Failure,
    FetchError,
    HttpRequest,
};

verus! {


/// Number of consecutive failures after which a manager moves on to the next
/// provider.
pub const DEFAULT_MAX_FAILURES: u32 = 3;

/// What a `SourceManager` holds, as mathematical values.
pub struct ManagerState {
    pub sources: Seq<DataSource>,
    pub active_index: int,
    pub fail_count: int,
    pub max_failures: int,
}

/// What a fetch through a manager comes to, as mathematical values.
pub enum Outcome {
    Quotes(Seq<Quote>),
    Switched { from: Seq<char>, to: Seq<char> },
    Failed(Failure),
}

impl ManagerState {
    /// There is an active provider, and while there is another to switch to
    /// the failure count stays below the threshold.
    pub open spec fn valid(self) -> bool {
        &&& 0 <= self.active_index < self.sources.len()
        &&& 0 <= self.fail_count <= u32::MAX
        &&& 1 <= self.max_failures <= u32::MAX
        &&& self.sources.len() > 1 ==> self.fail_count < self.max_failures
    }

    /// The provider that the next fetch goes to.
    pub open spec fn active(self) -> DataSource {
        self.sources[self.active_index]
    }

    /// The position of the provider after the active one, wrapping around.
    pub open spec fn next_index(self) -> int {
        (self.active_index + 1) % (self.sources.len() as int)
    }

    /// One more failure reaches the threshold and there is a provider to
    /// switch to.
    pub open spec fn switches_on_failure(self) -> bool {
        self.sources.len() > 1 && self.fail_count + 1 >= self.max_failures
    }

    /// The state after a fetch that succeeded.
    pub open spec fn after_success(self) -> ManagerState {
        ManagerState {
            sources: self.sources,
            active_index: self.active_index,
            fail_count: 0,
            max_failures: self.max_failures,
        }
    }

    /// The state after a fetch that failed. With a single provider the count
    /// keeps growing and stops at `u32::MAX`.
    pub open spec fn after_failure(self) -> ManagerState {
        if self.switches_on_failure() {
            ManagerState {
                sources: self.sources,
                active_index: self.next_index(),
                fail_count: 0,
                max_failures: self.max_failures,
            }
        } else {
            ManagerState {
                sources: self.sources,
                active_index: self.active_index,
                fail_count: if self.fail_count < u32::MAX {
                    self.fail_count + 1
                } else {
                    self.fail_count
                },
                max_failures: self.max_failures,
            }
        }
    }

    /// The state after a fetch with the given result.
    pub open spec fn after(self, result: Result<Seq<Quote>, Failure>) -> ManagerState {
        match result {
            Ok(_) => self.after_success(),
            Err(_) => self.after_failure(),
        }
    }

    /// What a fetch with the given result comes to: the quotes of a success,
    /// the failure as it came, or in its place the notice of a switch.
    pub open spec fn outcome(self, result: Result<Seq<Quote>, Failure>) -> Outcome {
        match result {
            Ok(quotes) => Outcome::Quotes(quotes),
            Err(failure) => if self.switches_on_failure() {
                Outcome::Switched {
                    from: self.active().spec_name(),
                    to: self.sources[self.next_index()].spec_name(),
                }
            } else {
                Outcome::Failed(failure)
            },
        }
    }

    /// The state after `n` failures in a row.
    pub open spec fn after_failures(self, n: nat) -> ManagerState
        decreases n,
    {
        if n == 0 {
            self
        } else {
            self.after_failures((n - 1) as nat).after_failure()
        }
    }
}

/// The providers that a list of configured names stands for, in order.
/// Names that are not recognized are left out.
pub open spec fn recognized(names: Seq<Seq<char>>) -> Seq<DataSource> {
    present(names.map_values(|name: Seq<char>| source_named(name)))
}

/// The providers that a manager built from `names` holds: those recognized,
/// or `providerA` alone where none is.
pub open spec fn sources_for(names: Seq<Seq<char>>) -> Seq<DataSource> {
    if recognized(names).len() == 0 {
        seq![DataSource::Sina(SinaSource {})]
    } else {
        recognized(names)
    }
}

/// The state of a manager that was just built over `sources`.
pub open spec fn fresh(sources: Seq<DataSource>) -> ManagerState {
    ManagerState {
        sources,
        active_index: 0,
        fail_count: 0,
        max_failures: DEFAULT_MAX_FAILURES as int,
    }
}

/// A manager built from configured names always has a provider, and begins
/// in a valid state with the first provider active and no failure counted.
pub proof fn lemma_fresh_manager_is_valid(names: Seq<Seq<char>>)
    ensures
        sources_for(names).len() > 0,
        fresh(sources_for(names)).valid(),
        fresh(sources_for(names)).active_index == 0,
        fresh(sources_for(names)).fail_count == 0,
{
}

/// Every step keeps a valid state valid.
pub proof fn lemma_steps_keep_valid(s: ManagerState)
    requires
        s.valid(),
    ensures
        s.after_success().valid(),
        s.after_failure().valid(),
{
}

/// Any success resets the count of consecutive failures, whatever it was.
pub proof fn lemma_success_resets(s: ManagerState, quotes: Seq<Quote>)
    ensures
        s.after(Ok(quotes)).fail_count == 0,
        s.after(Ok(quotes)).active_index == s.active_index,
        s.outcome(Ok(quotes)) == Outcome::Quotes(quotes),
{
}

/// With two or more providers and a count that starts at zero, every failure
/// before the threshold leaves the active provider in place, raises the
/// count by one and hands back the failure as it came.
pub proof fn lemma_failures_below_threshold(s: ManagerState, k: nat, failure: Failure)
    requires
        s.valid(),
        s.sources.len() >= 2,
        s.fail_count == 0,
        k + 1 < s.max_failures,
    ensures
        s.after_failures(k).outcome(Err(failure)) == Outcome::Failed(failure),
        s.after_failures(k + 1).sources == s.sources,
        s.after_failures(k + 1).active_index == s.active_index,
        s.after_failures(k + 1).fail_count == k + 1,
        s.after_failures(k + 1).max_failures == s.max_failures,
    decreases k,
{
    if k > 0 {
        lemma_failures_below_threshold(s, (k - 1) as nat, failure);
    }
}

/// With two or more providers and a count that starts at zero, the failure
/// that reaches the threshold yields the notice of a switch that names the
/// old and the new provider, moves the active position on by one, wrapping
/// around, and resets the count.
pub proof fn lemma_failure_at_threshold(s: ManagerState, failure: Failure)
    requires
        s.valid(),
        s.sources.len() >= 2,
        s.fail_count == 0,
    ensures
        ({
            let before = s.after_failures((s.max_failures - 1) as nat);
            let after = s.after_failures(s.max_failures as nat);
            &&& before.outcome(Err(failure)) == Outcome::Switched {
                from: s.active().spec_name(),
                to: s.sources[s.next_index()].spec_name(),
            }
            &&& after.sources == s.sources
            &&& after.active_index == (s.active_index + 1) % (s.sources.len() as int)
            &&& after.fail_count == 0
        }),
{
    let k = (s.max_failures - 1) as nat;
    if k > 0 {
        lemma_failures_below_threshold(s, (k - 1) as nat, failure);
    }
}

/// With exactly one provider no number of failures ever switches: the
/// provider stays active and every failure is handed back as it is.
pub proof fn lemma_single_source_never_switches(s: ManagerState, n: nat, failure: Failure)
    requires
        s.valid(),
        s.sources.len() == 1,
    ensures
        s.after_failures(n).sources == s.sources,
        s.after_failures(n).active_index == s.active_index,
        s.after_failures(n).outcome(Err(failure)) == Outcome::Failed(failure),
    decreases n,
{
    if n > 0 {
        lemma_single_source_never_switches(s, (n - 1) as nat, failure);
    }
}

/// What a fetch through a manager came to.
#[derive(Debug)]
pub enum FetchOutcome {
    /// The active provider answered; the quotes may be none.
    Quotes(Vec<PriceUpdate>),
    /// The active provider failed once too often and the manager moved on.
    Switched(SourceSwitchedEvent),
    /// The active provider failed and stays active.
    Failed(FetchError),
}

impl View for FetchOutcome {
    type V = Outcome;

    open spec fn view(&self) -> Outcome {
        match self {
            FetchOutcome::Quotes(updates) => Outcome::Quotes(quotes_of(updates@)),
            FetchOutcome::Switched(event) => Outcome::Switched {
                from: event.from@,
                to: event.to@,
            },
            FetchOutcome::Failed(error) => Outcome::Failed(error@),
        }
    }
}

/// Keeps track of the active provider among an ordered list and replaces it
/// after repeated failure.
#[derive(Debug)]
pub struct SourceManager {
    sources: Vec<DataSource>,
    active_index: usize,
    fail_count: u32,
    max_failures: u32,
}

impl View for SourceManager {
    type V = ManagerState;

    closed spec fn view(&self) -> ManagerState {
        ManagerState {
            sources: self.sources@,
            active_index: self.active_index as int,
            fail_count: self.fail_count as int,
            max_failures: self.max_failures as int,
        }
    }
}

impl SourceManager {
    #[verifier::type_invariant]
    spec fn well_formed(self) -> bool {
        self@.valid()
    }

    /// Builds a manager from configured provider names. Names that are not
    /// recognized are ignored; where none is left, `providerA` is used.
    pub fn new(source_names: &[String]) -> (manager: Self)
        ensures
            manager@ == fresh(sources_for(texts(source_names@))),
            manager@.valid(),
    {
        let ghost named = |name: Seq<char>| source_named(name);
        let mut sources: Vec<DataSource> = Vec::new();
        let mut i: usize = 0;
        while i < source_names.len()
            invariant
                i <= source_names.len(),
                named == |name: Seq<char>| source_named(name),
                sources@ == present(texts(source_names@.take(i as int)).map_values(named)),
            decreases source_names.len() - i,
        {
            proof {
                let before = texts(source_names@.take(i as int)).map_values(named);
                let after = texts(source_names@.take(i + 1)).map_values(named);
                assert(after.drop_last() =~= before);
            }
            match DataSource::from_name(source_names[i].as_str()) {
                Some(source) => {
                    sources.push(source);
                },
                None => {},
            }
            i += 1;
        }
        proof {
            assert(source_names@.take(i as int) =~= source_names@);
        }
        if sources.len() == 0 {
            sources.push(DataSource::Sina(SinaSource::new()));
            proof {
                assert(sources@ =~= seq![DataSource::Sina(SinaSource {})]);
            }
        }
        SourceManager { sources, active_index: 0, fail_count: 0, max_failures: DEFAULT_MAX_FAILURES }
    }

    /// Builds a manager over the given providers, the first of them active.
    pub fn new_with_sources(sources: Vec<DataSource>) -> (manager: Self)
        requires
            sources@.len() > 0,
        ensures
            manager@ == fresh(sources@),
            manager@.valid(),
    {
        SourceManager { sources, active_index: 0, fail_count: 0, max_failures: DEFAULT_MAX_FAILURES }
    }

    /// The active provider.
    pub fn active(&self) -> (source: DataSource)
        ensures
            self@.valid(),
            source == self@.active(),
    {
        proof {
            use_type_invariant(self);
        }
        self.sources[self.active_index]
    }

    /// The name of the active provider.
    pub fn active_name(&self) -> (name: &'static str)
        ensures
            self@.valid(),
            name@ == self@.active().spec_name(),
    {
        self.active().name()
    }

    /// The position of the active provider.
    pub fn active_index(&self) -> (index: usize)
        ensures
            self@.valid(),
            index == self@.active_index,
    {
        proof {
            use_type_invariant(self);
        }
        self.active_index
    }

    /// The number of failures in a row of the active provider.
    pub fn fail_count(&self) -> (count: u32)
        ensures
            self@.valid(),
            count == self@.fail_count,
    {
        proof {
            use_type_invariant(self);
        }
        self.fail_count
    }

    /// The number of providers.
    pub fn source_count(&self) -> (count: usize)
        ensures
            self@.valid(),
            count == self@.sources.len(),
    {
        proof {
            use_type_invariant(self);
        }
        self.sources.len()
    }

    /// Describes the requests that fetch a batch from the active provider.
    pub fn requests(&self, stocks: &[(String, String)]) -> (requests: Vec<HttpRequest>)
        ensures
            requests_of(requests@) == self@.active().spec_requests(stocks@),
            stocks@.len() == 0 ==> requests@.len() == 0,
    {
        self.active().requests(stocks)
    }

    /// Takes note of the result of a fetch from the active provider.
    ///
    /// A success resets the failure count. A failure raises it; when it
    /// reaches the threshold and there is more than one provider, the next
    /// provider becomes active, the count is reset, and the notice of the
    /// switch is returned in place of the failure.
    pub fn settle(&mut self, result: Result<Vec<PriceUpdate>, FetchError>) -> (outcome:
        FetchOutcome)
        ensures
            final(self)@ == old(self)@.after(result_view(result)),
            final(self)@.valid(),
            outcome@ == old(self)@.outcome(result_view(result)),
            result matches Ok(updates) ==> outcome == FetchOutcome::Quotes(updates),
            result matches Err(error) ==> !old(self)@.switches_on_failure() ==> outcome
                == FetchOutcome::Failed(error),
    {
        proof {
            use_type_invariant(&*self);
        }
        match result {
            Ok(updates) => {
                self.fail_count = 0;
                FetchOutcome::Quotes(updates)
            },
            Err(error) => {
                if self.sources.len() > 1 && self.fail_count + 1 >= self.max_failures {
                    let from = String::from_str(self.sources[self.active_index].name());
                    self.fail_count = 0;
                    self.active_index = (self.active_index + 1) % self.sources.len();
                    let to = String::from_str(self.sources[self.active_index].name());
                    FetchOutcome::Switched(SourceSwitchedEvent { from, to })
                } else {
                    if self.fail_count < u32::MAX {
                        self.fail_count = self.fail_count + 1;
                    }
                    FetchOutcome::Failed(error)
                }
            },
        }
    }

    /// Draws the result of a fetch from the replies to the requests of the
    /// active provider and takes note of it.
    pub fn fetch(
        &mut self,
        stocks: &[(String, String)],
        replies: &Vec<Result<String, String>>,
        timestamp: u64,
    ) -> (outcome: FetchOutcome)
        requires
            replies@.len() == old(self)@.active().spec_requests(stocks@).len(),
        ensures
            final(self)@ == old(self)@.after(
                old(self)@.active().spec_collect(stocks@, replies@, timestamp),
            ),
            final(self)@.valid(),
            outcome@ == old(self)@.outcome(
                old(self)@.active().spec_collect(stocks@, replies@, timestamp),
            ),
            outcome matches FetchOutcome::Quotes(updates) ==> all_well_formed(quotes_of(updates@)),
    {
        let result = self.active().collect(stocks, replies, timestamp);
        self.settle(result)
    }
}

} // verus!
