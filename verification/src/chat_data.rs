//! Conversation summaries and the coordinated cache that loads them.
//!
//! The cache is single-flight: when no snapshot is cached, exactly one caller
//! claims the loader role and fetches; every other concurrent caller waits
//! for the committed snapshot. The asynchronous shell around this module (a
//! lock, a wake-all notification channel, timers and the storage fetch
//! itself) lives outside the library. Every decision that shell has to take
//! is a function here with an exact contract: claiming the loader role,
//! committing a result, deciding whether and how long to back off before a
//! retry, and honouring the caller's absolute deadline.

use std::sync::Arc;
use vstd::prelude::*;

verus! {

use crate::text::append;
use vstd::arithmetic::power2::pow2;

/// Failure taxonomy of cache loads. `Timeout` means an absolute deadline
/// elapsed, whether mid-fetch or mid-wait; the rest pass the storage
/// collaborator's verdict through.
#[derive(Clone, Debug, PartialEq, Eq)]
pub enum DataError {
    Network(String),
    Timeout,
    Server(String),
    Parse(String),
    Unauthorized,
    Database(String),
}

impl DataError {
    /// The human-readable description of the error.
    pub open spec fn message_spec(&self) -> Seq<char> {
        match self {
            DataError::Network(m) => "Network error: "@ + m@,
            DataError::Timeout => "Request timed out"@,
            DataError::Server(m) => "Server error: "@ + m@,
            DataError::Parse(m) => "Data parse error: "@ + m@,
            DataError::Unauthorized => "Authentication required"@,
            DataError::Database(m) => "Database error: "@ + m@,
        }
    }

    /// Renders the error for display.
    pub fn message(&self) -> (text: String)
        ensures
            text@ == self.message_spec(),
    {
        match self {
            DataError::Network(m) => {
                let mut text = "Network error: ".to_owned();
                append(&mut text, m.as_str());
                text
            },
            DataError::Timeout => "Request timed out".to_owned(),
            DataError::Server(m) => {
                let mut text = "Server error: ".to_owned();
                append(&mut text, m.as_str());
                text
            },
            DataError::Parse(m) => {
                let mut text = "Data parse error: ".to_owned();
                append(&mut text, m.as_str());
                text
            },
            DataError::Unauthorized => "Authentication required".to_owned(),
            DataError::Database(m) => {
                let mut text = "Database error: ".to_owned();
                append(&mut text, m.as_str());
                text
            },
        }
    }
}

/// Unique identifier of a chat conversation.
#[derive(Clone, Debug, PartialEq, Eq, Hash)]
pub struct ChatId(pub String);

/// One chat conversation as shown in a conversation list. Immutable once
/// constructed.
#[derive(Clone, Debug, PartialEq)]
pub struct ChatItem {
    pub id: ChatId,
    pub name: String,
    pub last_message: Option<String>,
    /// Last activity, in milliseconds since the Unix epoch, UTC.
    pub timestamp: i64,
    pub unread_count: u32,
    pub is_online: bool,
}

/// What a caller holds after one coordination step: the cached snapshot, the
/// exclusive loader role, or the duty to wait for the loader's broadcast.
pub enum LoadTicket {
    Cached(Arc<Vec<ChatItem>>),
    Loader,
    Wait,
}

/// Ghost abstraction of the cache: whether a snapshot is committed and
/// whether a loader holds the single-flight claim.
pub struct CacheState {
    pub has_data: bool,
    pub loading: bool,
}

/// A caller is granted the loader role exactly when nothing is cached and
/// nobody else is loading.
pub open spec fn grants_loader(s: CacheState) -> bool {
    !s.has_data && !s.loading
}

/// How one `begin_load` changes the abstract cache state.
pub open spec fn step_begin_load(s: CacheState) -> CacheState {
    if grants_loader(s) {
        CacheState { has_data: s.has_data, loading: true }
    } else {
        s
    }
}

/// How many of `n` consecutive `begin_load` calls from state `s` are granted
/// the loader role.
pub open spec fn loader_grants(s: CacheState, n: nat) -> nat
    decreases n,
{
    if n == 0 {
        0
    } else {
        (if grants_loader(s) {
            1nat
        } else {
            0nat
        }) + loader_grants(step_begin_load(s), (n - 1) as nat)
    }
}

/// Single flight: of any number of consecutive `begin_load` calls, at most
/// one is granted the loader role — and exactly one when the run starts with
/// no cached data and no load in flight. Since only the granted caller
/// fetches, one load round triggers at most one fetch of the storage
/// collaborator; everyone else waits for, and then shares, the same
/// committed snapshot.
pub proof fn lemma_single_flight(s: CacheState, n: nat)
    ensures
        loader_grants(s, n) <= 1,
        s.loading ==> loader_grants(s, n) == 0,
        grants_loader(s) && n >= 1 ==> loader_grants(s, n) == 1,
    decreases n,
{
    if n > 0 {
        lemma_single_flight(step_begin_load(s), (n - 1) as nat);
    }
}

/// The abstract cache state after `n` consecutive `begin_load` calls.
pub open spec fn steps_begin_load(s: CacheState, n: nat) -> CacheState
    decreases n,
{
    if n == 0 {
        s
    } else {
        steps_begin_load(step_begin_load(s), (n - 1) as nat)
    }
}

/// A refresh blinds every concurrent reader until the next commit: from a
/// state with no snapshot — which is what `begin_refresh` leaves behind — no
/// number of load-coordination steps makes data appear; only a loader's
/// successful `finish_load` does.
pub proof fn lemma_refresh_blinds_readers(s: CacheState, n: nat)
    requires
        !s.has_data,
    ensures
        !steps_begin_load(s, n).has_data,
    decreases n,
{
    if n > 0 {
        lemma_refresh_blinds_readers(step_begin_load(s), (n - 1) as nat);
    }
}

/// Coordinated, single-flight cache of the conversation list.
///
/// This is the sequential core: the surrounding application holds it behind
/// one lock, so each method is one atomic step of the protocol.
pub struct ChatDataProvider {
    chats: Option<Arc<Vec<ChatItem>>>,
    loading: bool,
}

/// Relies on `Arc::clone`: the returned handle refers to the same snapshot.
#[verifier::external_body]
fn share_snapshot(snapshot: &Arc<Vec<ChatItem>>) -> (shared: Arc<Vec<ChatItem>>)
    ensures
        shared == *snapshot,
{
    Arc::clone(snapshot)
}

impl ChatDataProvider {
    /// The committed snapshot, if any.
    pub closed spec fn cached(&self) -> Option<Arc<Vec<ChatItem>>> {
        self.chats
    }

    /// Whether a loader currently holds the single-flight claim.
    pub closed spec fn in_flight(&self) -> bool {
        self.loading
    }

    /// The ghost abstraction this cache refines.
    pub open spec fn abs(&self) -> CacheState {
        CacheState { has_data: self.cached().is_some(), loading: self.in_flight() }
    }

    pub fn new() -> (provider: Self)
        ensures
            provider.cached().is_none(),
            !provider.in_flight(),
    {
        ChatDataProvider { chats: None, loading: false }
    }

    /// Non-blocking read of the current snapshot. Never triggers a fetch:
    /// the state is untouched and the result is exactly what is cached.
    pub fn get_chats(&self) -> (snapshot: Option<Arc<Vec<ChatItem>>>)
        ensures
            snapshot == self.cached(),
    {
        match &self.chats {
            Some(s) => Some(share_snapshot(s)),
            None => None,
        }
    }

    /// Non-blocking read of the single-flight claim.
    pub fn is_loading(&self) -> (loading: bool)
        ensures
            loading == self.in_flight(),
    {
        self.loading
    }

    /// Whether a snapshot is committed. The surrounding application may
    /// answer `false` instead of blocking when the lock is contended.
    pub fn has_cached_data(&self) -> (has: bool)
        ensures
            has == self.cached().is_some(),
    {
        self.chats.is_some()
    }

    /// One coordination step of `load`: return the cached snapshot if there
    /// is one; otherwise claim the loader role if it is free, else wait.
    /// A waiter calls this again on every wake, which also lets it claim the
    /// role itself after a loader failed.
    pub fn begin_load(&mut self) -> (ticket: LoadTicket)
        ensures
            final(self).cached() == old(self).cached(),
            final(self).in_flight() == (old(self).in_flight() || old(self).cached().is_none()),
            final(self).abs() == step_begin_load(old(self).abs()),
            ticket == (if old(self).cached().is_some() {
                LoadTicket::Cached(old(self).cached().unwrap())
            } else if old(self).in_flight() {
                LoadTicket::Wait
            } else {
                LoadTicket::Loader
            }),
            (ticket is Loader) == grants_loader(old(self).abs()),
    {
        let ticket = match &self.chats {
            Some(s) => Some(share_snapshot(s)),
            None => None,
        };
        match ticket {
            Some(s) => LoadTicket::Cached(s),
            None => {
                if self.loading {
                    LoadTicket::Wait
                } else {
                    self.loading = true;
                    LoadTicket::Loader
                }
            },
        }
    }

    /// The loader commits its outcome and releases the single-flight claim.
    /// On success the snapshot is committed in the same step that clears the
    /// claim, so no observer can see "not loading" together with "no data"
    /// after a successful load. On failure the cache is left as it was, and
    /// the claim is released so that waiters are never stuck.
    pub fn finish_load(&mut self, outcome: Result<Arc<Vec<ChatItem>>, DataError>) -> (result:
        Result<Arc<Vec<ChatItem>>, DataError>)
        requires
            old(self).in_flight(),
        ensures
            !final(self).in_flight(),
            result == outcome,
            match outcome {
                Ok(snapshot) => final(self).cached() == Some(snapshot),
                Err(_) => final(self).cached() == old(self).cached(),
            },
    {
        let result = match outcome {
            Ok(snapshot) => {
                self.chats = Some(share_snapshot(&snapshot));
                Ok(snapshot)
            },
            Err(e) => Err(e),
        };
        self.loading = false;
        result
    }

    /// Unconditionally clears the cached snapshot, then competes for the
    /// loader claim exactly like any other caller: two concurrent refreshes
    /// cannot both become the loader. Until the next successful commit,
    /// `get_chats` returns nothing.
    pub fn begin_refresh(&mut self) -> (ticket: LoadTicket)
        ensures
            final(self).cached().is_none(),
            final(self).in_flight(),
            ticket == (if old(self).in_flight() {
                LoadTicket::Wait
            } else {
                LoadTicket::Loader
            }),
    {
        self.chats = None;
        self.begin_load()
    }
}

/// Whether an absolute deadline has passed at time `now_ms`; the check every
/// waiter makes before waiting again, so that lost or coalesced wake-ups
/// cannot make it overshoot its deadline.
pub fn deadline_expired(now_ms: u64, deadline_ms: u64) -> (expired: bool)
    ensures
        expired == (now_ms >= deadline_ms),
{
    now_ms >= deadline_ms
}

/// Fetch attempts per load round.
pub const MAX_LOAD_ATTEMPTS: u32 = 3;

/// First inter-retry delay; later delays double.
pub const BASE_RETRY_DELAY_MS: u64 = 100;

/// Upper bound on any inter-retry delay.
pub const MAX_RETRY_DELAY_MS: u64 = 2000;

/// Whether a failed fetch may be retried: infrastructure trouble is
/// transient, while malformed data and rejected credentials are definitive,
/// and a timeout means the budget is already spent.
pub open spec fn spec_retryable(e: DataError) -> bool {
    match e {
        DataError::Network(_) => true,
        DataError::Server(_) => true,
        DataError::Database(_) => true,
        DataError::Timeout => false,
        DataError::Parse(_) => false,
        DataError::Unauthorized => false,
    }
}

/// Whether a failed fetch may be retried.
pub fn retryable(e: &DataError) -> (transient: bool)
    ensures
        transient == spec_retryable(*e),
{
    match e {
        DataError::Network(_) => true,
        DataError::Server(_) => true,
        DataError::Database(_) => true,
        DataError::Timeout => false,
        DataError::Parse(_) => false,
        DataError::Unauthorized => false,
    }
}

/// Delay before the retry after attempt `attempt` (zero-based): doubling
/// from 100 ms, capped at 2 s.
pub open spec fn spec_backoff_delay_ms(attempt: nat) -> nat {
    if (BASE_RETRY_DELAY_MS as nat) * pow2(attempt) > MAX_RETRY_DELAY_MS as nat {
        MAX_RETRY_DELAY_MS as nat
    } else {
        (BASE_RETRY_DELAY_MS as nat) * pow2(attempt)
    }
}

/// Delay before the retry after attempt `attempt` (zero-based).
pub fn backoff_delay_ms(attempt: u32) -> (delay: u64)
    requires
        attempt < MAX_LOAD_ATTEMPTS,
    ensures
        delay == spec_backoff_delay_ms(attempt as nat),
{
    proof {
        vstd::arithmetic::power2::lemma2_to64();
    }
    if attempt == 0 {
        100
    } else if attempt == 1 {
        200
    } else {
        400
    }
}

/// How one fetch attempt ended: the storage collaborator answered, it
/// failed, or the absolute deadline cut the attempt off.
pub enum FetchAttempt {
    Success,
    Failed(DataError),
    HitDeadline,
}

/// The loader's next move after a fetch attempt.
#[derive(Debug, PartialEq, Eq)]
pub enum RetryStep {
    /// Commit and broadcast the fetched snapshot.
    Deliver,
    /// Surface the definitive source error; no further attempt.
    GiveUp(DataError),
    /// The deadline is spent (or sleeping would spend it): surface `Timeout`.
    AbortTimeout,
    /// Sleep this many milliseconds, then fetch again.
    SleepThenRetry(u64),
}

/// The loader's next move after fetch attempt `attempt` (zero-based) ended
/// with `outcome` at time `now_ms`: deliver a success, time out when the
/// deadline cut the attempt off, give a non-retryable failure or the last
/// attempt's failure up, and otherwise back off — unless the delay would
/// reach the deadline, in which case the round aborts without sleeping.
pub open spec fn spec_plan_after_attempt(
    attempt: nat,
    outcome: FetchAttempt,
    now_ms: nat,
    deadline_ms: nat,
) -> RetryStep {
    match outcome {
        FetchAttempt::Success => RetryStep::Deliver,
        FetchAttempt::HitDeadline => RetryStep::AbortTimeout,
        FetchAttempt::Failed(e) => if !spec_retryable(e) || attempt + 1 >= MAX_LOAD_ATTEMPTS as nat {
            RetryStep::GiveUp(e)
        } else if now_ms + spec_backoff_delay_ms(attempt) >= deadline_ms {
            RetryStep::AbortTimeout
        } else {
            RetryStep::SleepThenRetry(spec_backoff_delay_ms(attempt) as u64)
        },
    }
}

/// Decides the loader's next move after one fetch attempt; the surrounding
/// application performs it (commit, sleep, or surface the failure).
pub fn plan_after_attempt(attempt: u32, outcome: FetchAttempt, now_ms: u64, deadline_ms: u64) -> (
    step: RetryStep)
    requires
        attempt < MAX_LOAD_ATTEMPTS,
    ensures
        step == spec_plan_after_attempt(attempt as nat, outcome, now_ms as nat, deadline_ms as nat),
{
    match outcome {
        FetchAttempt::Success => RetryStep::Deliver,
        FetchAttempt::HitDeadline => RetryStep::AbortTimeout,
        FetchAttempt::Failed(e) => {
            let transient = retryable(&e);
            if !transient || attempt + 1 >= MAX_LOAD_ATTEMPTS {
                RetryStep::GiveUp(e)
            } else {
                let delay = backoff_delay_ms(attempt);
                if now_ms >= deadline_ms || deadline_ms - now_ms <= delay {
                    RetryStep::AbortTimeout
                } else {
                    RetryStep::SleepThenRetry(delay)
                }
            }
        },
    }
}

/// What one scripted fetch attempt would do: how long the storage call runs
/// and whether it fails.
pub struct ScriptedFetch {
    pub latency_ms: u64,
    pub error: Option<DataError>,
}

/// How a load round ends.
#[derive(Debug, PartialEq, Eq)]
pub enum LoadOutcome {
    Loaded,
    Failed(DataError),
    TimedOut,
}

/// A finished load round: its outcome, how often the storage collaborator
/// was fetched, and when the round ended.
pub struct LoadRun {
    pub outcome: LoadOutcome,
    pub fetch_calls: u32,
    pub finished_at_ms: u64,
}

/// The bounded fetch-with-retry algorithm of the loader, on a virtual clock:
/// before each attempt the deadline is checked; an attempt that would run
/// past the deadline is cut off at the deadline; a retryable failure backs
/// off — unless the delay would reach the deadline, in which case the round
/// aborts without sleeping; attempts and delays accumulate on the clock.
/// Returns the outcome, the number of fetches made, and the finish time.
pub open spec fn spec_load_round(
    script: Seq<ScriptedFetch>,
    attempt: nat,
    clock_ms: nat,
    deadline_ms: nat,
) -> (LoadOutcome, int, int)
    decreases MAX_LOAD_ATTEMPTS as nat - attempt,
{
    if attempt >= MAX_LOAD_ATTEMPTS as nat || script.len() <= attempt {
        (LoadOutcome::TimedOut, 0, clock_ms as int)
    } else if clock_ms >= deadline_ms {
        (LoadOutcome::TimedOut, 0, clock_ms as int)
    } else {
        let fetch = script[attempt as int];
        if clock_ms + fetch.latency_ms > deadline_ms {
            (LoadOutcome::TimedOut, 1, deadline_ms as int)
        } else {
            let done = (clock_ms + fetch.latency_ms) as nat;
            match fetch.error {
                None => (LoadOutcome::Loaded, 1, done as int),
                Some(e) => match spec_plan_after_attempt(
                    attempt,
                    FetchAttempt::Failed(e),
                    done,
                    deadline_ms,
                ) {
                    RetryStep::Deliver => (LoadOutcome::Loaded, 1, done as int),
                    RetryStep::GiveUp(err) => (LoadOutcome::Failed(err), 1, done as int),
                    RetryStep::AbortTimeout => (LoadOutcome::TimedOut, 1, done as int),
                    RetryStep::SleepThenRetry(delay) => {
                        let rest = spec_load_round(
                            script,
                            attempt + 1,
                            (done + delay) as nat,
                            deadline_ms,
                        );
                        (rest.0, 1 + rest.1, rest.2)
                    },
                },
            }
        }
    }
}

/// Runs the loader's bounded fetch-with-retry round on a virtual clock, with
/// the storage collaborator's behaviour given as a script: one entry per
/// fetch the round might make. This is the timing model of a load round; the
/// surrounding application replays the same decisions against real timers.
#[verifier::loop_isolation(false)]
pub fn simulate_load_round(script: Vec<ScriptedFetch>, start_ms: u64, deadline_ms: u64) -> (run:
    LoadRun)
    requires
        script@.len() >= MAX_LOAD_ATTEMPTS,
    ensures
        run.outcome == spec_load_round(script@, 0, start_ms as nat, deadline_ms as nat).0,
        run.fetch_calls as int == spec_load_round(script@, 0, start_ms as nat, deadline_ms as nat).1,
        run.finished_at_ms as int == spec_load_round(
            script@,
            0,
            start_ms as nat,
            deadline_ms as nat,
        ).2,
        run.fetch_calls <= MAX_LOAD_ATTEMPTS,
{
    let ghost full_script = script@;
    let ghost total = spec_load_round(full_script, 0, start_ms as nat, deadline_ms as nat);
    let mut script = script;
    let mut attempt: u32 = 0;
    let mut clock: u64 = start_ms;
    loop
        invariant
            attempt < MAX_LOAD_ATTEMPTS,
            full_script.len() >= MAX_LOAD_ATTEMPTS,
            script@ == full_script.skip(attempt as int),
            spec_load_round(full_script, attempt as nat, clock as nat, deadline_ms as nat) == (
                total.0,
                total.1 - attempt as int,
                total.2,
            ),
        decreases MAX_LOAD_ATTEMPTS - attempt,
    {
        if clock >= deadline_ms {
            return LoadRun { outcome: LoadOutcome::TimedOut, fetch_calls: attempt, finished_at_ms: clock };
        }
        let fetch = script.remove(0);
        proof {
            assert(fetch == full_script[attempt as int]);
            assert(script@ =~= full_script.skip(attempt + 1));
        }
        if fetch.latency_ms > deadline_ms - clock {
            return LoadRun {
                outcome: LoadOutcome::TimedOut,
                fetch_calls: attempt + 1,
                finished_at_ms: deadline_ms,
            };
        }
        let done = clock + fetch.latency_ms;
        match fetch.error {
            None => {
                return LoadRun {
                    outcome: LoadOutcome::Loaded,
                    fetch_calls: attempt + 1,
                    finished_at_ms: done,
                };
            },
            Some(e) => {
                match plan_after_attempt(attempt, FetchAttempt::Failed(e), done, deadline_ms) {
                    RetryStep::Deliver => {
                        proof {
                            assert(false);
                        }
                        unreached()
                    },
                    RetryStep::GiveUp(err) => {
                        return LoadRun {
                            outcome: LoadOutcome::Failed(err),
                            fetch_calls: attempt + 1,
                            finished_at_ms: done,
                        };
                    },
                    RetryStep::AbortTimeout => {
                        return LoadRun {
                            outcome: LoadOutcome::TimedOut,
                            fetch_calls: attempt + 1,
                            finished_at_ms: done,
                        };
                    },
                    RetryStep::SleepThenRetry(delay) => {
                        clock = done + delay;
                        attempt = attempt + 1;
                    },
                }
            },
        }
    }
}

} // verus!
