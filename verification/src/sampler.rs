//! The sampler: a perpetual cycle of waiting, fetching and publishing.
//!
//! The sampler itself neither sleeps nor talks to the network. It is a
//! state machine: the caller performs the action it asks for and reports
//! back what happened, and the sampler decides what the cache holds
//! afterwards and what to do next.

use crate::aggregate::{contributions, net_export, sums_to};
use crate::cache::{
    elapsed_secs, initial_snapshot, law_elapsed_never_decreases, reading, written, ExportCache,
    ExportReading, ExportSnapshot,
};
use crate::config::{SamplerConfig, SamplerConfigView};
use crate::flow::{crosses, FlowRecord, POSITIVE_ZERO};
use vstd::prelude::*;

verus! {

/// The one response status after which the body is read.
pub const STATUS_OK: u16 = 200;

/// Why a cycle ended without a new value.
#[derive(Clone, Copy, Debug, PartialEq, Eq)]
pub enum SkipReason {
    /// No response arrived: the connection failed or a timeout ran out.
    Transport,
    /// A response arrived with a status other than [`STATUS_OK`].
    Status,
    /// The body was not a list of flow records.
    Decode,
}

/// How one fetch cycle ended.
#[derive(Clone, Copy, Debug, PartialEq, Eq)]
pub enum CycleOutcome {
    /// The feed was read; the net export is the bit pattern given.
    Success(u64),
    /// The cycle was abandoned; the cache keeps what it had.
    Skipped(SkipReason),
}

/// What came back from one request to the feed.
#[derive(Clone, Debug, PartialEq, Eq)]
pub enum FetchReply {
    /// No response arrived.
    NoResponse,
    /// A response arrived. `records` holds the decoded body, or `None`
    /// where the body could not be decoded or was not read.
    Response { status: u16, records: Option<Vec<FlowRecord>> },
}

/// Where the sampler stands in its cycle.
#[derive(Clone, Copy, Debug, PartialEq, Eq)]
pub enum Phase {
    /// Waiting for the interval to pass.
    Waiting,
    /// Waiting for the fetch to end.
    Fetching,
}

/// What the caller reports to the sampler.
#[derive(Clone, Copy, Debug, PartialEq, Eq)]
pub enum Event {
    /// The wait that the sampler asked for is over.
    WaitElapsed,
    /// The fetch that the sampler asked for ended in this way.
    FetchFinished(CycleOutcome),
}

/// What the sampler asks the caller to do next.
#[derive(Clone, Copy, Debug, PartialEq, Eq)]
pub enum Action {
    /// Let this many seconds pass, then report [`Event::WaitElapsed`].
    Wait { secs: u64 },
    /// Request the feed within these timeouts, then report
    /// [`Event::FetchFinished`].
    Fetch { connect_timeout_secs: u64, request_timeout_secs: u64 },
}

/// The sampler: its settings and its place in the cycle.
pub struct Sampler {
    config: SamplerConfig,
    phase: Phase,
}

/// The mathematical content of a [`Sampler`].
pub struct SamplerView {
    pub config: SamplerConfigView,
    pub phase: Phase,
}

/// Whether the reply ends the cycle without a value, and why. The status is
/// looked at before the body.
pub open spec fn skip_reason(reply: FetchReply) -> Option<SkipReason> {
    match reply {
        FetchReply::NoResponse => Some(SkipReason::Transport),
        FetchReply::Response { status, records } => if status != STATUS_OK {
            Some(SkipReason::Status)
        } else if records is None {
            Some(SkipReason::Decode)
        } else {
            None
        },
    }
}

/// The action that belongs to a phase.
pub open spec fn pending(config: SamplerConfigView, phase: Phase) -> Action {
    match phase {
        Phase::Waiting => Action::Wait { secs: config.interval_secs },
        Phase::Fetching => Action::Fetch {
            connect_timeout_secs: config.connect_timeout_secs,
            request_timeout_secs: config.request_timeout_secs,
        },
    }
}

/// The phase after an event. An event that does not belong to the phase
/// leaves it as it is.
pub open spec fn next_phase(phase: Phase, event: Event) -> Phase {
    match (phase, event) {
        (Phase::Waiting, Event::WaitElapsed) => Phase::Fetching,
        (Phase::Fetching, Event::FetchFinished(_)) => Phase::Waiting,
        _ => phase,
    }
}

/// The content of the cache after a cycle that ended at `now` with
/// `outcome`: a success replaces value and time, a skipped cycle nothing.
pub open spec fn published(snapshot: ExportSnapshot, outcome: CycleOutcome, now: u64)
    -> ExportSnapshot {
    match outcome {
        CycleOutcome::Success(value) => written(value, now),
        CycleOutcome::Skipped(_) => snapshot,
    }
}

/// The content of the cache after an event at `now`. Only the end of a
/// fetch, reported while fetching, can change it.
pub open spec fn after_event(snapshot: ExportSnapshot, phase: Phase, event: Event, now: u64)
    -> ExportSnapshot {
    match (phase, event) {
        (Phase::Fetching, Event::FetchFinished(outcome)) => published(snapshot, outcome, now),
        _ => snapshot,
    }
}

/// One finished fetch cycle: how it ended and when.
pub struct Cycle {
    pub outcome: CycleOutcome,
    pub at: u64,
}

/// The content of a cache that started empty and took in the cycles of
/// `history` one after the other.
pub open spec fn replay(history: Seq<Cycle>) -> ExportSnapshot
    decreases history.len(),
{
    if history.len() == 0 {
        initial_snapshot()
    } else {
        published(replay(history.drop_last()), history.last().outcome, history.last().at)
    }
}

/// The last cycle of `history` that ended in success, if there is one.
pub open spec fn latest_success(history: Seq<Cycle>) -> Option<Cycle>
    decreases history.len(),
{
    if history.len() == 0 {
        None
    } else if history.last().outcome is Success {
        Some(history.last())
    } else {
        latest_success(history.drop_last())
    }
}

/// Every cycle of `cycles` was skipped.
pub open spec fn all_skipped(cycles: Seq<Cycle>) -> bool {
    forall|i: int| 0 <= i < cycles.len() ==> (#[trigger] cycles[i]).outcome is Skipped
}

/// Skipped cycles leave the cache exactly as it was before them.
pub proof fn law_skipped_cycles_change_nothing(history: Seq<Cycle>, skipped: Seq<Cycle>)
    requires
        all_skipped(skipped),
    ensures
        replay(history + skipped) == replay(history),
        latest_success(history + skipped) == latest_success(history),
    decreases skipped.len(),
{
    if skipped.len() == 0 {
        assert(history + skipped =~= history);
    } else {
        let fewer = skipped.drop_last();
        assert(all_skipped(fewer)) by {
            assert forall|i: int| 0 <= i < fewer.len() implies (#[trigger] fewer[i]).outcome
                is Skipped by {
                assert(fewer[i] == skipped[i]);
            }
        }
        law_skipped_cycles_change_nothing(history, fewer);
        assert((history + skipped).drop_last() =~= history + fewer);
        assert((history + skipped).last() == skipped[skipped.len() - 1]);
    }
}

/// A reader always sees value and time of one and the same write: those of
/// the latest successful cycle, or positive zero and no time while there
/// was none.
pub proof fn law_reading_pairs_latest_success(history: Seq<Cycle>, now: u64)
    ensures
        match latest_success(history) {
            None => reading(replay(history), now) == (ExportReading {
                curr_export: POSITIVE_ZERO,
                last_update: None,
            }),
            Some(cycle) => cycle.outcome matches CycleOutcome::Success(value) && reading(
                replay(history),
                now,
            ) == (ExportReading {
                curr_export: value,
                last_update: Some(elapsed_secs(cycle.at, now)),
            }),
        },
    decreases history.len(),
{
    if history.len() > 0 {
        law_reading_pairs_latest_success(history.drop_last(), now);
    }
}

/// After a successful cycle every reader finds a time of update, and until
/// the next successful cycle the seconds it reports never go down and the
/// value stays the same.
pub proof fn law_elapsed_grows_until_next_success(
    history: Seq<Cycle>,
    skipped: Seq<Cycle>,
    earlier: u64,
    later: u64,
)
    requires
        latest_success(history) is Some,
        all_skipped(skipped),
        earlier <= later,
    ensures
        reading(replay(history), earlier).last_update is Some,
        reading(replay(history + skipped), later).last_update is Some,
        reading(replay(history), earlier).last_update->0 <= reading(
            replay(history + skipped),
            later,
        ).last_update->0,
        reading(replay(history), earlier).curr_export == reading(
            replay(history + skipped),
            later,
        ).curr_export,
{
    law_skipped_cycles_change_nothing(history, skipped);
    law_reading_pairs_latest_success(history, earlier);
    law_reading_pairs_latest_success(history, later);
    law_elapsed_never_decreases(latest_success(history)->0.at, earlier, later);
}

/// Whether a response with this status has its body read.
pub fn status_accepted(status: u16) -> (accepted: bool)
    ensures
        accepted == (status == STATUS_OK),
{
    status == STATUS_OK
}

impl View for Sampler {
    type V = SamplerView;

    closed spec fn view(&self) -> SamplerView {
        SamplerView { config: self.config@, phase: self.phase }
    }
}

impl Sampler {
    /// A sampler with these settings, about to wait for the first time.
    pub fn new(config: SamplerConfig) -> (sampler: Sampler)
        ensures
            sampler@.config == config@,
            sampler@.phase == Phase::Waiting,
    {
        Sampler { config, phase: Phase::Waiting }
    }

    /// The settings.
    pub fn config(&self) -> (config: &SamplerConfig)
        ensures
            config@ == self@.config,
    {
        &self.config
    }

    /// The place in the cycle.
    pub fn phase(&self) -> (phase: Phase)
        ensures
            phase == self@.phase,
    {
        self.phase
    }

    /// The action that the sampler is waiting on. A fetch is always asked
    /// for with a connection timeout shorter than the request timeout.
    pub fn pending_action(&self) -> (action: Action)
        ensures
            action == pending(self@.config, self@.phase),
            action matches Action::Fetch { connect_timeout_secs, request_timeout_secs }
                ==> connect_timeout_secs < request_timeout_secs,
    {
        match self.phase {
            Phase::Waiting => Action::Wait { secs: self.config.interval_secs() },
            Phase::Fetching => Action::Fetch {
                connect_timeout_secs: self.config.connect_timeout_secs(),
                request_timeout_secs: self.config.request_timeout_secs(),
            },
        }
    }

    /// Turns what a request brought back into the outcome of the cycle.
    ///
    /// No response, a status other than [`STATUS_OK`] and a body that is no
    /// list of records each end the cycle without a value, in this order of
    /// precedence. Otherwise the outcome is the net export of the sampler's
    /// country over the records, added up with `plus`.
    pub fn evaluate<F: Fn(u64, u64) -> u64>(&self, reply: &FetchReply, plus: F) -> (outcome: CycleOutcome)
        requires
            forall|sum: u64, term: u64| call_requires(plus, (sum, term)),
        ensures
            skip_reason(*reply) matches Some(reason) ==> outcome == CycleOutcome::Skipped(reason),
            skip_reason(*reply) is None ==> (outcome matches CycleOutcome::Success(total)
                && sums_to(
                    plus,
                    contributions(reply->records->0.deep_view(), self@.config.country),
                    POSITIVE_ZERO,
                    total,
                )),
            skip_reason(*reply) is None && (forall|i: int|
                0 <= i < reply->records->0.len() ==> !crosses(
                    #[trigger] reply->records->0.deep_view()[i],
                    self@.config.country,
                )) ==> outcome == CycleOutcome::Success(POSITIVE_ZERO),
    {
        match reply {
            FetchReply::NoResponse => CycleOutcome::Skipped(SkipReason::Transport),
            FetchReply::Response { status, records } => {
                if !status_accepted(*status) {
                    CycleOutcome::Skipped(SkipReason::Status)
                } else {
                    match records {
                        None => CycleOutcome::Skipped(SkipReason::Decode),
                        Some(decoded) => CycleOutcome::Success(
                            net_export(decoded, self.config.country(), plus),
                        ),
                    }
                }
            },
        }
    }

    /// Takes in one event at `now` and answers with the next action.
    ///
    /// The end of a wait starts a fetch. The end of a fetch publishes a
    /// success into `cache` with `now` as its time, leaves `cache` untouched
    /// after a skipped cycle, and starts the next wait either way. An event
    /// that does not belong to the current phase changes nothing, and the
    /// sampler asks again for what it is waiting on.
    pub fn step(&mut self, event: Event, cache: &mut ExportCache, now: u64) -> (action: Action)
        ensures
            final(self)@.config == old(self)@.config,
            final(self)@.phase == next_phase(old(self)@.phase, event),
            final(cache)@ == after_event(old(cache)@, old(self)@.phase, event, now),
            action == pending(final(self)@.config, final(self)@.phase),
            event is WaitElapsed ==> final(cache)@ == old(cache)@,
            event matches Event::FetchFinished(CycleOutcome::Skipped(_)) ==> final(cache)@ == old(
                cache,
            )@,
            action matches Action::Fetch { connect_timeout_secs, request_timeout_secs }
                ==> connect_timeout_secs < request_timeout_secs,
    {
        match (self.phase, event) {
            (Phase::Waiting, Event::WaitElapsed) => {
                self.phase = Phase::Fetching;
            },
            (Phase::Fetching, Event::FetchFinished(outcome)) => {
                match outcome {
                    CycleOutcome::Success(value) => {
                        cache.write(value, now);
                    },
                    CycleOutcome::Skipped(_) => {},
                }
                self.phase = Phase::Waiting;
            },
            _ => {},
        }
        self.pending_action()
    }
}

} // verus!
