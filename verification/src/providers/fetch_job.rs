//! Fetching and storing one fund's quote as a recorded job: which store call comes next, and
//! what the job ends with. The caller makes each call and reports how it went.

use vstd::prelude::*;
use crate::app::errors::FundIngestError;
use crate::domain::fund_quote::NewFundQuote;
use crate::providers::fund_source::{
    FetchedFundSnapshot, StoreStep, new_fund_quote, store_failure, store_step_text,
};

verus! {

/// Where a fetch job stands.
#[derive(Debug, Clone)]
pub enum FetchJobState {
    /// The job record is being created.
    Starting { fund_id: i64 },
    /// The job is recorded and the snapshot is being fetched.
    Fetching { fund_id: i64, job_id: i64 },
    /// The quote is being written.
    Writing { job_id: i64 },
    /// The job is being recorded as failed with `error`.
    RecordingFailure { error: FundIngestError },
    /// The job is being recorded as a success.
    Finishing,
    /// Nothing is left to do.
    Finished,
}

/// What the caller reports.
#[derive(Debug, Clone)]
pub enum FetchEvent {
    /// The job record was created with this id.
    JobStarted(i64),
    /// The snapshot was fetched.
    Fetched(FetchedFundSnapshot),
    /// Fetching the snapshot failed.
    FetchFailed(FundIngestError),
    /// The last store call went through.
    StoreDone,
    /// The last store call failed, in the store's own words.
    StoreFailed(String),
}

/// What the caller does next.
#[derive(Debug, Clone)]
pub enum FetchAction {
    /// Create the job record.
    StartJob,
    /// Fetch the snapshot.
    FetchSnapshot,
    /// Write this quote.
    WriteQuote(NewFundQuote),
    /// Finish the job record with this status and message.
    FinishJob { job_id: i64, status: String, message: Option<String> },
    /// The quote is stored and the job recorded as a success.
    Succeed,
    /// The fetch failed with this error.
    Fail(FundIngestError),
    /// The event does not belong to this state; nothing to do.
    Nothing,
}

/// Whether `action` finishes job `job_id` as failed with `error`'s message.
pub open spec fn finishes_failed(action: FetchAction, job_id: i64, error: FundIngestError) -> bool {
    &&& action matches FetchAction::FinishJob { job_id: j, status, message }
    &&& j == job_id
    &&& status@ == "failed"@
    &&& message matches Some(m)
    &&& m@ == error.message_view()
}

/// Whether `error` is the storage error of `step` with `cause`.
pub open spec fn is_store_failure(error: FundIngestError, step: StoreStep, cause: Seq<char>) -> bool {
    &&& error matches FundIngestError::StorageFailure(m)
    &&& m@ == store_step_text(step) + cause
}

/// The first step of fetching and storing a quote of fund `fund_id`.
pub fn fetch_job_start(fund_id: i64) -> (res: (FetchJobState, FetchAction))
    ensures
        res.0 == (FetchJobState::Starting { fund_id }),
        res.1 is StartJob,
{
    (FetchJobState::Starting { fund_id }, FetchAction::StartJob)
}

fn finish_failed(job_id: i64, error: FundIngestError) -> (res: (FetchJobState, FetchAction))
    ensures
        res.0 == (FetchJobState::RecordingFailure { error }),
        finishes_failed(res.1, job_id, error),
{
    let message = String::from_str(error.user_message());
    (
        FetchJobState::RecordingFailure { error },
        FetchAction::FinishJob { job_id, status: String::from_str("failed"), message: Some(message) },
    )
}

/// One step of a fetch job: what `fetch_job_step` gives for `event` in `state`.
pub open spec fn fetch_step_spec(state: FetchJobState, event: FetchEvent, res: (FetchJobState, FetchAction)) -> bool {
    match (state, event) {
        (FetchJobState::Starting { fund_id }, FetchEvent::JobStarted(job_id)) => {
            &&& res.0 == (FetchJobState::Fetching { fund_id, job_id })
            &&& res.1 is FetchSnapshot
        },
        (FetchJobState::Starting { .. }, FetchEvent::StoreFailed(cause)) => {
            &&& res.0 is Finished
            &&& res.1 matches FetchAction::Fail(e)
            &&& is_store_failure(e, StoreStep::StartJob, cause@)
        },
        (FetchJobState::Fetching { fund_id, job_id }, FetchEvent::Fetched(snapshot)) => {
            &&& res.0 == (FetchJobState::Writing { job_id })
            &&& res.1 matches FetchAction::WriteQuote(q)
            &&& q.fund_id == fund_id
            &&& q.unit_nav == snapshot.unit_nav
            &&& q.nav_date == snapshot.nav_date
            &&& q.confirmed_change_rate == snapshot.confirmed_change_rate
            &&& q.estimated_nav == snapshot.estimated_nav
            &&& q.estimated_change_rate == snapshot.estimated_change_rate
            &&& q.estimated_at == snapshot.estimated_at
            &&& q.change_rate == snapshot.change_rate
            &&& q.fetched_at == snapshot.fetched_at
            &&& q.source == snapshot.source
        },
        (FetchJobState::Fetching { job_id, .. }, FetchEvent::FetchFailed(error)) => {
            &&& res.0 == (FetchJobState::RecordingFailure { error })
            &&& finishes_failed(res.1, job_id, error)
        },
        (FetchJobState::Writing { job_id }, FetchEvent::StoreDone) => {
            &&& res.0 is Finishing
            &&& res.1 matches FetchAction::FinishJob { job_id: j, status, message }
            &&& j == job_id
            &&& status@ == "success"@
            &&& message is None
        },
        (FetchJobState::Writing { job_id }, FetchEvent::StoreFailed(cause)) => {
            &&& res.0 matches FetchJobState::RecordingFailure { error }
            &&& is_store_failure(error, StoreStep::WriteQuote, cause@)
            &&& finishes_failed(res.1, job_id, error)
        },
        (FetchJobState::RecordingFailure { error }, FetchEvent::StoreDone) => {
            &&& res.0 is Finished
            &&& res.1 == FetchAction::Fail(error)
        },
        (FetchJobState::RecordingFailure { .. }, FetchEvent::StoreFailed(cause)) => {
            &&& res.0 is Finished
            &&& res.1 matches FetchAction::Fail(e)
            &&& is_store_failure(e, StoreStep::RecordFailure, cause@)
        },
        (FetchJobState::Finishing, FetchEvent::StoreDone) => {
            &&& res.0 is Finished
            &&& res.1 is Succeed
        },
        (FetchJobState::Finishing, FetchEvent::StoreFailed(cause)) => {
            &&& res.0 is Finished
            &&& res.1 matches FetchAction::Fail(e)
            &&& is_store_failure(e, StoreStep::FinishJob, cause@)
        },
        (s, _) => res.0 == s && res.1 is Nothing,
    }
}

/// The next step of a fetch job. A failed fetch or quote write finishes the job as `failed`
/// with the error's message, writes no quote, and ends with that error; a written quote
/// finishes the job as `success`. A failed store call ends with its storage error.
pub fn fetch_job_step(state: FetchJobState, event: FetchEvent) -> (res: (FetchJobState, FetchAction))
    ensures
        fetch_step_spec(state, event, res),
{
    match (state, event) {
        (FetchJobState::Starting { fund_id }, FetchEvent::JobStarted(job_id)) => (
            FetchJobState::Fetching { fund_id, job_id },
            FetchAction::FetchSnapshot,
        ),
        (FetchJobState::Starting { .. }, FetchEvent::StoreFailed(cause)) => (
            FetchJobState::Finished,
            FetchAction::Fail(store_failure(StoreStep::StartJob, cause.as_str())),
        ),
        (FetchJobState::Fetching { fund_id, job_id }, FetchEvent::Fetched(snapshot)) => (
            FetchJobState::Writing { job_id },
            FetchAction::WriteQuote(new_fund_quote(fund_id, snapshot)),
        ),
        (FetchJobState::Fetching { job_id, .. }, FetchEvent::FetchFailed(error)) => finish_failed(
            job_id,
            error,
        ),
        (FetchJobState::Writing { job_id }, FetchEvent::StoreDone) => (
            FetchJobState::Finishing,
            FetchAction::FinishJob { job_id, status: String::from_str("success"), message: None },
        ),
        (FetchJobState::Writing { job_id }, FetchEvent::StoreFailed(cause)) => finish_failed(
            job_id,
            store_failure(StoreStep::WriteQuote, cause.as_str()),
        ),
        (FetchJobState::RecordingFailure { error }, FetchEvent::StoreDone) => (
            FetchJobState::Finished,
            FetchAction::Fail(error),
        ),
        (FetchJobState::RecordingFailure { .. }, FetchEvent::StoreFailed(cause)) => (
            FetchJobState::Finished,
            FetchAction::Fail(store_failure(StoreStep::RecordFailure, cause.as_str())),
        ),
        (FetchJobState::Finishing, FetchEvent::StoreDone) => (FetchJobState::Finished, FetchAction::Succeed),
        (FetchJobState::Finishing, FetchEvent::StoreFailed(cause)) => (
            FetchJobState::Finished,
            FetchAction::Fail(store_failure(StoreStep::FinishJob, cause.as_str())),
        ),
        (s, _) => (s, FetchAction::Nothing),
    }
}

/// Whether `states`, `events` and `actions` are a run of a fetch job of fund `fund_id`: it
/// starts as `fetch_job_start` does, and each event moves it on as `fetch_job_step` does.
pub open spec fn fetch_run(
    fund_id: i64,
    states: Seq<FetchJobState>,
    events: Seq<FetchEvent>,
    actions: Seq<FetchAction>,
) -> bool {
    &&& states.len() == events.len() + 1
    &&& actions.len() == events.len() + 1
    &&& states[0] == (FetchJobState::Starting { fund_id })
    &&& actions[0] is StartJob
    &&& forall|i: int| 0 <= i < events.len() ==> #[trigger] fetch_moves(states, events, actions, i)
}

/// Whether event `i` of a run moves it from state `i` to state `i + 1` with action `i + 1`.
pub open spec fn fetch_moves(
    states: Seq<FetchJobState>,
    events: Seq<FetchEvent>,
    actions: Seq<FetchAction>,
    i: int,
) -> bool {
    fetch_step_spec(states[i], events[i], (states[i + 1], actions[i + 1]))
}

/// Whether a run writes a quote at some step.
pub open spec fn writes_quote(actions: Seq<FetchAction>) -> bool {
    exists|i: int| 0 <= i < actions.len() && #[trigger] actions[i] is WriteQuote
}

/// A fetch job whose store calls go through and whose snapshot arrives writes exactly one
/// quote, of the fund, made from the snapshot; then finishes its record as `success` with no
/// message, and ends in success.
pub proof fn law_fetched_snapshot_is_stored_then_succeeds(
    fund_id: i64,
    job_id: i64,
    snapshot: FetchedFundSnapshot,
    states: Seq<FetchJobState>,
    events: Seq<FetchEvent>,
    actions: Seq<FetchAction>,
)
    requires
        fetch_run(fund_id, states, events, actions),
        events == seq![
            FetchEvent::JobStarted(job_id),
            FetchEvent::Fetched(snapshot),
            FetchEvent::StoreDone,
            FetchEvent::StoreDone,
        ],
    ensures
        actions[1] is FetchSnapshot,
        actions[2] matches FetchAction::WriteQuote(q) && q.fund_id == fund_id
            && q.fetched_at == snapshot.fetched_at && q.change_rate == snapshot.change_rate
            && q.unit_nav == snapshot.unit_nav && q.source == snapshot.source,
        forall|i: int| 0 <= i < actions.len() && #[trigger] actions[i] is WriteQuote ==> i == 2,
        actions[3] matches FetchAction::FinishJob { job_id: j, status, message } && j == job_id
            && status@ == "success"@ && message is None,
        actions[4] is Succeed,
        states[4] is Finished,
{
    assert(fetch_moves(states, events, actions, 0));
    assert(fetch_moves(states, events, actions, 1));
    assert(fetch_moves(states, events, actions, 2));
    assert(fetch_moves(states, events, actions, 3));
}

/// A fetch job whose snapshot cannot be had writes no quote: it finishes its record as `failed`
/// with the error's message, and ends with that error.
pub proof fn law_failed_fetch_writes_no_quote(
    fund_id: i64,
    job_id: i64,
    error: FundIngestError,
    states: Seq<FetchJobState>,
    events: Seq<FetchEvent>,
    actions: Seq<FetchAction>,
)
    requires
        fetch_run(fund_id, states, events, actions),
        events == seq![FetchEvent::JobStarted(job_id), FetchEvent::FetchFailed(error), FetchEvent::StoreDone],
    ensures
        !writes_quote(actions),
        finishes_failed(actions[2], job_id, error),
        actions[3] == FetchAction::Fail(error),
        states[3] is Finished,
{
    assert(fetch_moves(states, events, actions, 0));
    assert(fetch_moves(states, events, actions, 1));
    assert(fetch_moves(states, events, actions, 2));
    assert(actions.len() == 4);
}

/// A fetch job whose quote cannot be written finishes its record as `failed` with the storage
/// error's message, and ends with that error.
pub proof fn law_failed_write_finishes_job_as_failed(
    fund_id: i64,
    job_id: i64,
    snapshot: FetchedFundSnapshot,
    cause: String,
    states: Seq<FetchJobState>,
    events: Seq<FetchEvent>,
    actions: Seq<FetchAction>,
)
    requires
        fetch_run(fund_id, states, events, actions),
        events == seq![
            FetchEvent::JobStarted(job_id),
            FetchEvent::Fetched(snapshot),
            FetchEvent::StoreFailed(cause),
            FetchEvent::StoreDone,
        ],
    ensures
        states[3] matches FetchJobState::RecordingFailure { error } && is_store_failure(
            error,
            StoreStep::WriteQuote,
            cause@,
        ) && finishes_failed(actions[3], job_id, error) && actions[4] == FetchAction::Fail(error),
        states[4] is Finished,
{
    assert(fetch_moves(states, events, actions, 0));
    assert(fetch_moves(states, events, actions, 1));
    assert(fetch_moves(states, events, actions, 2));
    assert(fetch_moves(states, events, actions, 3));
}

} // verus!
