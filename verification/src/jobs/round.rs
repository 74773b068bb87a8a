//! A polling round, step by step: record the round as a job, list the funds and the rules,
//! fetch each enabled fund in turn (a failed fund does not stop the others), then finish the
//! round's record with its status. The caller makes each call and reports how it went.

use vstd::prelude::*;
use crate::domain::fund::Fund;
use crate::jobs::poll_funds::{
    PollFundsSummary, PollRound, fund_poll_job_type, funds_load_failure_message, round_message,
    round_status, rules_load_failure_message, skipped_round,
};
use crate::text::{concat, i64_text, int_text, views_of};

verus! {

/// How many of the funds are enabled.
pub open spec fn enabled_count(funds: Seq<Fund>) -> nat
    decreases funds.len(),
{
    if funds.len() == 0 {
        0
    } else {
        enabled_count(funds.drop_last()) + if funds.last().enabled {
            1nat
        } else {
            0nat
        }
    }
}

/// The first enabled fund at or after `from`, or the number of funds when there is none.
pub open spec fn next_enabled(funds: Seq<Fund>, from: int) -> int
    decreases funds.len() - from,
{
    if from < 0 || from >= funds.len() {
        funds.len() as int
    } else if funds[from].enabled {
        from
    } else {
        next_enabled(funds, from + 1)
    }
}

proof fn lemma_count_step(funds: Seq<Fund>, k: int)
    requires
        0 <= k < funds.len(),
    ensures
        enabled_count(funds.take(k + 1)) == enabled_count(funds.take(k)) + if funds[k].enabled {
            1nat
        } else {
            0nat
        },
{
    assert(funds.take(k + 1).drop_last() =~= funds.take(k));
}

proof fn lemma_count_bounded(funds: Seq<Fund>)
    ensures
        enabled_count(funds) <= funds.len(),
    decreases funds.len(),
{
    if funds.len() > 0 {
        lemma_count_bounded(funds.drop_last());
    }
}

proof fn lemma_next_enabled(funds: Seq<Fund>, from: int)
    requires
        0 <= from <= funds.len(),
    ensures
        from <= next_enabled(funds, from) <= funds.len(),
        next_enabled(funds, from) < funds.len() ==> funds[next_enabled(funds, from)].enabled,
        enabled_count(funds.take(next_enabled(funds, from))) == enabled_count(funds.take(from)),
    decreases funds.len() - from,
{
    if from < funds.len() && !funds[from].enabled {
        lemma_next_enabled(funds, from + 1);
        lemma_count_step(funds, from);
    }
}

fn find_next_enabled(funds: &Vec<Fund>, from: usize) -> (res: usize)
    requires
        from <= funds@.len(),
    ensures
        res == next_enabled(funds@, from as int),
{
    let mut i = from;
    while i < funds.len() && !funds[i].enabled
        invariant
            from <= i <= funds@.len(),
            next_enabled(funds@, i as int) == next_enabled(funds@, from as int),
        decreases funds.len() - i,
    {
        i = i + 1;
    }
    i
}

/// Where a round stands.
#[derive(Debug)]
pub enum RoundStage {
    /// The round's record is being created.
    StartingJob,
    /// The active funds are being listed.
    ListingFunds,
    /// The enabled rules are being listed.
    ListingRules,
    /// Fund `index` is being fetched and its rules checked.
    Fetching { index: usize },
    /// The round's record is being finished; then the round ends with `outcome`.
    Finishing { outcome: Result<PollFundsSummary, String> },
    /// Nothing is left to do.
    Done,
}

/// A round: its stage, its record, the funds it polls and the tally so far.
#[derive(Debug)]
pub struct PollRoundState {
    pub stage: RoundStage,
    pub job_id: i64,
    pub funds: Vec<Fund>,
    pub tally: PollRound,
}

/// What the caller reports.
#[derive(Debug)]
pub enum RoundEvent {
    /// The round's record was created with this id.
    JobStarted(i64),
    /// These are the active funds.
    FundsListed(Vec<Fund>),
    /// The enabled rules were listed.
    RulesListed,
    /// The fund at hand was fetched and stored; its rule checks failed with `rule_error`, if at
    /// all.
    FundDone { rule_error: Option<String> },
    /// Fetching the fund at hand failed with this user message.
    FundFailed(String),
    /// The last store call went through.
    StoreDone,
    /// The last store call failed, in the store's own words.
    StoreFailed(String),
}

/// What the caller does next.
#[derive(Debug)]
pub enum RoundAction {
    /// Create the round's record.
    StartRoundJob,
    /// List the active funds.
    ListFunds,
    /// List the enabled rules.
    ListRules,
    /// Fetch fund `index` as a job of `job_type`, then check its rules.
    FetchFund { index: usize, job_type: String },
    /// Finish the round's record with this status and message.
    FinishRoundJob { job_id: i64, status: String, message: Option<String> },
    /// The round is over with this summary, or this error.
    Stop(Result<PollFundsSummary, String>),
    /// The event does not belong to this stage; nothing to do.
    Nothing,
}

impl PollRoundState {
    /// The tally is consistent, and while fetching, the fund at hand is enabled and every
    /// enabled fund before it was counted once.
    pub open spec fn wf(&self) -> bool {
        &&& self.tally.wf()
        &&& (self.stage is StartingJob || self.stage is ListingFunds || self.stage is ListingRules
            ==> self.tally.succeeded_funds == 0 && self.tally.failed_funds == 0)
        &&& (self.stage matches RoundStage::Fetching { index } ==> {
            &&& index < self.funds@.len()
            &&& self.funds@[index as int].enabled
            &&& self.tally.succeeded_funds + self.tally.failed_funds == enabled_count(
                self.funds@.take(index as int),
            )
        })
    }
}

/// Whether `res` finishes the round's record `job_id` with the summary of `tally`.
pub open spec fn finishes_round(res: (PollRoundState, RoundAction), job_id: i64, tally: PollRound) -> bool {
    let total = tally.succeeded_funds + tally.failed_funds;
    &&& res.0.stage matches RoundStage::Finishing { outcome: Ok(summary) }
    &&& summary.total_funds == total
    &&& summary.succeeded_funds == tally.succeeded_funds
    &&& summary.failed_funds == tally.failed_funds
    &&& summary.status@ == round_status(
        tally.succeeded_funds as int,
        tally.failed_funds as int,
        tally.had_rule_errors,
    )
    &&& res.1 matches RoundAction::FinishRoundJob { job_id: j, status, message }
    &&& j == job_id
    &&& status@ == summary.status@
    &&& (message is None <==> tally.failure_messages@.len() == 0)
    &&& (message matches Some(m) ==> m@ == round_message(
        total as int,
        tally.succeeded_funds as int,
        tally.failed_funds as int,
        views_of(tally.failure_messages@),
    ))
}

/// Whether `res` goes on from fund `from`: to the next enabled fund, or to finishing the round.
pub open spec fn goes_on(res: (PollRoundState, RoundAction), state: PollRoundState, from: int) -> bool {
    let next = next_enabled(state.funds@, from);
    &&& res.0.funds@ == state.funds@
    &&& res.0.job_id == state.job_id
    &&& res.0.tally == state.tally
    &&& if next < state.funds@.len() {
        &&& res.0.stage matches RoundStage::Fetching { index }
        &&& index == next
        &&& res.1 matches RoundAction::FetchFund { index: i, job_type }
        &&& i == next
        &&& state.funds@[next].enabled
        &&& job_type@ == "fund_poll_fetch:"@ + state.funds@[next].code@
    } else {
        &&& finishes_round(res, state.job_id, state.tally)
        &&& state.tally.succeeded_funds + state.tally.failed_funds == enabled_count(state.funds@)
    }
}

/// Whether `res` finishes the round's record as failed with `message`, to end with `error`.
pub open spec fn fails_round(res: (PollRoundState, RoundAction), job_id: i64, message: Seq<char>, error: Seq<char>) -> bool {
    &&& res.0.stage matches RoundStage::Finishing { outcome: Err(e) }
    &&& e@ == error
    &&& res.1 matches RoundAction::FinishRoundJob { job_id: j, status, message: Some(m) }
    &&& j == job_id
    &&& status@ == "failed"@
    &&& m@ == message
}

/// The first step of a round: create its record.
pub fn poll_round_start() -> (res: (PollRoundState, RoundAction))
    ensures
        res.0.wf(),
        res.0.stage is StartingJob,
        res.0.funds@.len() == 0,
        res.0.tally.succeeded_funds == 0 && res.0.tally.failed_funds == 0,
        res.1 is StartRoundJob,
{
    (
        PollRoundState {
            stage: RoundStage::StartingJob,
            job_id: 0,
            funds: Vec::new(),
            tally: PollRound::new(),
        },
        RoundAction::StartRoundJob,
    )
}

fn go_on(state: PollRoundState, from: usize) -> (res: (PollRoundState, RoundAction))
    requires
        state.tally.wf(),
        from <= state.funds@.len(),
        state.tally.succeeded_funds + state.tally.failed_funds == enabled_count(
            state.funds@.take(from as int),
        ),
    ensures
        res.0.wf(),
        goes_on(res, state, from as int),
{
    proof {
        lemma_next_enabled(state.funds@, from as int);
        assert(state.funds@.take(state.funds@.len() as int) =~= state.funds@);
    }
    let next = find_next_enabled(&state.funds, from);
    if next < state.funds.len() {
        let job_type = fund_poll_job_type(state.funds[next].code.as_str());
        (
            PollRoundState {
                stage: RoundStage::Fetching { index: next },
                job_id: state.job_id,
                funds: state.funds,
                tally: state.tally,
            },
            RoundAction::FetchFund { index: next, job_type },
        )
    } else {
        proof {
            lemma_count_bounded(state.funds@);
        }
        let (summary, message) = state.tally.finish();
        let status = summary.status.clone();
        (
            PollRoundState {
                stage: RoundStage::Finishing { outcome: Ok(summary) },
                job_id: state.job_id,
                funds: state.funds,
                tally: state.tally,
            },
            RoundAction::FinishRoundJob { job_id: state.job_id, status, message },
        )
    }
}

fn fail_round(state: PollRoundState, message: String, error: String) -> (res: (PollRoundState, RoundAction))
    requires
        state.tally.wf(),
    ensures
        res.0.wf(),
        fails_round(res, state.job_id, message@, error@),
        res.0.job_id == state.job_id,
{
    let job_id = state.job_id;
    (
        PollRoundState {
            stage: RoundStage::Finishing { outcome: Err(error) },
            job_id,
            funds: state.funds,
            tally: state.tally,
        },
        RoundAction::FinishRoundJob { job_id, status: String::from_str("failed"), message: Some(message) },
    )
}

/// One step of a round: what `poll_round_step` gives for `event` in `state`.
pub open spec fn round_step_spec(state: PollRoundState, event: RoundEvent, res: (PollRoundState, RoundAction)) -> bool {
    &&& res.0.wf()
    &&& match (state.stage, event) {
        (RoundStage::StartingJob, RoundEvent::JobStarted(id)) => {
            &&& res.0.stage is ListingFunds
            &&& res.0.job_id == id
            &&& res.0.tally == state.tally
            &&& res.1 is ListFunds
        },
        (RoundStage::StartingJob, RoundEvent::StoreFailed(cause)) => {
            &&& res.0.stage is Done
            &&& res.1 matches RoundAction::Stop(Err(e))
            &&& e@ == "创建基金轮询任务记录失败: "@ + cause@
        },
        (RoundStage::ListingFunds, RoundEvent::FundsListed(funds)) => if next_enabled(
            funds@,
            0,
        ) < funds@.len() {
            &&& res.0.stage is ListingRules
            &&& res.0.funds@ == funds@
            &&& res.0.job_id == state.job_id
            &&& res.0.tally == state.tally
            &&& res.1 is ListRules
        } else {
            &&& res.0.stage matches RoundStage::Finishing { outcome: Ok(summary) }
            &&& summary.total_funds == 0 && summary.succeeded_funds == 0 && summary.failed_funds == 0
            &&& summary.status@ == "skipped"@
            &&& res.1 matches RoundAction::FinishRoundJob { job_id, status, message: Some(m) }
            &&& job_id == state.job_id
            &&& status@ == "skipped"@
            &&& m@ == "当前没有启用基金，跳过抓取"@
        },
        (RoundStage::ListingFunds, RoundEvent::StoreFailed(cause)) => fails_round(
            res,
            state.job_id,
            "加载启用基金列表失败："@ + cause@,
            "查询启用基金列表失败: "@ + cause@,
        ),
        (RoundStage::ListingRules, RoundEvent::RulesListed) => goes_on(res, state, 0),
        (RoundStage::ListingRules, RoundEvent::StoreFailed(cause)) => fails_round(
            res,
            state.job_id,
            "加载启用规则失败："@ + cause@,
            "查询启用规则失败: "@ + cause@,
        ),
        (RoundStage::Fetching { index }, RoundEvent::FundDone { rule_error }) => {
            let code = state.funds@[index as int].code@;
            &&& res.0.tally.succeeded_funds == state.tally.succeeded_funds + 1
            &&& res.0.tally.failed_funds == state.tally.failed_funds
            &&& res.0.tally.had_rule_errors == (state.tally.had_rule_errors || rule_error is Some)
            &&& views_of(res.0.tally.failure_messages@) == match rule_error {
                None => views_of(state.tally.failure_messages@),
                Some(e) => views_of(state.tally.failure_messages@).push(code + ": "@ + e@),
            }
            &&& goes_on(res, PollRoundState { tally: res.0.tally, ..state }, index + 1)
        },
        (RoundStage::Fetching { index }, RoundEvent::FundFailed(message)) => {
            let code = state.funds@[index as int].code@;
            &&& res.0.tally.succeeded_funds == state.tally.succeeded_funds
            &&& res.0.tally.failed_funds == state.tally.failed_funds + 1
            &&& res.0.tally.had_rule_errors == state.tally.had_rule_errors
            &&& views_of(res.0.tally.failure_messages@) == views_of(state.tally.failure_messages@).push(
                code + ": "@ + message@,
            )
            &&& goes_on(res, PollRoundState { tally: res.0.tally, ..state }, index + 1)
        },
        (RoundStage::Finishing { outcome }, RoundEvent::StoreDone) => {
            &&& res.0.stage is Done
            &&& res.1 == RoundAction::Stop(outcome)
        },
        (RoundStage::Finishing { .. }, RoundEvent::StoreFailed(cause)) => {
            &&& res.0.stage is Done
            &&& res.1 matches RoundAction::Stop(Err(e))
            &&& e@ == "更新基金轮询任务记录失败，job_id="@ + int_text(state.job_id as int) + ": "@
                + cause@
        },
        (_, _) => res.0 == state && res.1 is Nothing,
    }
}

/// The next step of a round. A round with no enabled fund is finished as `skipped`; a list that
/// cannot be read finishes it as `failed`; each enabled fund is fetched once, in order, and
/// disabled ones never; a failed fund is counted and the round goes on; the round's record is
/// finished with the summary's status.
pub fn poll_round_step(state: PollRoundState, event: RoundEvent) -> (res: (PollRoundState, RoundAction))
    requires
        state.wf(),
    ensures
        round_step_spec(state, event, res),
{
    match (state.stage, event) {
        (RoundStage::StartingJob, RoundEvent::JobStarted(id)) => (
            PollRoundState { stage: RoundStage::ListingFunds, job_id: id, funds: state.funds, tally: state.tally },
            RoundAction::ListFunds,
        ),
        (RoundStage::StartingJob, RoundEvent::StoreFailed(cause)) => (
            PollRoundState { stage: RoundStage::Done, job_id: state.job_id, funds: state.funds, tally: state.tally },
            RoundAction::Stop(Err(concat("创建基金轮询任务记录失败: ", cause.as_str()))),
        ),
        (RoundStage::ListingFunds, RoundEvent::FundsListed(funds)) => {
            proof {
                lemma_next_enabled(funds@, 0);
            }
            let first = find_next_enabled(&funds, 0);
            if first < funds.len() {
                (
                    PollRoundState { stage: RoundStage::ListingRules, job_id: state.job_id, funds, tally: state.tally },
                    RoundAction::ListRules,
                )
            } else {
                let (summary, message) = skipped_round();
                let status = summary.status.clone();
                (
                    PollRoundState {
                        stage: RoundStage::Finishing { outcome: Ok(summary) },
                        job_id: state.job_id,
                        funds,
                        tally: state.tally,
                    },
                    RoundAction::FinishRoundJob { job_id: state.job_id, status, message: Some(message) },
                )
            }
        },
        (RoundStage::ListingFunds, RoundEvent::StoreFailed(cause)) => {
            let message = funds_load_failure_message(cause.as_str());
            let error = concat("查询启用基金列表失败: ", cause.as_str());
            fail_round(PollRoundState { stage: RoundStage::Done, ..state }, message, error)
        },
        (RoundStage::ListingRules, RoundEvent::RulesListed) => {
            assert(state.funds@.take(0) =~= Seq::<Fund>::empty());
            go_on(
                PollRoundState { stage: RoundStage::Done, job_id: state.job_id, funds: state.funds, tally: state.tally },
                0,
            )
        },
        (RoundStage::ListingRules, RoundEvent::StoreFailed(cause)) => {
            let message = rules_load_failure_message(cause.as_str());
            let error = concat("查询启用规则失败: ", cause.as_str());
            fail_round(PollRoundState { stage: RoundStage::Done, ..state }, message, error)
        },
        (RoundStage::Fetching { index }, RoundEvent::FundDone { rule_error }) => {
            let mut tally = state.tally;
            assert(index < state.funds.len());
            proof {
                lemma_count_bounded(state.funds@.take(index as int));
                lemma_count_step(state.funds@, index as int);
            }
            tally.record_fetch_success(state.funds[index].code.as_str(), rule_error);
            go_on(PollRoundState { stage: RoundStage::Done, job_id: state.job_id, funds: state.funds, tally }, index + 1)
        },
        (RoundStage::Fetching { index }, RoundEvent::FundFailed(message)) => {
            let mut tally = state.tally;
            assert(index < state.funds.len());
            proof {
                lemma_count_bounded(state.funds@.take(index as int));
                lemma_count_step(state.funds@, index as int);
            }
            tally.record_fetch_failure(state.funds[index].code.as_str(), message.as_str());
            go_on(PollRoundState { stage: RoundStage::Done, job_id: state.job_id, funds: state.funds, tally }, index + 1)
        },
        (RoundStage::Finishing { outcome }, RoundEvent::StoreDone) => (
            PollRoundState { stage: RoundStage::Done, job_id: state.job_id, funds: state.funds, tally: state.tally },
            RoundAction::Stop(outcome),
        ),
        (RoundStage::Finishing { .. }, RoundEvent::StoreFailed(cause)) => {
            let mut error = concat("更新基金轮询任务记录失败，job_id=", i64_text(state.job_id).as_str());
            error.append(": ");
            error.append(cause.as_str());
            (
                PollRoundState { stage: RoundStage::Done, job_id: state.job_id, funds: state.funds, tally: state.tally },
                RoundAction::Stop(Err(error)),
            )
        },
        (stage, _) => (PollRoundState { stage, ..state }, RoundAction::Nothing),
    }
}

/// The indices of the enabled funds before `k`, in order.
pub open spec fn enabled_before(funds: Seq<Fund>, k: int) -> Seq<int>
    decreases k,
{
    if k <= 0 {
        Seq::empty()
    } else if funds[k - 1].enabled {
        enabled_before(funds, k - 1).push(k - 1)
    } else {
        enabled_before(funds, k - 1)
    }
}

/// The indices of the funds that the actions fetch, in order.
pub open spec fn fetched_funds(actions: Seq<RoundAction>) -> Seq<int>
    decreases actions.len(),
{
    if actions.len() == 0 {
        Seq::empty()
    } else {
        match actions.last() {
            RoundAction::FetchFund { index, .. } => fetched_funds(actions.drop_last()).push(index as int),
            _ => fetched_funds(actions.drop_last()),
        }
    }
}

/// Whether `event` is what the caller reports after doing `action` when the call goes through.
pub open spec fn round_answers(action: RoundAction, event: RoundEvent) -> bool {
    match action {
        RoundAction::StartRoundJob => event is JobStarted,
        RoundAction::ListFunds => event is FundsListed,
        RoundAction::ListRules => event is RulesListed,
        RoundAction::FetchFund { .. } => event is FundDone || event is FundFailed,
        RoundAction::FinishRoundJob { .. } => event is StoreDone,
        _ => false,
    }
}

/// Whether event `i` of a run answers action `i` and moves the round from state `i` to state
/// `i + 1` with action `i + 1`.
pub open spec fn round_moves(
    states: Seq<PollRoundState>,
    events: Seq<RoundEvent>,
    actions: Seq<RoundAction>,
    i: int,
) -> bool {
    &&& round_answers(actions[i], events[i])
    &&& round_step_spec(states[i], events[i], (states[i + 1], actions[i + 1]))
}

/// Whether `states`, `events` and `actions` are a run of a round in which every store call goes
/// through: it starts as `poll_round_start` does, and each event answers the action before it
/// and moves the round on as `poll_round_step` does.
pub open spec fn round_run(states: Seq<PollRoundState>, events: Seq<RoundEvent>, actions: Seq<RoundAction>) -> bool {
    &&& states.len() == events.len() + 1
    &&& actions.len() == events.len() + 1
    &&& states[0].wf()
    &&& states[0].stage is StartingJob
    &&& actions[0] is StartRoundJob
    &&& forall|i: int| 0 <= i < events.len() ==> #[trigger] round_moves(states, events, actions, i)
}

/// What the summary of a finished round over `funds` says: every enabled fund counted once, as
/// a success or a failure, and `skipped` exactly when no fund is enabled.
pub open spec fn summary_covers(funds: Seq<Fund>, s: PollFundsSummary) -> bool {
    &&& s.total_funds == s.succeeded_funds + s.failed_funds
    &&& s.total_funds == enabled_count(funds)
    &&& (s.status@ == "skipped"@ <==> enabled_count(funds) == 0)
}

/// Where a round over `funds` stands after `k` steps, given the funds fetched so far.
pub open spec fn round_progress(funds: Seq<Fund>, k: int, state: PollRoundState, action: RoundAction, fetched: Seq<int>) -> bool {
    match state.stage {
        RoundStage::StartingJob => k == 0 && action is StartRoundJob && fetched.len() == 0,
        RoundStage::ListingFunds => k == 1 && action is ListFunds && fetched.len() == 0,
        RoundStage::ListingRules => {
            &&& action is ListRules
            &&& fetched.len() == 0
            &&& state.funds@ == funds
            &&& next_enabled(funds, 0) < funds.len()
        },
        RoundStage::Fetching { index } => {
            &&& state.funds@ == funds
            &&& action matches RoundAction::FetchFund { index: i, job_type }
            &&& i == index
            &&& job_type@ == "fund_poll_fetch:"@ + funds[index as int].code@
            &&& fetched == enabled_before(funds, index + 1)
        },
        RoundStage::Finishing { outcome } => {
            &&& outcome matches Ok(s)
            &&& summary_covers(funds, s)
            &&& action matches RoundAction::FinishRoundJob { status, .. }
            &&& status@ == s.status@
            &&& fetched == enabled_before(funds, funds.len() as int)
        },
        RoundStage::Done => {
            &&& action matches RoundAction::Stop(Ok(s))
            &&& summary_covers(funds, s)
            &&& fetched == enabled_before(funds, funds.len() as int)
        },
    }
}

proof fn lemma_enabled_before_skips(funds: Seq<Fund>, from: int)
    requires
        0 <= from <= funds.len(),
    ensures
        enabled_before(funds, next_enabled(funds, from)) == enabled_before(funds, from),
    decreases funds.len() - from,
{
    if from < funds.len() && !funds[from].enabled {
        lemma_enabled_before_skips(funds, from + 1);
    }
}

proof fn lemma_fetched_step(actions: Seq<RoundAction>, k: int)
    requires
        0 <= k,
        k + 1 < actions.len(),
    ensures
        fetched_funds(actions.take(k + 2)) == match actions[k + 1] {
            RoundAction::FetchFund { index, .. } => fetched_funds(actions.take(k + 1)).push(index as int),
            _ => fetched_funds(actions.take(k + 1)),
        },
{
    assert(actions.take(k + 2).drop_last() =~= actions.take(k + 1));
    assert(actions.take(k + 2).last() == actions[k + 1]);
}

proof fn lemma_round_progress(
    funds: Seq<Fund>,
    states: Seq<PollRoundState>,
    events: Seq<RoundEvent>,
    actions: Seq<RoundAction>,
    k: int,
)
    requires
        round_run(states, events, actions),
        events.len() >= 2,
        events[1] matches RoundEvent::FundsListed(listed) && listed@ == funds,
        0 <= k < states.len(),
    ensures
        states[k].wf(),
        round_progress(funds, k, states[k], actions[k], fetched_funds(actions.take(k + 1))),
    decreases k,
{
    if k == 0 {
        let first = actions.take(1);
        assert(first.drop_last() =~= Seq::<RoundAction>::empty());
        assert(first.last() == actions[0]);
        assert(fetched_funds(first.drop_last()).len() == 0);
    } else {
        let j = k - 1;
        lemma_round_progress(funds, states, events, actions, j);
        assert(round_moves(states, events, actions, j));
        lemma_fetched_step(actions, j);
        let state = states[j];
        match state.stage {
            RoundStage::ListingFunds => {
                lemma_next_enabled(funds, 0);
                lemma_enabled_before_skips(funds, 0);
                assert(funds.take(funds.len() as int) =~= funds);
                assert(funds.take(0) =~= Seq::<Fund>::empty());
                assert(fetched_funds(actions.take(k)).len() == 0);
                assert(fetched_funds(actions.take(k + 1)).len() == 0);
                if next_enabled(funds, 0) == funds.len() {
                    assert(fetched_funds(actions.take(k + 1)) =~= enabled_before(funds, funds.len() as int));
                }
            },
            RoundStage::ListingRules => {
                lemma_enabled_before_skips(funds, 0);
                let next = next_enabled(funds, 0);
                assert(enabled_before(funds, next + 1) == enabled_before(funds, next).push(next));
                assert(fetched_funds(actions.take(k)).len() == 0);
                assert(fetched_funds(actions.take(k + 1)) =~= enabled_before(funds, next + 1));
            },
            RoundStage::Fetching { index } => {
                lemma_enabled_before_skips(funds, index + 1);
                lemma_next_enabled(funds, index + 1);
                reveal_strlit("success");
                reveal_strlit("failed");
                reveal_strlit("partial_success");
                reveal_strlit("skipped");
                assert("success"@[1] != "skipped"@[1]);
                assert("success"@ != "skipped"@);
                assert("partial_success"@ != "skipped"@);
                assert("failed"@ != "skipped"@);
                let next = next_enabled(funds, index + 1);
                if next < funds.len() {
                    assert(fetched_funds(actions.take(k + 1)) == enabled_before(funds, index + 1).push(next));
                    assert(enabled_before(funds, next + 1) == enabled_before(funds, next).push(next));
                } else {
                    assert(actions[k] is FinishRoundJob);
                    assert(next == funds.len());
                    assert(fetched_funds(actions.take(k + 1)) == fetched_funds(actions.take(k)));
                    assert(fetched_funds(actions.take(k)) == enabled_before(funds, index + 1));
                    assert(fetched_funds(actions.take(k + 1)) == enabled_before(funds, funds.len() as int));
                }
            },
            _ => {},
        }
    }
}

/// A round in which every store call goes through and the active funds are `funds` ends with a
/// summary that counts every enabled fund once, as a success or a failure, and is `skipped`
/// exactly when no fund is enabled; it fetches each enabled fund once, in order, as a job named
/// after the fund's code, and no disabled fund; and it finishes its record with the summary's
/// status before it ends.
pub proof fn law_round_fetches_each_enabled_fund_once(
    funds: Seq<Fund>,
    states: Seq<PollRoundState>,
    events: Seq<RoundEvent>,
    actions: Seq<RoundAction>,
)
    requires
        round_run(states, events, actions),
        events.len() >= 2,
        events[1] matches RoundEvent::FundsListed(listed) && listed@ == funds,
        states.last().stage is Done,
    ensures
        ({
            &&& actions.last() matches RoundAction::Stop(Ok(s))
            &&& summary_covers(funds, s)
            &&& actions[actions.len() - 2] matches RoundAction::FinishRoundJob { status, .. }
            &&& status@ == s.status@
        }),
        fetched_funds(actions) == enabled_before(funds, funds.len() as int),
        forall|i: int|
            0 <= i < actions.len() ==> (#[trigger] actions[i] matches RoundAction::FetchFund { index, job_type }
                ==> index < funds.len() && funds[index as int].enabled
                && job_type@ == "fund_poll_fetch:"@ + funds[index as int].code@),
{
    let m = events.len() as int;
    lemma_round_progress(funds, states, events, actions, m);
    lemma_round_progress(funds, states, events, actions, m - 1);
    assert(round_moves(states, events, actions, m - 1));
    assert(actions.take(m + 1) =~= actions);
    assert forall|i: int|
        0 <= i < actions.len() implies (#[trigger] actions[i] matches RoundAction::FetchFund { index, job_type }
            ==> index < funds.len() && funds[index as int].enabled
            && job_type@ == "fund_poll_fetch:"@ + funds[index as int].code@) by {
        if actions[i] is FetchFund {
            lemma_round_progress(funds, states, events, actions, i);
            if i > 0 {
                assert(round_moves(states, events, actions, i - 1));
            }
        }
    }
}

} // verus!
