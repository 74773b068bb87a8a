//! Checking the enabled rules for a fund whose quote was just stored: each rule is judged on
//! its own; a fired rule's alert is written, sent (where a notifier is set), its notification
//! result saved, and the rule marked as triggered, in that order. The first failed store call
//! stops the checks. The caller makes each call and reports how it went.

use vstd::prelude::*;
use crate::domain::alert_event::NewAlertEvent;
use crate::domain::fund::Fund;
use crate::domain::fund_quote::FundQuote;
use crate::domain::monitor_rule::MonitorRule;
use crate::domain::rule_engine::{
    RuleOutcome, ThresholdBounds, rule_outcome, reaches_cooldown, cooldown_computable,
    NANOS_PER_MINUTE, law_cooldown_holds_back_repeats,
};
use crate::jobs::poll_funds::{
    RuleCheckStep, check_rule_for_fund, notification_result_text, rule_check_context,
    rule_check_failure, rule_failure_text,
};

verus! {

/// What the checks of one fund read: the fund, its new quote, the enabled rules with the bounds
/// read from each one's configuration, and whether a notifier is set.
#[derive(Debug, Clone)]
pub struct RuleCheckInput {
    pub fund: Fund,
    pub quote: FundQuote,
    pub rules: Vec<MonitorRule>,
    pub thresholds: Vec<Result<ThresholdBounds, String>>,
    pub notify: bool,
}

impl RuleCheckInput {
    /// One set of bounds per rule, and a consistent quote.
    pub open spec fn wf(&self) -> bool {
        &&& self.thresholds@.len() == self.rules@.len()
        &&& self.quote.wf()
    }
}

/// Where the checks stand; `index` is the rule at hand.
#[derive(Debug, Clone, Copy, PartialEq, Eq, Structural)]
pub enum RuleCheckState {
    /// Its last alert for the fund is being read.
    Reading { index: usize },
    /// Its new alert is being written.
    Writing { index: usize, triggered_at: i128 },
    /// Its new alert is being sent.
    Sending { index: usize, alert_id: i64, triggered_at: i128 },
    /// The notification result is being saved.
    Saving { index: usize, alert_id: i64, triggered_at: i128 },
    /// The rule is being marked as triggered.
    Marking { index: usize },
    /// Nothing is left to do.
    Done,
}

/// What the caller reports.
#[derive(Debug)]
pub enum RuleCheckEvent {
    /// The time of the rule's last alert for the fund, if any.
    LastAlert(Option<i128>),
    /// The alert was written with this id.
    AlertWritten { alert_id: i64 },
    /// The notifier's receipt, or its error.
    Sent(Result<String, String>),
    /// The last store call went through.
    StoreDone,
    /// The last store call failed, in the store's own words.
    StoreFailed(String),
}

/// What the caller does next.
#[derive(Debug)]
pub enum RuleCheckAction {
    /// Read the last alert of the rule for the fund.
    ReadLastAlert { rule_id: i64, fund_id: i64 },
    /// Write this alert.
    WriteAlert(NewAlertEvent),
    /// Send alert `alert_id`, raised by rule `rule_index`.
    SendAlert { alert_id: i64, rule_index: usize },
    /// Save this notification result on alert `alert_id`.
    SaveResult { alert_id: i64, result: String },
    /// Record that the rule fired at `triggered_at`.
    MarkTriggered { rule_id: i64, triggered_at: i128 },
    /// The checks are over: all went through, or this failure stopped them.
    Finish(Result<(), String>),
    /// The event does not belong to this state; nothing to do.
    Nothing,
}

/// Whether the state names a rule of the input.
pub open spec fn state_fits(input: RuleCheckInput, state: RuleCheckState) -> bool {
    match state {
        RuleCheckState::Reading { index } => index < input.rules@.len(),
        RuleCheckState::Writing { index, .. } => index < input.rules@.len(),
        RuleCheckState::Sending { index, .. } => index < input.rules@.len(),
        RuleCheckState::Saving { index, .. } => index < input.rules@.len(),
        RuleCheckState::Marking { index } => index < input.rules@.len(),
        RuleCheckState::Done => true,
    }
}

/// Whether `res` moves on to rule `next`: reading its last alert, or finishing when no rule is
/// left.
pub open spec fn moves_to(input: RuleCheckInput, next: int, res: (RuleCheckState, RuleCheckAction)) -> bool {
    if next < input.rules@.len() {
        &&& res.0 == (RuleCheckState::Reading { index: next as usize })
        &&& res.1 matches RuleCheckAction::ReadLastAlert { rule_id, fund_id }
        &&& rule_id == input.rules@[next].id
        &&& fund_id == input.fund.id
    } else {
        &&& res.0 == RuleCheckState::Done
        &&& res.1 matches RuleCheckAction::Finish(Ok(()))
    }
}

/// Whether `res` stops the checks with `text`.
pub open spec fn stops_with(res: (RuleCheckState, RuleCheckAction), text: Seq<char>) -> bool {
    &&& res.0 == RuleCheckState::Done
    &&& res.1 matches RuleCheckAction::Finish(Err(e))
    &&& e@ == text
}

/// Whether the cooldown of rule `index` can be computed where judging it reaches the cooldown.
pub open spec fn cooldown_ready(input: RuleCheckInput, index: int, last_alert_at: Option<i128>) -> bool {
    reaches_cooldown(input.rules@[index], input.fund, input.quote, input.thresholds@[index])
        ==> cooldown_computable(input.rules@[index].cooldown_minutes, last_alert_at)
}

fn move_to(input: &RuleCheckInput, next: usize) -> (res: (RuleCheckState, RuleCheckAction))
    ensures
        moves_to(*input, next as int, res),
{
    if next < input.rules.len() {
        (
            RuleCheckState::Reading { index: next },
            RuleCheckAction::ReadLastAlert { rule_id: input.rules[next].id, fund_id: input.fund.id },
        )
    } else {
        (RuleCheckState::Done, RuleCheckAction::Finish(Ok(())))
    }
}

fn stop(text: String) -> (res: (RuleCheckState, RuleCheckAction))
    ensures
        stops_with(res, text@),
{
    (RuleCheckState::Done, RuleCheckAction::Finish(Err(text)))
}

/// The first step: reading the last alert of the first rule, or finishing when there is none.
pub fn rule_check_start(input: &RuleCheckInput) -> (res: (RuleCheckState, RuleCheckAction))
    ensures
        moves_to(*input, 0, res),
{
    move_to(input, 0)
}

/// One step of the checks: what `rule_check_step` gives for `event` in `state`.
pub open spec fn rule_check_spec(
    input: RuleCheckInput,
    state: RuleCheckState,
    event: RuleCheckEvent,
    res: (RuleCheckState, RuleCheckAction),
) -> bool {
    &&& state_fits(input, res.0)
    &&& match (state, event) {
        (RuleCheckState::Reading { index }, RuleCheckEvent::LastAlert(last)) => {
            let rule = input.rules@[index as int];
            match rule_outcome(rule, input.fund, input.quote, last, input.thresholds@[index as int]) {
                RuleOutcome::Quiet => moves_to(input, index + 1, res),
                RuleOutcome::Fired(reason) => {
                    &&& res.0 == (RuleCheckState::Writing {
                        index,
                        triggered_at: input.quote.fetched_at,
                    })
                    &&& res.1 matches RuleCheckAction::WriteAlert(alert)
                    &&& alert.rule_id == rule.id
                    &&& alert.fund_id == input.fund.id
                    &&& alert.reason@ == reason
                    &&& alert.status@ == "new"@
                    &&& alert.triggered_at == input.quote.fetched_at
                    &&& alert.notification_result is None
                },
                RuleOutcome::Faulted(fault) => stops_with(
                    res,
                    rule_failure_text(rule.id, input.fund.id, fault),
                ),
            }
        },
        (RuleCheckState::Reading { index }, RuleCheckEvent::StoreFailed(cause)) => stops_with(
            res,
            rule_check_context(
                RuleCheckStep::LatestAlert {
                    rule_id: input.rules@[index as int].id,
                    fund_id: input.fund.id,
                },
            ) + ": "@ + cause@,
        ),
        (RuleCheckState::Writing { index, triggered_at }, RuleCheckEvent::AlertWritten {
            alert_id,
        }) => if input.notify {
            &&& res.0 == (RuleCheckState::Sending { index, alert_id, triggered_at })
            &&& res.1 matches RuleCheckAction::SendAlert { alert_id: a, rule_index }
            &&& a == alert_id
            &&& rule_index == index
        } else {
            &&& res.0 == (RuleCheckState::Marking { index })
            &&& res.1 matches RuleCheckAction::MarkTriggered { rule_id, triggered_at: t }
            &&& rule_id == input.rules@[index as int].id
            &&& t == triggered_at
        },
        (RuleCheckState::Writing { index, .. }, RuleCheckEvent::StoreFailed(cause)) => stops_with(
            res,
            rule_check_context(
                RuleCheckStep::WriteAlert {
                    rule_id: input.rules@[index as int].id,
                    fund_id: input.fund.id,
                },
            ) + ": "@ + cause@,
        ),
        (RuleCheckState::Sending { index, alert_id, triggered_at }, RuleCheckEvent::Sent(
            outcome,
        )) => {
            &&& res.0 == (RuleCheckState::Saving { index, alert_id, triggered_at })
            &&& res.1 matches RuleCheckAction::SaveResult { alert_id: a, result }
            &&& a == alert_id
            &&& result@ == match outcome {
                Ok(receipt) => receipt@,
                Err(e) => "telegram 发送失败："@ + e@,
            }
        },
        (RuleCheckState::Saving { index, triggered_at, .. }, RuleCheckEvent::StoreDone) => {
            &&& res.0 == (RuleCheckState::Marking { index })
            &&& res.1 matches RuleCheckAction::MarkTriggered { rule_id, triggered_at: t }
            &&& rule_id == input.rules@[index as int].id
            &&& t == triggered_at
        },
        (RuleCheckState::Saving { alert_id, .. }, RuleCheckEvent::StoreFailed(cause)) => stops_with(
            res,
            rule_check_context(RuleCheckStep::SaveNotification { alert_id, fund_id: input.fund.id })
                + ": "@ + cause@,
        ),
        (RuleCheckState::Marking { index }, RuleCheckEvent::StoreDone) => moves_to(
            input,
            index + 1,
            res,
        ),
        (RuleCheckState::Marking { index }, RuleCheckEvent::StoreFailed(cause)) => stops_with(
            res,
            rule_check_context(RuleCheckStep::MarkTriggered { rule_id: input.rules@[index as int].id })
                + ": "@ + cause@,
        ),
        (s, _) => res.0 == s && res.1 is Nothing,
    }
}

/// The next step of the checks of a fund.
pub fn rule_check_step(input: &RuleCheckInput, state: RuleCheckState, event: RuleCheckEvent) -> (res: (
    RuleCheckState,
    RuleCheckAction,
))
    requires
        input.wf(),
        state_fits(*input, state),
        state matches RuleCheckState::Reading { index } ==> (event matches RuleCheckEvent::LastAlert(
            last,
        ) ==> cooldown_ready(*input, index as int, last)),
    ensures
        rule_check_spec(*input, state, event, res),
{
    match (state, event) {
        (RuleCheckState::Reading { index }, RuleCheckEvent::LastAlert(last)) => {
            let rule = &input.rules[index];
            match check_rule_for_fund(rule, &input.fund, &input.quote, last, &input.thresholds[index]) {
                Ok(None) => {
                    assert(index < input.rules.len());
                    move_to(input, index + 1)
                },
                Ok(Some(alert)) => (
                    RuleCheckState::Writing { index, triggered_at: input.quote.fetched_at },
                    RuleCheckAction::WriteAlert(alert),
                ),
                Err(text) => stop(text),
            }
        },
        (RuleCheckState::Reading { index }, RuleCheckEvent::StoreFailed(cause)) => stop(
            rule_check_failure(
                RuleCheckStep::LatestAlert { rule_id: input.rules[index].id, fund_id: input.fund.id },
                cause.as_str(),
            ),
        ),
        (RuleCheckState::Writing { index, triggered_at }, RuleCheckEvent::AlertWritten { alert_id }) => {
            if input.notify {
                (
                    RuleCheckState::Sending { index, alert_id, triggered_at },
                    RuleCheckAction::SendAlert { alert_id, rule_index: index },
                )
            } else {
                (
                    RuleCheckState::Marking { index },
                    RuleCheckAction::MarkTriggered { rule_id: input.rules[index].id, triggered_at },
                )
            }
        },
        (RuleCheckState::Writing { index, .. }, RuleCheckEvent::StoreFailed(cause)) => stop(
            rule_check_failure(
                RuleCheckStep::WriteAlert { rule_id: input.rules[index].id, fund_id: input.fund.id },
                cause.as_str(),
            ),
        ),
        (RuleCheckState::Sending { index, alert_id, triggered_at }, RuleCheckEvent::Sent(outcome)) => {
            let result = match notification_result_text(Some(outcome)) {
                Some(r) => r,
                None => String::new(),
            };
            (
                RuleCheckState::Saving { index, alert_id, triggered_at },
                RuleCheckAction::SaveResult { alert_id, result },
            )
        },
        (RuleCheckState::Saving { index, triggered_at, .. }, RuleCheckEvent::StoreDone) => (
            RuleCheckState::Marking { index },
            RuleCheckAction::MarkTriggered { rule_id: input.rules[index].id, triggered_at },
        ),
        (RuleCheckState::Saving { alert_id, .. }, RuleCheckEvent::StoreFailed(cause)) => stop(
            rule_check_failure(
                RuleCheckStep::SaveNotification { alert_id, fund_id: input.fund.id },
                cause.as_str(),
            ),
        ),
        (RuleCheckState::Marking { index }, RuleCheckEvent::StoreDone) => {
            assert(index < input.rules.len());
            move_to(input, index + 1)
        },
        (RuleCheckState::Marking { index }, RuleCheckEvent::StoreFailed(cause)) => stop(
            rule_check_failure(RuleCheckStep::MarkTriggered { rule_id: input.rules[index].id }, cause.as_str()),
        ),
        (s, _) => (s, RuleCheckAction::Nothing),
    }
}

/// Whether `action` marks a rule as triggered at the time of the input's quote.
pub open spec fn marks_at_quote_time(input: RuleCheckInput, action: RuleCheckAction) -> bool {
    &&& action matches RuleCheckAction::MarkTriggered { triggered_at, .. }
    &&& triggered_at == input.quote.fetched_at
}

/// Whether `event` is what the caller reports after doing `action` when the call goes through.
pub open spec fn rule_check_answers(action: RuleCheckAction, event: RuleCheckEvent) -> bool {
    match action {
        RuleCheckAction::ReadLastAlert { .. } => event is LastAlert,
        RuleCheckAction::WriteAlert(_) => event is AlertWritten,
        RuleCheckAction::SendAlert { .. } => event is Sent,
        RuleCheckAction::SaveResult { .. } => event is StoreDone,
        RuleCheckAction::MarkTriggered { .. } => event is StoreDone,
        _ => false,
    }
}

/// Whether event `i` of a run answers action `i` and moves the checks from state `i` to state
/// `i + 1` with action `i + 1`.
pub open spec fn rule_check_moves(
    input: RuleCheckInput,
    states: Seq<RuleCheckState>,
    events: Seq<RuleCheckEvent>,
    actions: Seq<RuleCheckAction>,
    i: int,
) -> bool {
    &&& rule_check_answers(actions[i], events[i])
    &&& rule_check_spec(input, states[i], events[i], (states[i + 1], actions[i + 1]))
}

/// Whether `states`, `events` and `actions` are a run of the checks of `input` in which every
/// store call goes through: it starts as `rule_check_start` does, and each event answers the
/// action before it and moves the checks on as `rule_check_step` does.
pub open spec fn rule_check_run(
    input: RuleCheckInput,
    states: Seq<RuleCheckState>,
    events: Seq<RuleCheckEvent>,
    actions: Seq<RuleCheckAction>,
) -> bool {
    &&& states.len() == events.len() + 1
    &&& actions.len() == events.len() + 1
    &&& moves_to(input, 0, (states[0], actions[0]))
    &&& forall|i: int| 0 <= i < events.len() ==> #[trigger] rule_check_moves(input, states, events, actions, i)
}

/// Whether no rule of a run is refused: the configuration of every rule judged can be read.
pub open spec fn no_rule_faults(input: RuleCheckInput, states: Seq<RuleCheckState>, events: Seq<RuleCheckEvent>) -> bool {
    forall|i: int|
        0 <= i < events.len() ==> (#[trigger] states[i] matches RuleCheckState::Reading { index } ==> (
        events[i] matches RuleCheckEvent::LastAlert(last) ==> !(rule_outcome(
            input.rules@[index as int],
            input.fund,
            input.quote,
            last,
            input.thresholds@[index as int],
        ) is Faulted)))
}

/// The indices of the rules whose last alert the states read, in order.
pub open spec fn rules_read(states: Seq<RuleCheckState>) -> Seq<int>
    decreases states.len(),
{
    if states.len() == 0 {
        Seq::empty()
    } else {
        match states.last() {
            RuleCheckState::Reading { index } => rules_read(states.drop_last()).push(index as int),
            _ => rules_read(states.drop_last()),
        }
    }
}

/// The first `n` rule indices, in order.
pub open spec fn first_rules(n: int) -> Seq<int> {
    Seq::new(n as nat, |i: int| i)
}

/// Where the checks stand after a step, given the rules read so far.
pub open spec fn rule_check_progress(input: RuleCheckInput, state: RuleCheckState, action: RuleCheckAction, read: Seq<int>) -> bool {
    match state {
        RuleCheckState::Reading { index } => action is ReadLastAlert && read == first_rules(index + 1),
        RuleCheckState::Writing { index, triggered_at } => {
            &&& action is WriteAlert
            &&& triggered_at == input.quote.fetched_at
            &&& read == first_rules(index + 1)
        },
        RuleCheckState::Sending { index, triggered_at, .. } => {
            &&& action is SendAlert
            &&& triggered_at == input.quote.fetched_at
            &&& read == first_rules(index + 1)
        },
        RuleCheckState::Saving { index, triggered_at, .. } => {
            &&& action is SaveResult
            &&& triggered_at == input.quote.fetched_at
            &&& read == first_rules(index + 1)
        },
        RuleCheckState::Marking { index } => action is MarkTriggered && read == first_rules(index + 1),
        RuleCheckState::Done => {
            &&& action matches RuleCheckAction::Finish(Ok(_))
            &&& read == first_rules(input.rules@.len() as int)
        },
    }
}

proof fn lemma_rules_read_step(states: Seq<RuleCheckState>, k: int)
    requires
        0 <= k,
        k + 1 < states.len(),
    ensures
        rules_read(states.take(k + 2)) == match states[k + 1] {
            RuleCheckState::Reading { index } => rules_read(states.take(k + 1)).push(index as int),
            _ => rules_read(states.take(k + 1)),
        },
{
    assert(states.take(k + 2).drop_last() =~= states.take(k + 1));
    assert(states.take(k + 2).last() == states[k + 1]);
}

proof fn lemma_rule_check_progress(
    input: RuleCheckInput,
    states: Seq<RuleCheckState>,
    events: Seq<RuleCheckEvent>,
    actions: Seq<RuleCheckAction>,
    k: int,
)
    requires
        input.wf(),
        rule_check_run(input, states, events, actions),
        no_rule_faults(input, states, events),
        0 <= k < states.len(),
    ensures
        state_fits(input, states[k]),
        rule_check_progress(input, states[k], actions[k], rules_read(states.take(k + 1))),
    decreases k,
{
    if k == 0 {
        let first = states.take(1);
        assert(first.drop_last() =~= Seq::<RuleCheckState>::empty());
        assert(first.last() == states[0]);
        assert(rules_read(first.drop_last()).len() == 0);
        assert(rules_read(first) =~= first_rules(if states[0] is Done {
            input.rules@.len() as int
        } else {
            1
        }));
    } else {
        let j = k - 1;
        lemma_rule_check_progress(input, states, events, actions, j);
        assert(rule_check_moves(input, states, events, actions, j));
        lemma_rules_read_step(states, j);
        match states[j] {
            RuleCheckState::Reading { index } => {
                assert(first_rules(index + 1).push(index + 1) =~= first_rules(index + 2));
                assert(input.rules@.len() == input.rules.len());
            },
            RuleCheckState::Marking { index } => {
                assert(first_rules(index + 1).push(index + 1) =~= first_rules(index + 2));
                assert(input.rules@.len() == input.rules.len());
            },
            _ => {},
        }
    }
}

/// The checks of a fund in which every store call goes through and every rule's configuration
/// can be read end in success, having read each rule's last alert once, in order. A rule that
/// fires has its alert written (for the rule, the fund, with the rule's reason, `new`, at the
/// quote's time); the alert is then sent when a notifier is set, and its notification result
/// saved, and the rule is then marked as triggered at the quote's time; a rule that does not
/// fire writes no alert.
pub proof fn law_each_rule_checked_once_in_order(
    input: RuleCheckInput,
    states: Seq<RuleCheckState>,
    events: Seq<RuleCheckEvent>,
    actions: Seq<RuleCheckAction>,
)
    requires
        input.wf(),
        rule_check_run(input, states, events, actions),
        no_rule_faults(input, states, events),
        states.last() is Done,
    ensures
        actions.last() matches RuleCheckAction::Finish(Ok(_)),
        rules_read(states) == first_rules(input.rules@.len() as int),
        forall|i: int|
            0 <= i < events.len() ==> (#[trigger] states[i] matches RuleCheckState::Reading { index } ==> (
            events[i] matches RuleCheckEvent::LastAlert(last) ==> match rule_outcome(
                input.rules@[index as int],
                input.fund,
                input.quote,
                last,
                input.thresholds@[index as int],
            ) {
                RuleOutcome::Fired(reason) => actions[i + 1] matches RuleCheckAction::WriteAlert(alert)
                    && alert.rule_id == input.rules@[index as int].id && alert.fund_id == input.fund.id
                    && alert.reason@ == reason && alert.status@ == "new"@
                    && alert.triggered_at == input.quote.fetched_at,
                _ => !(actions[i + 1] is WriteAlert),
            })),
        forall|i: int|
            1 <= i < actions.len() ==> (#[trigger] actions[i] is WriteAlert ==> i + 1 < actions.len() && if input.notify {
                actions[i + 1] is SendAlert
            } else {
                marks_at_quote_time(input, actions[i + 1])
            }),
        forall|i: int|
            1 <= i < actions.len() ==> (#[trigger] actions[i] is SendAlert ==> i + 1 < actions.len()
                && actions[i + 1] is SaveResult),
        forall|i: int|
            1 <= i < actions.len() ==> (#[trigger] actions[i] is SaveResult ==> i + 1 < actions.len()
                && marks_at_quote_time(input, actions[i + 1])),
{
    let m = events.len() as int;
    lemma_rule_check_progress(input, states, events, actions, m);
    assert(states.take(m + 1) =~= states);
    assert forall|i: int|
        0 <= i < events.len() implies (#[trigger] states[i] matches RuleCheckState::Reading { index } ==> (
        events[i] matches RuleCheckEvent::LastAlert(last) ==> match rule_outcome(
            input.rules@[index as int],
            input.fund,
            input.quote,
            last,
            input.thresholds@[index as int],
        ) {
            RuleOutcome::Fired(reason) => actions[i + 1] matches RuleCheckAction::WriteAlert(alert)
                && alert.rule_id == input.rules@[index as int].id && alert.fund_id == input.fund.id
                && alert.reason@ == reason && alert.status@ == "new"@
                && alert.triggered_at == input.quote.fetched_at,
            _ => !(actions[i + 1] is WriteAlert),
        })) by {
        assert(rule_check_moves(input, states, events, actions, i));
    }
    assert forall|i: int|
        1 <= i < actions.len() implies (#[trigger] actions[i] is WriteAlert ==> i + 1 < actions.len() && if input.notify {
            actions[i + 1] is SendAlert
        } else {
            marks_at_quote_time(input, actions[i + 1])
        }) by {
        if actions[i] is WriteAlert {
            lemma_rule_check_progress(input, states, events, actions, i);
            assert(i < m);
            assert(rule_check_moves(input, states, events, actions, i));
        }
    }
    assert forall|i: int|
        1 <= i < actions.len() implies (#[trigger] actions[i] is SendAlert ==> i + 1 < actions.len()
            && actions[i + 1] is SaveResult) by {
        if actions[i] is SendAlert {
            lemma_rule_check_progress(input, states, events, actions, i);
            assert(i < m);
            assert(rule_check_moves(input, states, events, actions, i));
        }
    }
    assert forall|i: int|
        1 <= i < actions.len() implies (#[trigger] actions[i] is SaveResult ==> i + 1 < actions.len()
            && marks_at_quote_time(input, actions[i + 1])) by {
        if actions[i] is SaveResult {
            lemma_rule_check_progress(input, states, events, actions, i);
            assert(i < m);
            assert(rule_check_moves(input, states, events, actions, i));
        }
    }
}

/// A rule that fired in one round's checks of a fund, with a positive cooldown, writes no new
/// alert in a later round's checks of the same fund whose quote was fetched before the cooldown
/// has passed since that alert, when the later round reads that alert as the rule's last one.
pub proof fn law_fired_rule_held_back_in_later_round(
    first: RuleCheckInput,
    states: Seq<RuleCheckState>,
    events: Seq<RuleCheckEvent>,
    actions: Seq<RuleCheckAction>,
    i: int,
    later: RuleCheckInput,
    later_states: Seq<RuleCheckState>,
    later_events: Seq<RuleCheckEvent>,
    later_actions: Seq<RuleCheckAction>,
    j: int,
)
    requires
        first.wf(),
        rule_check_run(first, states, events, actions),
        0 <= i < events.len(),
        later.wf(),
        rule_check_run(later, later_states, later_events, later_actions),
        0 <= j < later_events.len(),
        states[i] matches RuleCheckState::Reading { index } && ({
            &&& later_states[j] matches RuleCheckState::Reading { index: later_index }
            &&& later.rules@[later_index as int] == first.rules@[index as int]
            &&& later.thresholds@[later_index as int] == first.thresholds@[index as int]
            &&& first.rules@[index as int].cooldown_minutes > 0
        }),
        later.fund == first.fund,
        actions[i + 1] matches RuleCheckAction::WriteAlert(alert) && ({
            &&& later_events[j] == RuleCheckEvent::LastAlert(Some(alert.triggered_at))
            &&& later.quote.fetched_at < alert.triggered_at + first.rules@[alert_rule_index(states[i])].cooldown_minutes
                * NANOS_PER_MINUTE
        }),
    ensures
        !(later_actions[j + 1] is WriteAlert),
{
    assert(rule_check_moves(first, states, events, actions, i));
    assert(rule_check_moves(later, later_states, later_events, later_actions, j));
    let index = alert_rule_index(states[i]);
    let later_index = alert_rule_index(later_states[j]);
    let last = events[i]->LastAlert_0;
    law_cooldown_holds_back_repeats(
        first.rules@[index],
        first.fund,
        first.quote,
        later.quote,
        last,
        first.thresholds@[index],
    );
}

/// The rule at hand in a state (`0` when the checks are done).
pub open spec fn alert_rule_index(state: RuleCheckState) -> int {
    match state {
        RuleCheckState::Reading { index } => index as int,
        RuleCheckState::Writing { index, .. } => index as int,
        RuleCheckState::Sending { index, .. } => index as int,
        RuleCheckState::Saving { index, .. } => index as int,
        RuleCheckState::Marking { index } => index as int,
        RuleCheckState::Done => 0,
    }
}

} // verus!
