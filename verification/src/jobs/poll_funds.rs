//! Accounting of a polling round: which funds were fetched, which failed, and what the round
//! reports.

use vstd::prelude::*;
use crate::text::{concat, concat3, join, join_seq, views_of, usize_text, int_text, i64_text};
use crate::domain::alert_event::NewAlertEvent;
use crate::domain::fund::Fund;
use crate::domain::fund_quote::FundQuote;
use crate::domain::monitor_rule::MonitorRule;
use crate::domain::rule_engine::{
    RuleEngine, RuleFault, RuleOutcome, ThresholdBounds, rule_outcome, rule_fault_message,
    reaches_cooldown, cooldown_computable,
};

verus! {

/// Job type of a polling round.
pub const ROUND_JOB_TYPE: &'static str = "poll_funds";

/// Outcome of a polling round.
#[derive(Debug, Clone)]
pub struct PollFundsSummary {
    pub total_funds: usize,
    pub succeeded_funds: usize,
    pub failed_funds: usize,
    pub status: String,
}

/// Status of a round: `success` when every fetch and every rule check went through, `failed`
/// when no fetch went through, else `partial_success`.
pub open spec fn round_status(succeeded: int, failed: int, had_rule_errors: bool) -> Seq<char> {
    if failed == 0 && !had_rule_errors {
        "success"@
    } else if succeeded == 0 {
        "failed"@
    } else {
        "partial_success"@
    }
}

/// Message of a round with failures.
pub open spec fn round_message(total: int, succeeded: int, failed: int, failures: Seq<Seq<char>>) -> Seq<
    char,
> {
    "共 "@ + int_text(total) + " 只基金，成功 "@ + int_text(succeeded) + "，失败 "@ + int_text(failed)
        + "。"@ + join_seq(failures, "；"@)
}

/// Law: a round is `failed` exactly when something failed (a fetch or a rule check) and no fetch
/// went through, so a round with a fetch that went through is never `failed`; it is `success`
/// exactly when nothing failed, and `partial_success` otherwise.
pub proof fn law_round_failed_only_without_success(succeeded: int, failed: int, had_rule_errors: bool)
    requires
        succeeded >= 0,
        failed >= 0,
    ensures
        round_status(succeeded, failed, had_rule_errors) == "failed"@ <==> ((failed > 0 || had_rule_errors)
            && succeeded == 0),
        succeeded > 0 ==> round_status(succeeded, failed, had_rule_errors) != "failed"@,
        round_status(succeeded, failed, had_rule_errors) == "success"@ <==> (failed == 0 && !had_rule_errors),
        round_status(succeeded, failed, had_rule_errors) == "partial_success"@ <==> ((failed > 0
            || had_rule_errors) && succeeded > 0),
{
    reveal_strlit("failed");
    reveal_strlit("success");
    reveal_strlit("partial_success");
    assert("failed"@.len() != "success"@.len());
    assert("failed"@.len() != "partial_success"@.len());
    assert("success"@.len() != "partial_success"@.len());
}

/// The summary of a round with these counts.
pub fn build_summary(succeeded_funds: usize, failed_funds: usize, had_rule_errors: bool) -> (res:
    PollFundsSummary)
    requires
        succeeded_funds + failed_funds <= usize::MAX,
    ensures
        res.total_funds == succeeded_funds + failed_funds,
        res.succeeded_funds == succeeded_funds,
        res.failed_funds == failed_funds,
        res.status@ == round_status(succeeded_funds as int, failed_funds as int, had_rule_errors),
        res.status@ == "failed"@ <==> ((failed_funds > 0 || had_rule_errors) && succeeded_funds == 0),
        res.status@ == "success"@ <==> (failed_funds == 0 && !had_rule_errors),
{
    proof {
        law_round_failed_only_without_success(succeeded_funds as int, failed_funds as int, had_rule_errors);
    }
    let total_funds = succeeded_funds + failed_funds;
    let status = if failed_funds == 0 && !had_rule_errors {
        "success"
    } else if succeeded_funds == 0 {
        "failed"
    } else {
        "partial_success"
    };
    PollFundsSummary {
        total_funds,
        succeeded_funds,
        failed_funds,
        status: String::from_str(status),
    }
}

/// The message recorded for a round: none when nothing failed, else the counts followed by the
/// failures joined by `；`.
pub fn build_summary_message(summary: &PollFundsSummary, failure_messages: &[String]) -> (res:
    Option<String>)
    ensures
        failure_messages@.len() == 0 ==> res is None,
        failure_messages@.len() > 0 ==> (res matches Some(m) && m@ == round_message(
            summary.total_funds as int,
            summary.succeeded_funds as int,
            summary.failed_funds as int,
            views_of(failure_messages@),
        )),
{
    if failure_messages.len() == 0 {
        return None;
    }
    let mut res = String::from_str("共 ");
    res.append(usize_text(summary.total_funds).as_str());
    res.append(" 只基金，成功 ");
    res.append(usize_text(summary.succeeded_funds).as_str());
    res.append("，失败 ");
    res.append(usize_text(summary.failed_funds).as_str());
    res.append("。");
    res.append(join(failure_messages, "；").as_str());
    Some(res)
}

/// The summary and message of a round that found no enabled fund.
pub fn skipped_round() -> (res: (PollFundsSummary, String))
    ensures
        res.0.total_funds == 0,
        res.0.succeeded_funds == 0,
        res.0.failed_funds == 0,
        res.0.status@ == "skipped"@,
        res.1@ == "当前没有启用基金，跳过抓取"@,
{
    (
        PollFundsSummary {
            total_funds: 0,
            succeeded_funds: 0,
            failed_funds: 0,
            status: String::from_str("skipped"),
        },
        String::from_str("当前没有启用基金，跳过抓取"),
    )
}

/// The message of a round that could not list the enabled funds.
pub fn funds_load_failure_message(error: &str) -> (res: String)
    ensures
        res@ == "加载启用基金列表失败："@ + error@,
{
    concat("加载启用基金列表失败：", error)
}

/// The message of a round that could not list the enabled rules.
pub fn rules_load_failure_message(error: &str) -> (res: String)
    ensures
        res@ == "加载启用规则失败："@ + error@,
{
    concat("加载启用规则失败：", error)
}

/// Job type of the fetch of one fund within a round.
pub fn fund_poll_job_type(fund_code: &str) -> (res: String)
    ensures
        res@ == "fund_poll_fetch:"@ + fund_code@,
{
    concat("fund_poll_fetch:", fund_code)
}

/// The notification result stored on an alert: nothing without a notifier, the notifier's
/// receipt on success, and the error prefixed by `telegram 发送失败：` on failure.
pub fn notification_result_text(outcome: Option<Result<String, String>>) -> (res: Option<String>)
    ensures
        match outcome {
            None => res is None,
            Some(Ok(receipt)) => res matches Some(r) && r@ == receipt@,
            Some(Err(e)) => res matches Some(r) && r@ == "telegram 发送失败："@ + e@,
        },
{
    match outcome {
        None => None,
        Some(Ok(receipt)) => Some(receipt),
        Some(Err(e)) => Some(concat("telegram 发送失败：", e.as_str())),
    }
}

/// Running tally of a polling round.
#[derive(Debug, Clone)]
pub struct PollRound {
    pub succeeded_funds: usize,
    pub failed_funds: usize,
    pub failure_messages: Vec<String>,
    pub had_rule_errors: bool,
}

impl PollRound {
    /// Every failed fetch left one message, and rule errors left the others.
    pub open spec fn wf(&self) -> bool {
        &&& self.failure_messages@.len() >= self.failed_funds
        &&& self.had_rule_errors <==> self.failure_messages@.len() > self.failed_funds
    }

    /// A round before any fund.
    pub fn new() -> (res: Self)
        ensures
            res.wf(),
            res.succeeded_funds == 0,
            res.failed_funds == 0,
            res.failure_messages@.len() == 0,
            !res.had_rule_errors,
    {
        PollRound {
            succeeded_funds: 0,
            failed_funds: 0,
            failure_messages: Vec::new(),
            had_rule_errors: false,
        }
    }

    /// Records a fund whose fetch failed with `user_message`.
    pub fn record_fetch_failure(&mut self, fund_code: &str, user_message: &str)
        requires
            old(self).wf(),
            old(self).succeeded_funds + old(self).failed_funds < usize::MAX,
        ensures
            final(self).wf(),
            final(self).succeeded_funds == old(self).succeeded_funds,
            final(self).failed_funds == old(self).failed_funds + 1,
            final(self).had_rule_errors == old(self).had_rule_errors,
            views_of(final(self).failure_messages@) == views_of(old(self).failure_messages@).push(
                fund_code@ + ": "@ + user_message@,
            ),
    {
        let ghost before = self.failure_messages@;
        self.failed_funds = self.failed_funds + 1;
        self.failure_messages.push(concat3(fund_code, ": ", user_message));
        assert(views_of(self.failure_messages@) =~= views_of(before).push(
            fund_code@ + ": "@ + user_message@,
        ));
    }

    /// Records a fund whose fetch went through; `rule_error` is the failure of its rule checks.
    pub fn record_fetch_success(&mut self, fund_code: &str, rule_error: Option<String>)
        requires
            old(self).wf(),
            old(self).succeeded_funds + old(self).failed_funds < usize::MAX,
        ensures
            final(self).wf(),
            final(self).succeeded_funds == old(self).succeeded_funds + 1,
            final(self).failed_funds == old(self).failed_funds,
            final(self).had_rule_errors == (old(self).had_rule_errors || rule_error is Some),
            match rule_error {
                None => views_of(final(self).failure_messages@) == views_of(
                    old(self).failure_messages@,
                ),
                Some(e) => views_of(final(self).failure_messages@) == views_of(
                    old(self).failure_messages@,
                ).push(fund_code@ + ": "@ + e@),
            },
    {
        let ghost before = self.failure_messages@;
        self.succeeded_funds = self.succeeded_funds + 1;
        if let Some(e) = rule_error {
            self.had_rule_errors = true;
            self.failure_messages.push(concat3(fund_code, ": ", e.as_str()));
            assert(views_of(self.failure_messages@) =~= views_of(before).push(
                fund_code@ + ": "@ + e@,
            ));
        }
    }

    /// The summary and message of the round.
    pub fn finish(&self) -> (res: (PollFundsSummary, Option<String>))
        requires
            self.wf(),
            self.succeeded_funds + self.failed_funds <= usize::MAX,
        ensures
            res.0.total_funds == self.succeeded_funds + self.failed_funds,
            res.0.succeeded_funds == self.succeeded_funds,
            res.0.failed_funds == self.failed_funds,
            res.0.status@ == round_status(
                self.succeeded_funds as int,
                self.failed_funds as int,
                self.had_rule_errors,
            ),
            res.1 is None <==> self.failure_messages@.len() == 0,
            res.1 matches Some(m) ==> m@ == round_message(
                res.0.total_funds as int,
                res.0.succeeded_funds as int,
                res.0.failed_funds as int,
                views_of(self.failure_messages@),
            ),
            // a round reports a message exactly when it did not fully succeed
            res.1 is None <==> res.0.status@ == "success"@,
            res.0.status@ == "failed"@ <==> ((self.failed_funds > 0 || self.had_rule_errors)
                && self.succeeded_funds == 0),
    {
        let summary = build_summary(self.succeeded_funds, self.failed_funds, self.had_rule_errors);
        let message = build_summary_message(&summary, self.failure_messages.as_slice());
        proof {
            if self.failed_funds != 0 || self.had_rule_errors {
                if self.succeeded_funds == 0 {
                    assert("failed"@ != "success"@) by {
                        assert("failed"@[0] != "success"@[0]) by {
                            reveal_strlit("failed");
                            reveal_strlit("success");
                        }
                    }
                } else {
                    assert("partial_success"@ != "success"@) by {
                        reveal_strlit("partial_success");
                        reveal_strlit("success");
                        assert("partial_success"@.len() != "success"@.len());
                    }
                }
            }
        }
        (summary, message)
    }
}

/// A store call made while checking the rules of a fund, with the ids its failure names.
#[derive(Debug, Clone, Copy)]
pub enum RuleCheckStep {
    /// Reading the rule's last alert for the fund.
    LatestAlert { rule_id: i64, fund_id: i64 },
    /// Writing the new alert.
    WriteAlert { rule_id: i64, fund_id: i64 },
    /// Saving the notification result on the alert.
    SaveNotification { alert_id: i64, fund_id: i64 },
    /// Recording when the rule fired.
    MarkTriggered { rule_id: i64 },
}

/// The context a failed store call gives.
pub open spec fn rule_check_context(step: RuleCheckStep) -> Seq<char> {
    match step {
        RuleCheckStep::LatestAlert { rule_id, fund_id } => "查询规则最近告警失败，rule_id="@ + int_text(
            rule_id as int,
        ) + "，fund_id="@ + int_text(fund_id as int),
        RuleCheckStep::WriteAlert { rule_id, fund_id } => "写入告警事件失败，rule_id="@ + int_text(
            rule_id as int,
        ) + "，fund_id="@ + int_text(fund_id as int),
        RuleCheckStep::SaveNotification { alert_id, fund_id } => "更新通知结果失败，alert_id="@
            + int_text(alert_id as int) + "，fund_id="@ + int_text(fund_id as int),
        RuleCheckStep::MarkTriggered { rule_id } => "更新规则触发时间失败，rule_id="@ + int_text(
            rule_id as int,
        ),
    }
}

fn ids_text(first: &str, first_id: i64, second: &str, second_id: i64) -> (res: String)
    ensures
        res@ == first@ + int_text(first_id as int) + second@ + int_text(second_id as int),
{
    let mut res = concat(first, i64_text(first_id).as_str());
    res.append(second);
    res.append(i64_text(second_id).as_str());
    res
}

/// The failure of a store call while checking rules: its context, then `: ` and the store's
/// own words.
pub fn rule_check_failure(step: RuleCheckStep, cause: &str) -> (res: String)
    ensures
        res@ == rule_check_context(step) + ": "@ + cause@,
{
    let mut res = match step {
        RuleCheckStep::LatestAlert { rule_id, fund_id } => ids_text(
            "查询规则最近告警失败，rule_id=",
            rule_id,
            "，fund_id=",
            fund_id,
        ),
        RuleCheckStep::WriteAlert { rule_id, fund_id } => ids_text(
            "写入告警事件失败，rule_id=",
            rule_id,
            "，fund_id=",
            fund_id,
        ),
        RuleCheckStep::SaveNotification { alert_id, fund_id } => ids_text(
            "更新通知结果失败，alert_id=",
            alert_id,
            "，fund_id=",
            fund_id,
        ),
        RuleCheckStep::MarkTriggered { rule_id } => concat(
            "更新规则触发时间失败，rule_id=",
            i64_text(rule_id).as_str(),
        ),
    };
    res.append(": ");
    res.append(cause);
    res
}

/// The failure text of a rule that could not be judged.
pub open spec fn rule_failure_text(rule_id: i64, fund_id: i64, fault: RuleFault) -> Seq<char> {
    "执行规则失败，rule_id="@ + int_text(rule_id as int) + "，fund_id="@ + int_text(fund_id as int)
        + ": "@ + rule_fault_message(fault)
}

/// Checks one rule for a fund within a round: nothing to do, the alert to write, or the
/// failure that stops the checks of the fund.
pub fn check_rule_for_fund(
    rule: &MonitorRule,
    fund: &Fund,
    quote: &FundQuote,
    last_alert_at: Option<i128>,
    thresholds: &Result<ThresholdBounds, String>,
) -> (res: Result<Option<NewAlertEvent>, String>)
    requires
        quote.wf(),
        reaches_cooldown(*rule, *fund, *quote, *thresholds) ==> cooldown_computable(
            rule.cooldown_minutes,
            last_alert_at,
        ),
    ensures
        match rule_outcome(*rule, *fund, *quote, last_alert_at, *thresholds) {
            RuleOutcome::Quiet => res matches Ok(None),
            RuleOutcome::Fired(reason) => res matches Ok(Some(alert)) && alert.rule_id == rule.id
                && alert.fund_id == fund.id && alert.reason@ == reason && alert.status@ == "new"@
                && alert.triggered_at == quote.fetched_at && alert.notification_result is None,
            RuleOutcome::Faulted(fault) => res matches Err(e) && e@ == rule_failure_text(
                rule.id,
                fund.id,
                fault,
            ),
        },
{
    match RuleEngine::evaluate(rule, fund, quote, last_alert_at, thresholds) {
        Ok(None) => Ok(None),
        Ok(Some(trigger)) => Ok(Some(trigger.into_new_alert())),
        Err(e) => {
            let mut text = ids_text("执行规则失败，rule_id=", rule.id, "，fund_id=", fund.id);
            text.append(": ");
            text.append(e.message().as_str());
            Err(text)
        },
    }
}

} // verus!
