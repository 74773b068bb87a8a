//! Judging a fund's latest quote against a monitoring rule.

use vstd::prelude::*;
use crate::domain::alert_event::NewAlertEvent;
use crate::domain::fund::Fund;
use crate::domain::fund_quote::{FundQuote, Number};
use crate::domain::monitor_rule::MonitorRule;
use crate::text::{concat, concat3, i64_text, int_text, text_eq};

verus! {

/// Nanoseconds in a minute.
pub const NANOS_PER_MINUTE: i128 = 60_000_000_000;

/// The earliest instant a stored date-time can hold (-9999-01-01T00:00:00Z), in nanoseconds.
pub const MIN_INSTANT_NANOS: i128 = -377_705_116_800_000_000_000;

/// The latest instant a stored date-time can hold (9999-12-31T23:59:59.999999999Z), in nanoseconds.
pub const MAX_INSTANT_NANOS: i128 = 253_402_300_799_999_999_999;

/// A rule that fired: which rule, for which fund, why and when.
#[derive(Debug, Clone)]
pub struct RuleTrigger {
    pub fund_id: i64,
    pub reason: String,
    pub rule_id: i64,
    pub triggered_at: i128,
}

/// The rule engine.
pub struct RuleEngine;

/// The bounds read from a rule's threshold configuration: `gte` and `lte` (`min` and `max` for a
/// net value range) and, for an estimated deviation rule, `abs_gte`.
#[derive(Debug, Clone)]
pub struct ThresholdBounds {
    pub gte: Option<Number>,
    pub lte: Option<Number>,
    pub abs_gte: Option<Number>,
}

/// Why a rule could not be judged.
#[derive(Debug, Clone)]
pub enum RuleError {
    UnsupportedRuleType(String),
    ConfigUnreadable { rule_id: i64, rule_type: String, cause: String },
    ChangeRateBoundsMissing,
    NavRangeBoundsMissing,
    DeviationBoundsMissing,
    ChangeRateMissing(String),
    UnitNavMissing(String),
    UnitNavZero(String),
    EstimatedNavMissing(String),
}

/// The meaning of a `RuleError`.
pub enum RuleFault {
    UnsupportedRuleType(Seq<char>),
    ConfigUnreadable(i64, Seq<char>, Seq<char>),
    ChangeRateBoundsMissing,
    NavRangeBoundsMissing,
    DeviationBoundsMissing,
    ChangeRateMissing(Seq<char>),
    UnitNavMissing(Seq<char>),
    UnitNavZero(Seq<char>),
    EstimatedNavMissing(Seq<char>),
}

impl View for RuleError {
    type V = RuleFault;

    open spec fn view(&self) -> RuleFault {
        match self {
            RuleError::UnsupportedRuleType(t) => RuleFault::UnsupportedRuleType(t@),
            RuleError::ConfigUnreadable { rule_id, rule_type, cause } => RuleFault::ConfigUnreadable(
                *rule_id,
                rule_type@,
                cause@,
            ),
            RuleError::ChangeRateBoundsMissing => RuleFault::ChangeRateBoundsMissing,
            RuleError::NavRangeBoundsMissing => RuleFault::NavRangeBoundsMissing,
            RuleError::DeviationBoundsMissing => RuleFault::DeviationBoundsMissing,
            RuleError::ChangeRateMissing(c) => RuleFault::ChangeRateMissing(c@),
            RuleError::UnitNavMissing(c) => RuleFault::UnitNavMissing(c@),
            RuleError::UnitNavZero(c) => RuleFault::UnitNavZero(c@),
            RuleError::EstimatedNavMissing(c) => RuleFault::EstimatedNavMissing(c@),
        }
    }
}

/// The message of a rule fault.
pub open spec fn rule_fault_message(f: RuleFault) -> Seq<char> {
    match f {
        RuleFault::UnsupportedRuleType(t) => "不支持的规则类型："@ + t,
        RuleFault::ConfigUnreadable(id, t, cause) => "解析规则配置失败，rule_id="@ + int_text(id as int)
            + "，rule_type="@ + t + ": "@ + cause,
        RuleFault::ChangeRateBoundsMissing => "涨跌幅阈值规则至少需要一个 gte 或 lte 条件"@,
        RuleFault::NavRangeBoundsMissing => "净值区间规则至少需要一个 min 或 max 条件"@,
        RuleFault::DeviationBoundsMissing => "估值偏离规则至少需要一个 abs_gte、gte 或 lte 条件"@,
        RuleFault::ChangeRateMissing(c) => "基金 "@ + c + " 缺少涨跌幅数据"@,
        RuleFault::UnitNavMissing(c) => "基金 "@ + c + " 缺少单位净值数据"@,
        RuleFault::UnitNavZero(c) => "基金 "@ + c + " 单位净值为 0，无法计算估值偏离"@,
        RuleFault::EstimatedNavMissing(c) => "基金 "@ + c + " 缺少估值数据"@,
    }
}

impl RuleError {
    /// The message of the error.
    pub fn message(&self) -> (res: String)
        ensures
            res@ == rule_fault_message(self@),
    {
        match self {
            RuleError::UnsupportedRuleType(t) => concat("不支持的规则类型：", t.as_str()),
            RuleError::ConfigUnreadable { rule_id, rule_type, cause } => {
                let mut res = String::from_str("解析规则配置失败，rule_id=");
                let id = i64_text(*rule_id);
                res.append(id.as_str());
                res.append("，rule_type=");
                res.append(rule_type.as_str());
                res.append(": ");
                res.append(cause.as_str());
                res
            },
            RuleError::ChangeRateBoundsMissing => String::from_str(
                "涨跌幅阈值规则至少需要一个 gte 或 lte 条件",
            ),
            RuleError::NavRangeBoundsMissing => String::from_str(
                "净值区间规则至少需要一个 min 或 max 条件",
            ),
            RuleError::DeviationBoundsMissing => String::from_str(
                "估值偏离规则至少需要一个 abs_gte、gte 或 lte 条件",
            ),
            RuleError::ChangeRateMissing(c) => concat3("基金 ", c.as_str(), " 缺少涨跌幅数据"),
            RuleError::UnitNavMissing(c) => concat3("基金 ", c.as_str(), " 缺少单位净值数据"),
            RuleError::UnitNavZero(c) => concat3(
                "基金 ",
                c.as_str(),
                " 单位净值为 0，无法计算估值偏离",
            ),
            RuleError::EstimatedNavMissing(c) => concat3("基金 ", c.as_str(), " 缺少估值数据"),
        }
    }
}

/// The kinds of rules the engine knows.
#[derive(PartialEq, Eq, Structural, Clone, Copy)]
pub enum RuleKind {
    ChangeRate,
    NavRange,
    Deviation,
}

/// The kind named by a rule type.
pub open spec fn rule_kind(rule_type: Seq<char>) -> Option<RuleKind> {
    if rule_type == "change_rate_threshold"@ {
        Some(RuleKind::ChangeRate)
    } else if rule_type == "nav_range"@ {
        Some(RuleKind::NavRange)
    } else if rule_type == "estimated_nav_deviation"@ {
        Some(RuleKind::Deviation)
    } else {
        None
    }
}

/// Whether the rule's target covers the fund: its fund, if it names one, is this fund, and its
/// group, if it names one, is the fund's group.
pub open spec fn rule_applies_to_fund(rule: MonitorRule, fund: Fund) -> bool {
    &&& (rule.fund_id matches Some(id) ==> id == fund.id)
    &&& (rule.group_name matches Some(g) ==> (fund.group_name matches Some(fg) && fg@ == g@))
}

/// Whether the bounds hold at least one condition the rule kind reads.
pub open spec fn bounds_present(kind: RuleKind, b: ThresholdBounds) -> bool {
    match kind {
        RuleKind::Deviation => b.abs_gte is Some || b.gte is Some || b.lte is Some,
        _ => b.gte is Some || b.lte is Some,
    }
}

/// The fault of bounds that hold no condition.
pub open spec fn missing_bounds_fault(kind: RuleKind) -> RuleFault {
    match kind {
        RuleKind::ChangeRate => RuleFault::ChangeRateBoundsMissing,
        RuleKind::NavRange => RuleFault::NavRangeBoundsMissing,
        RuleKind::Deviation => RuleFault::DeviationBoundsMissing,
    }
}

/// The fault of a quote that lacks what the rule kind reads.
pub open spec fn reading_fault(kind: RuleKind, code: Seq<char>, quote: FundQuote) -> Option<
    RuleFault,
> {
    match kind {
        RuleKind::ChangeRate => if quote.change_rate is None {
            Some(RuleFault::ChangeRateMissing(code))
        } else {
            None
        },
        RuleKind::NavRange => if quote.unit_nav is None {
            Some(RuleFault::UnitNavMissing(code))
        } else {
            None
        },
        RuleKind::Deviation => if quote.unit_nav is None {
            Some(RuleFault::UnitNavMissing(code))
        } else if quote.unit_nav.unwrap().order_key == 0 {
            Some(RuleFault::UnitNavZero(code))
        } else if quote.estimated_nav is None {
            Some(RuleFault::EstimatedNavMissing(code))
        } else {
            None
        },
    }
}

/// The first reason, if any, why an enabled rule that applies to the fund cannot be judged.
pub open spec fn evaluation_fault(
    rule: MonitorRule,
    fund: Fund,
    quote: FundQuote,
    thresholds: Result<ThresholdBounds, String>,
) -> Option<RuleFault> {
    match rule_kind(rule.rule_type@) {
        None => Some(RuleFault::UnsupportedRuleType(rule.rule_type@)),
        Some(kind) => match thresholds {
            Err(cause) => Some(RuleFault::ConfigUnreadable(rule.id, rule.rule_type@, cause@)),
            Ok(b) => if !bounds_present(kind, b) {
                Some(missing_bounds_fault(kind))
            } else {
                reading_fault(kind, fund.code@, quote)
            },
        },
    }
}

/// The reading a rule kind judges.
pub open spec fn observed(kind: RuleKind, quote: FundQuote) -> Number {
    match kind {
        RuleKind::ChangeRate => quote.change_rate.unwrap(),
        RuleKind::NavRange => quote.unit_nav.unwrap(),
        RuleKind::Deviation => quote.estimated_deviation.unwrap(),
    }
}

/// The absolute value of an order key.
pub open spec fn abs_key(k: i64) -> int {
    if k < 0 {
        -k
    } else {
        k as int
    }
}

/// Whether a value with order key `k` meets the bounds: at least `gte`, at most `lte` and, for a
/// deviation rule, at least `abs_gte` in absolute value.
pub open spec fn bounds_admit(kind: RuleKind, b: ThresholdBounds, k: i64) -> bool {
    &&& (b.gte matches Some(g) ==> k >= g.order_key)
    &&& (b.lte matches Some(l) ==> k <= l.order_key)
    &&& (kind == RuleKind::Deviation ==> (b.abs_gte matches Some(a) ==> abs_key(k) >= a.order_key))
}

/// Whether an alert at `now` falls within `cooldown_minutes` of the last alert.
pub open spec fn in_cooldown_window(cooldown_minutes: i64, last_alert_at: Option<i128>, now: i128) -> bool {
    &&& cooldown_minutes > 0
    &&& last_alert_at matches Some(last) && now < last + cooldown_minutes * NANOS_PER_MINUTE
}

/// Whether the end of the cooldown window can be computed: the minutes convert to seconds in an
/// `i64` and the end is an instant a date-time can hold.
pub open spec fn cooldown_computable(cooldown_minutes: i64, last_alert_at: Option<i128>) -> bool {
    cooldown_minutes <= 0 || last_alert_at is None || (cooldown_minutes * 60 <= i64::MAX
        && MIN_INSTANT_NANOS <= last_alert_at.unwrap() + cooldown_minutes * NANOS_PER_MINUTE
        <= MAX_INSTANT_NANOS)
}

/// The text of the reason of a fired rule.
pub open spec fn reason_text(kind: RuleKind, code: Seq<char>, value: Number) -> Seq<char> {
    match kind {
        RuleKind::ChangeRate => "基金 "@ + code + " 涨跌幅 "@ + value.fixed2@
            + "% 命中涨跌幅阈值规则"@,
        RuleKind::NavRange => "基金 "@ + code + " 单位净值 "@ + value.fixed4@
            + " 命中净值区间规则"@,
        RuleKind::Deviation => "基金 "@ + code + " 估值偏离 "@ + value.fixed2@
            + "% 命中估值偏离规则"@,
    }
}

/// What judging a rule comes to.
pub enum RuleOutcome {
    /// Nothing to report.
    Quiet,
    /// The rule fired with this reason.
    Fired(Seq<char>),
    /// The rule could not be judged.
    Faulted(RuleFault),
}

/// The outcome of judging `rule` on the fund's quote, given the last alert of the rule for the
/// fund and the bounds read from the rule's configuration (`None` where it does not parse).
pub open spec fn rule_outcome(
    rule: MonitorRule,
    fund: Fund,
    quote: FundQuote,
    last_alert_at: Option<i128>,
    thresholds: Result<ThresholdBounds, String>,
) -> RuleOutcome {
    if !rule.enabled || !rule_applies_to_fund(rule, fund) {
        RuleOutcome::Quiet
    } else {
        match evaluation_fault(rule, fund, quote, thresholds) {
            Some(f) => RuleOutcome::Faulted(f),
            None => {
                let kind = rule_kind(rule.rule_type@).unwrap();
                let value = observed(kind, quote);
                if !bounds_admit(kind, thresholds->Ok_0, value.order_key) || in_cooldown_window(
                    rule.cooldown_minutes,
                    last_alert_at,
                    quote.fetched_at,
                ) {
                    RuleOutcome::Quiet
                } else {
                    RuleOutcome::Fired(reason_text(kind, fund.code@, value))
                }
            },
        }
    }
}

/// Whether judging the rule reaches the cooldown check (the quote meets the bounds).
pub open spec fn reaches_cooldown(
    rule: MonitorRule,
    fund: Fund,
    quote: FundQuote,
    thresholds: Result<ThresholdBounds, String>,
) -> bool {
    &&& rule.enabled
    &&& rule_applies_to_fund(rule, fund)
    &&& evaluation_fault(rule, fund, quote, thresholds) is None
    &&& bounds_admit(
        rule_kind(rule.rule_type@).unwrap(),
        thresholds->Ok_0,
        observed(rule_kind(rule.rule_type@).unwrap(), quote).order_key,
    )
}

/// The outcome an evaluation result stands for.
pub open spec fn outcome_of(res: Result<Option<RuleTrigger>, RuleError>) -> RuleOutcome {
    match res {
        Ok(None) => RuleOutcome::Quiet,
        Ok(Some(t)) => RuleOutcome::Fired(t.reason@),
        Err(e) => RuleOutcome::Faulted(e@),
    }
}

fn same_text_option(a: &Option<String>, b: &String) -> (res: bool)
    ensures
        res == (a matches Some(x) && x@ == b@),
{
    match a {
        Some(x) => text_eq(x.as_str(), b.as_str()),
        None => false,
    }
}

fn applies_to_fund(rule: &MonitorRule, fund: &Fund) -> (res: bool)
    ensures
        res == rule_applies_to_fund(*rule, *fund),
{
    if let Some(rule_fund_id) = rule.fund_id {
        if rule_fund_id != fund.id {
            return false;
        }
    }
    if let Some(rule_group_name) = &rule.group_name {
        if !same_text_option(&fund.group_name, rule_group_name) {
            return false;
        }
    }
    true
}

fn kind_of(rule_type: &String) -> (res: Option<RuleKind>)
    ensures
        res == rule_kind(rule_type@),
{
    if text_eq(rule_type.as_str(), "change_rate_threshold") {
        Some(RuleKind::ChangeRate)
    } else if text_eq(rule_type.as_str(), "nav_range") {
        Some(RuleKind::NavRange)
    } else if text_eq(rule_type.as_str(), "estimated_nav_deviation") {
        Some(RuleKind::Deviation)
    } else {
        None
    }
}

fn admits(kind: RuleKind, b: &ThresholdBounds, k: i64) -> (res: bool)
    ensures
        res == bounds_admit(kind, *b, k),
{
    let gte_ok = match &b.gte {
        Some(g) => k >= g.order_key,
        None => true,
    };
    let lte_ok = match &b.lte {
        Some(l) => k <= l.order_key,
        None => true,
    };
    let abs_ok = match kind {
        RuleKind::Deviation => match &b.abs_gte {
            Some(a) => {
                let wide = k as i128;
                let magnitude: i128 = if wide < 0 {
                    -wide
                } else {
                    wide
                };
                magnitude >= a.order_key as i128
            },
            None => true,
        },
        _ => true,
    };
    gte_ok && lte_ok && abs_ok
}

/// Whether judging the rule gets as far as its cooldown: the rule is enabled, covers the fund,
/// can be judged, and the quote meets its bounds.
pub fn cooldown_reached(
    rule: &MonitorRule,
    fund: &Fund,
    quote: &FundQuote,
    thresholds: &Result<ThresholdBounds, String>,
) -> (res: bool)
    requires
        quote.wf(),
    ensures
        res == reaches_cooldown(*rule, *fund, *quote, *thresholds),
{
    if !rule.enabled || !applies_to_fund(rule, fund) {
        return false;
    }
    let kind = match kind_of(&rule.rule_type) {
        Some(k) => k,
        None => return false,
    };
    let bounds = match thresholds {
        Ok(b) => b,
        Err(_) => return false,
    };
    let present = match kind {
        RuleKind::Deviation => bounds.abs_gte.is_some() || bounds.gte.is_some() || bounds.lte.is_some(),
        _ => bounds.gte.is_some() || bounds.lte.is_some(),
    };
    if !present {
        return false;
    }
    let value: &Number = match kind {
        RuleKind::ChangeRate => match &quote.change_rate {
            Some(v) => v,
            None => return false,
        },
        RuleKind::NavRange => match &quote.unit_nav {
            Some(v) => v,
            None => return false,
        },
        RuleKind::Deviation => {
            match &quote.unit_nav {
                Some(nav) => {
                    if nav.order_key == 0 {
                        return false;
                    }
                },
                None => return false,
            }
            if quote.estimated_nav.is_none() {
                return false;
            }
            match &quote.estimated_deviation {
                Some(v) => v,
                None => return false,
            }
        },
    };
    admits(kind, bounds, value.order_key)
}

/// Whether the end of a cooldown after `last_alert_at` can be computed (see
/// `cooldown_computable`).
pub fn cooldown_end_computable(cooldown_minutes: i64, last_alert_at: Option<i128>) -> (res: bool)
    ensures
        res == cooldown_computable(cooldown_minutes, last_alert_at),
{
    if cooldown_minutes <= 0 {
        return true;
    }
    match last_alert_at {
        None => true,
        Some(last) => {
            let minutes = cooldown_minutes as i128;
            if minutes * 60 > i64::MAX as i128 {
                return false;
            }
            assert(minutes * 60_000_000_000 <= 10_000_000_000_000_000_000_000_000_000) by (nonlinear_arith)
                requires
                    0 < minutes,
                    minutes * 60 <= 9_223_372_036_854_775_807,
            ;
            match last.checked_add(minutes * NANOS_PER_MINUTE) {
                Some(end) => MIN_INSTANT_NANOS <= end && end <= MAX_INSTANT_NANOS,
                None => false,
            }
        },
    }
}

/// Whether an alert at `now` falls within the cooldown after the last alert.
pub fn in_cooldown(cooldown_minutes: i64, last_alert_at: Option<i128>, now: i128) -> (res: bool)
    requires
        cooldown_computable(cooldown_minutes, last_alert_at),
    ensures
        res == in_cooldown_window(cooldown_minutes, last_alert_at, now),
{
    if cooldown_minutes <= 0 {
        return false;
    }
    match last_alert_at {
        None => false,
        Some(last) => {
            let cooldown = (cooldown_minutes as i128) * NANOS_PER_MINUTE;
            now < last + cooldown
        },
    }
}

fn reason(kind: RuleKind, code: &String, value: &Number) -> (res: String)
    ensures
        res@ == reason_text(kind, code@, *value),
{
    let mut res = String::from_str("基金 ");
    res.append(code.as_str());
    match kind {
        RuleKind::ChangeRate => {
            res.append(" 涨跌幅 ");
            res.append(value.fixed2.as_str());
            res.append("% 命中涨跌幅阈值规则");
        },
        RuleKind::NavRange => {
            res.append(" 单位净值 ");
            res.append(value.fixed4.as_str());
            res.append(" 命中净值区间规则");
        },
        RuleKind::Deviation => {
            res.append(" 估值偏离 ");
            res.append(value.fixed2.as_str());
            res.append("% 命中估值偏离规则");
        },
    }
    res
}

impl RuleEngine {
    /// Judges `rule` on the fund's latest quote. `last_alert_at` is the time of the rule's last
    /// alert for the fund; `thresholds` are the bounds read from `rule.threshold_config` as the
    /// configuration of `rule.rule_type` (`None` where it does not parse as such).
    ///
    /// A disabled rule, or one whose target does not cover the fund, is quiet. Otherwise an
    /// unknown rule type, an unreadable configuration, bounds without any condition, or a quote
    /// lacking the reading are errors, in that order. A reading outside the bounds, or an alert
    /// within the cooldown after the last one, is quiet; else the rule fires at the quote's
    /// fetch time.
    pub fn evaluate(
        rule: &MonitorRule,
        fund: &Fund,
        quote: &FundQuote,
        last_alert_at: Option<i128>,
        thresholds: &Result<ThresholdBounds, String>,
    ) -> (res: Result<Option<RuleTrigger>, RuleError>)
        requires
            quote.wf(),
            reaches_cooldown(*rule, *fund, *quote, *thresholds) ==> cooldown_computable(
                rule.cooldown_minutes,
                last_alert_at,
            ),
        ensures
            outcome_of(res) == rule_outcome(*rule, *fund, *quote, last_alert_at, *thresholds),
            res matches Ok(Some(t)) ==> t.rule_id == rule.id && t.fund_id == fund.id
                && t.triggered_at == quote.fetched_at,
            !rule.enabled ==> res matches Ok(None),
            !rule_applies_to_fund(*rule, *fund) ==> res matches Ok(None),
            in_cooldown_window(rule.cooldown_minutes, last_alert_at, quote.fetched_at)
                ==> !(res matches Ok(Some(_))),
    {
        if !rule.enabled || !applies_to_fund(rule, fund) {
            return Ok(None);
        }
        let kind = match kind_of(&rule.rule_type) {
            Some(k) => k,
            None => return Err(RuleError::UnsupportedRuleType(rule.rule_type.clone())),
        };
        let bounds = match thresholds {
            Ok(b) => b,
            Err(cause) => return Err(
                RuleError::ConfigUnreadable {
                    rule_id: rule.id,
                    rule_type: rule.rule_type.clone(),
                    cause: cause.clone(),
                },
            ),
        };
        let present = match kind {
            RuleKind::Deviation => bounds.abs_gte.is_some() || bounds.gte.is_some()
                || bounds.lte.is_some(),
            _ => bounds.gte.is_some() || bounds.lte.is_some(),
        };
        if !present {
            return Err(
                match kind {
                    RuleKind::ChangeRate => RuleError::ChangeRateBoundsMissing,
                    RuleKind::NavRange => RuleError::NavRangeBoundsMissing,
                    RuleKind::Deviation => RuleError::DeviationBoundsMissing,
                },
            );
        }
        let value: &Number = match kind {
            RuleKind::ChangeRate => match &quote.change_rate {
                Some(v) => v,
                None => return Err(RuleError::ChangeRateMissing(fund.code.clone())),
            },
            RuleKind::NavRange => match &quote.unit_nav {
                Some(v) => v,
                None => return Err(RuleError::UnitNavMissing(fund.code.clone())),
            },
            RuleKind::Deviation => {
                match &quote.unit_nav {
                    Some(nav) => {
                        if nav.order_key == 0 {
                            return Err(RuleError::UnitNavZero(fund.code.clone()));
                        }
                    },
                    None => return Err(RuleError::UnitNavMissing(fund.code.clone())),
                }
                if quote.estimated_nav.is_none() {
                    return Err(RuleError::EstimatedNavMissing(fund.code.clone()));
                }
                match &quote.estimated_deviation {
                    Some(v) => v,
                    None => return Err(RuleError::EstimatedNavMissing(fund.code.clone())),
                }
            },
        };
        if !admits(kind, bounds, value.order_key) {
            return Ok(None);
        }
        if in_cooldown(rule.cooldown_minutes, last_alert_at, quote.fetched_at) {
            return Ok(None);
        }
        Ok(
            Some(
                RuleTrigger {
                    fund_id: fund.id,
                    reason: reason(kind, &fund.code, value),
                    rule_id: rule.id,
                    triggered_at: quote.fetched_at,
                },
            ),
        )
    }
}

/// Whether two quotes carry the same readings.
pub open spec fn same_readings(a: FundQuote, b: FundQuote) -> bool {
    &&& a.unit_nav == b.unit_nav
    &&& a.estimated_nav == b.estimated_nav
    &&& a.change_rate == b.change_rate
    &&& a.estimated_deviation == b.estimated_deviation
}

/// Law: once a rule with a positive cooldown fired on a quote, it does not fire again for the
/// same fund on any quote fetched before the cooldown has passed since that alert.
pub proof fn law_cooldown_holds_back_repeats(
    rule: MonitorRule,
    fund: Fund,
    first: FundQuote,
    second: FundQuote,
    last_alert_at: Option<i128>,
    thresholds: Result<ThresholdBounds, String>,
)
    requires
        rule_outcome(rule, fund, first, last_alert_at, thresholds) is Fired,
        rule.cooldown_minutes > 0,
        second.fetched_at < first.fetched_at + rule.cooldown_minutes * NANOS_PER_MINUTE,
    ensures
        !(rule_outcome(rule, fund, second, Some(first.fetched_at), thresholds) is Fired),
{
}

/// Law: a rule that fired fires again with the same reason on a quote with the same readings
/// once its cooldown has passed since that alert.
pub proof fn law_fires_again_after_cooldown(
    rule: MonitorRule,
    fund: Fund,
    first: FundQuote,
    second: FundQuote,
    last_alert_at: Option<i128>,
    thresholds: Result<ThresholdBounds, String>,
)
    requires
        rule_outcome(rule, fund, first, last_alert_at, thresholds) is Fired,
        same_readings(first, second),
        second.fetched_at >= first.fetched_at + rule.cooldown_minutes * NANOS_PER_MINUTE,
    ensures
        rule_outcome(rule, fund, second, Some(first.fetched_at), thresholds) == rule_outcome(
            rule,
            fund,
            first,
            last_alert_at,
            thresholds,
        ),
{
}

/// Law: a deviation rule whose only bound is `abs_gte` fires on a readable quote, outside any
/// cooldown, exactly when the estimated deviation lies at least that far from zero on either
/// side: at least the bound, or at most its negation.
pub proof fn law_deviation_abs_bound_admits_either_sign(
    rule: MonitorRule,
    fund: Fund,
    quote: FundQuote,
    abs_gte: Number,
)
    requires
        rule.enabled,
        rule_applies_to_fund(rule, fund),
        rule.rule_type@ == "estimated_nav_deviation"@,
        quote.wf(),
        quote.unit_nav is Some,
        quote.unit_nav.unwrap().order_key != 0,
        quote.estimated_nav is Some,
    ensures
        rule_outcome(
            rule,
            fund,
            quote,
            None,
            Ok(ThresholdBounds { gte: None, lte: None, abs_gte: Some(abs_gte) }),
        ) is Fired <==> (quote.estimated_deviation.unwrap().order_key >= abs_gte.order_key
            || quote.estimated_deviation.unwrap().order_key <= -abs_gte.order_key),
{
    reveal_strlit("estimated_nav_deviation");
    reveal_strlit("change_rate_threshold");
    reveal_strlit("nav_range");
    assert("estimated_nav_deviation"@.len() != "change_rate_threshold"@.len());
    assert("estimated_nav_deviation"@.len() != "nav_range"@.len());
}

/// Law: with no earlier alert, a change-rate rule fires on a quote with a change rate exactly
/// when the rate is at least its `gte` bound and at most its `lte` bound (where given), and the
/// reason names the fund and the rate with two decimals.
pub proof fn law_change_rate_rule_judges_the_change_rate(
    rule: MonitorRule,
    fund: Fund,
    quote: FundQuote,
    b: ThresholdBounds,
)
    requires
        rule.enabled,
        rule_applies_to_fund(rule, fund),
        rule.rule_type@ == "change_rate_threshold"@,
        quote.change_rate is Some,
        b.gte is Some || b.lte is Some,
    ensures
        ({
            let rate = quote.change_rate.unwrap();
            rule_outcome(rule, fund, quote, None, Ok(b)) == if (b.gte matches Some(g) ==> rate.order_key
                >= g.order_key) && (b.lte matches Some(l) ==> rate.order_key <= l.order_key) {
                RuleOutcome::Fired("基金 "@ + fund.code@ + " 涨跌幅 "@ + rate.fixed2@ + "% 命中涨跌幅阈值规则"@)
            } else {
                RuleOutcome::Quiet
            }
        }),
{
}

/// Law: with no earlier alert, a net-value range rule fires on a quote with a unit value exactly
/// when the value is at least its `gte` (minimum) bound and at most its `lte` (maximum) bound
/// (where given), and the reason names the fund and the value with four decimals.
pub proof fn law_nav_range_rule_judges_the_unit_value(
    rule: MonitorRule,
    fund: Fund,
    quote: FundQuote,
    b: ThresholdBounds,
)
    requires
        rule.enabled,
        rule_applies_to_fund(rule, fund),
        rule.rule_type@ == "nav_range"@,
        quote.unit_nav is Some,
        b.gte is Some || b.lte is Some,
    ensures
        ({
            let nav = quote.unit_nav.unwrap();
            rule_outcome(rule, fund, quote, None, Ok(b)) == if (b.gte matches Some(g) ==> nav.order_key
                >= g.order_key) && (b.lte matches Some(l) ==> nav.order_key <= l.order_key) {
                RuleOutcome::Fired("基金 "@ + fund.code@ + " 单位净值 "@ + nav.fixed4@ + " 命中净值区间规则"@)
            } else {
                RuleOutcome::Quiet
            }
        }),
{
    reveal_strlit("change_rate_threshold");
    reveal_strlit("nav_range");
    assert("nav_range"@.len() != "change_rate_threshold"@.len());
}

/// Law: with no earlier alert, a deviation rule fires on a quote with a unit value (not zero)
/// and an estimate exactly when the estimated deviation is at least its `gte` bound, at most its
/// `lte` bound, and at least its `abs_gte` bound away from zero on either side (where given),
/// and the reason names the fund and the deviation with two decimals.
pub proof fn law_deviation_rule_judges_the_deviation(
    rule: MonitorRule,
    fund: Fund,
    quote: FundQuote,
    b: ThresholdBounds,
)
    requires
        rule.enabled,
        rule_applies_to_fund(rule, fund),
        rule.rule_type@ == "estimated_nav_deviation"@,
        quote.wf(),
        quote.unit_nav is Some,
        quote.unit_nav.unwrap().order_key != 0,
        quote.estimated_nav is Some,
        b.gte is Some || b.lte is Some || b.abs_gte is Some,
    ensures
        ({
            let d = quote.estimated_deviation.unwrap();
            rule_outcome(rule, fund, quote, None, Ok(b)) == if (b.gte matches Some(g) ==> d.order_key
                >= g.order_key) && (b.lte matches Some(l) ==> d.order_key <= l.order_key) && (
            b.abs_gte matches Some(a) ==> (d.order_key >= a.order_key || d.order_key <= -a.order_key)) {
                RuleOutcome::Fired("基金 "@ + fund.code@ + " 估值偏离 "@ + d.fixed2@ + "% 命中估值偏离规则"@)
            } else {
                RuleOutcome::Quiet
            }
        }),
{
    reveal_strlit("estimated_nav_deviation");
    reveal_strlit("change_rate_threshold");
    reveal_strlit("nav_range");
    assert("estimated_nav_deviation"@.len() != "change_rate_threshold"@.len());
    assert("estimated_nav_deviation"@.len() != "nav_range"@.len());
}

/// Law: a disabled rule, a rule naming another fund, and a rule naming a group the fund is not
/// in all stay quiet, whatever the quote.
pub proof fn law_rule_off_target_stays_quiet(
    rule: MonitorRule,
    fund: Fund,
    quote: FundQuote,
    last_alert_at: Option<i128>,
    thresholds: Result<ThresholdBounds, String>,
)
    requires
        !rule.enabled || (rule.fund_id matches Some(id) && id != fund.id) || (rule.group_name matches Some(g)
            && !(fund.group_name matches Some(fg) && fg@ == g@)),
    ensures
        rule_outcome(rule, fund, quote, last_alert_at, thresholds) == RuleOutcome::Quiet,
{
}

/// Law: without a cooldown, whether a rule fires does not depend on the time of its last alert.
pub proof fn law_no_cooldown_ignores_last_alert(
    rule: MonitorRule,
    fund: Fund,
    quote: FundQuote,
    last_alert_at: Option<i128>,
    other_last_alert_at: Option<i128>,
    thresholds: Result<ThresholdBounds, String>,
)
    requires
        rule.cooldown_minutes <= 0,
    ensures
        rule_outcome(rule, fund, quote, last_alert_at, thresholds) == rule_outcome(
            rule,
            fund,
            quote,
            other_last_alert_at,
            thresholds,
        ),
{
}

impl RuleTrigger {
    /// The new alert for this trigger: same rule, fund, reason and time, status `new`, no
    /// notification result yet.
    pub fn into_new_alert(self) -> (res: NewAlertEvent)
        ensures
            res.rule_id == self.rule_id,
            res.fund_id == self.fund_id,
            res.reason == self.reason,
            res.status@ == "new"@,
            res.triggered_at == self.triggered_at,
            res.notification_result is None,
    {
        NewAlertEvent {
            rule_id: self.rule_id,
            fund_id: self.fund_id,
            reason: self.reason,
            status: String::from_str("new"),
            triggered_at: self.triggered_at,
            notification_result: None,
        }
    }
}

} // verus!
