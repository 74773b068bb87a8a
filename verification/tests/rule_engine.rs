use fund_monitor::domain::fund::Fund;
use fund_monitor::domain::fund_quote::{FundQuote, Number};
use fund_monitor::domain::monitor_rule::MonitorRule;
use fund_monitor::domain::rule_engine::{in_cooldown, RuleEngine, RuleError, ThresholdBounds};
use fund_monitor::jobs::poll_funds::check_rule_for_fund;

const MINUTE: i128 = 60_000_000_000;

fn num(key: i64, fixed2: &str, fixed4: &str) -> Number {
    Number { order_key: key, fixed2: fixed2.to_owned(), fixed4: fixed4.to_owned() }
}

fn fund() -> Fund {
    Fund {
        id: 1,
        code: "000001".to_owned(),
        name: "示例基金A".to_owned(),
        note: None,
        group_name: Some("核心".to_owned()),
        tags: None,
        enabled: true,
        created_at: 0,
        updated_at: 0,
    }
}

fn quote(fetched_at: i128) -> FundQuote {
    FundQuote {
        id: 1,
        fund_id: 1,
        unit_nav: Some(num(12360, "1.24", "1.2360")),
        estimated_nav: Some(num(12978, "1.30", "1.2978")),
        change_rate: Some(num(12500, "1.25", "1.2500")),
        estimated_deviation: Some(num(50000, "5.00", "5.0000")),
        fetched_at,
        source: "eastmoney/pingzhongdata".to_owned(),
        created_at: fetched_at,
    }
}

fn rule(id: i64, rule_type: &str, enabled: bool) -> MonitorRule {
    MonitorRule {
        id,
        fund_id: Some(1),
        group_name: None,
        rule_type: rule_type.to_owned(),
        threshold_config: String::new(),
        enabled,
        cooldown_minutes: 30,
        last_triggered_at: None,
        created_at: 0,
        updated_at: 0,
    }
}

fn gte(key: i64) -> Result<ThresholdBounds, String> {
    Ok(ThresholdBounds { gte: Some(num(key, "", "")), lte: None, abs_gte: None })
}

#[test]
fn change_rate_threshold_hit_creates_new_alert() {
    let q = quote(100 * MINUTE);
    let alert = match check_rule_for_fund(&rule(7, "change_rate_threshold", true), &fund(), &q, None, &gte(10000)) {
        Ok(Some(a)) => a,
        _ => panic!("rule should fire"),
    };
    assert_eq!(alert.rule_id, 7);
    assert_eq!(alert.fund_id, 1);
    assert_eq!(alert.status, "new");
    assert_eq!(alert.triggered_at, 100 * MINUTE);
    assert!(alert.reason.contains("涨跌幅 1.25%"));
    assert_eq!(alert.reason, "基金 000001 涨跌幅 1.25% 命中涨跌幅阈值规则");
    assert!(alert.notification_result.is_none());
}

#[test]
fn change_rate_threshold_not_hit_does_not_create_alert() {
    let q = quote(0);
    let r = check_rule_for_fund(&rule(7, "change_rate_threshold", true), &fund(), &q, None, &gte(20000));
    assert!(matches!(r, Ok(None)));
}

#[test]
fn nav_range_rule_creates_alert_when_unit_nav_in_range() {
    let q = quote(0);
    let bounds = Ok(ThresholdBounds { gte: Some(num(12300, "", "")), lte: Some(num(12400, "", "")), abs_gte: None });
    match check_rule_for_fund(&rule(3, "nav_range", true), &fund(), &q, None, &bounds) {
        Ok(Some(a)) => assert!(a.reason.contains("单位净值 1.2360")),
        _ => panic!("nav range rule should fire"),
    }
}

#[test]
fn cooldown_suppresses_duplicate_alerts() {
    let q = quote(100 * MINUTE);
    let last = Some(90 * MINUTE);
    let r = check_rule_for_fund(&rule(7, "change_rate_threshold", true), &fund(), &q, last, &gte(10000));
    assert!(matches!(r, Ok(None)));
    assert!(in_cooldown(30, last, 100 * MINUTE));
}

#[test]
fn alert_fires_again_once_cooldown_has_passed() {
    let q = quote(100 * MINUTE);
    let last = Some(70 * MINUTE);
    assert!(!in_cooldown(30, last, 100 * MINUTE));
    let r = check_rule_for_fund(&rule(7, "change_rate_threshold", true), &fund(), &q, last, &gte(10000));
    assert!(matches!(r, Ok(Some(_))));
}

#[test]
fn disabled_rule_is_not_executed() {
    let q = quote(0);
    let r = check_rule_for_fund(&rule(7, "change_rate_threshold", false), &fund(), &q, None, &gte(10000));
    assert!(matches!(r, Ok(None)));
}

#[test]
fn rule_for_another_fund_or_group_is_quiet() {
    let q = quote(0);
    let mut other = rule(7, "change_rate_threshold", true);
    other.fund_id = Some(2);
    assert!(matches!(RuleEngine::evaluate(&other, &fund(), &q, None, &gte(10000)), Ok(None)));
    let mut grouped = rule(8, "change_rate_threshold", true);
    grouped.fund_id = None;
    grouped.group_name = Some("其他".to_owned());
    assert!(matches!(RuleEngine::evaluate(&grouped, &fund(), &q, None, &gte(10000)), Ok(None)));
    grouped.group_name = Some("核心".to_owned());
    assert!(matches!(RuleEngine::evaluate(&grouped, &fund(), &q, None, &gte(10000)), Ok(Some(_))));
}

#[test]
fn multiple_rules_generate_independent_alerts_for_same_fund() {
    let q = quote(0);
    let first = check_rule_for_fund(&rule(1, "change_rate_threshold", true), &fund(), &q, None, &gte(10000));
    let deviation = Ok(ThresholdBounds { gte: None, lte: None, abs_gte: Some(num(30000, "", "")) });
    let second = check_rule_for_fund(&rule(2, "estimated_nav_deviation", true), &fund(), &q, None, &deviation);
    match (first, second) {
        (Ok(Some(a)), Ok(Some(b))) => {
            assert!(a.reason.contains("涨跌幅"));
            assert!(b.reason.contains("估值偏离 5.00%"));
            assert_eq!(a.rule_id, 1);
            assert_eq!(b.rule_id, 2);
        }
        _ => panic!("both rules should fire"),
    }
}

#[test]
fn rule_errors_name_the_rule_and_fund() {
    let q = quote(0);
    let unknown = check_rule_for_fund(&rule(5, "mystery", true), &fund(), &q, None, &gte(1));
    match unknown {
        Err(e) => assert_eq!(e, "执行规则失败，rule_id=5，fund_id=1: 不支持的规则类型：mystery"),
        _ => panic!("unknown rule type should be refused"),
    }
    let unreadable = check_rule_for_fund(&rule(5, "nav_range", true), &fund(), &q, None, &Err("expected value at line 1 column 1".to_owned()));
    match unreadable {
        Err(e) => assert_eq!(e, "执行规则失败，rule_id=5，fund_id=1: 解析规则配置失败，rule_id=5，rule_type=nav_range: expected value at line 1 column 1"),
        _ => panic!("unreadable configuration should be refused"),
    }
}

#[test]
fn every_rule_error_has_its_message() {
    let q = quote(0);
    let empty = Ok(ThresholdBounds { gte: None, lte: None, abs_gte: None });
    let cases: Vec<(&str, &str)> = vec![
        ("change_rate_threshold", "涨跌幅阈值规则至少需要一个 gte 或 lte 条件"),
        ("nav_range", "净值区间规则至少需要一个 min 或 max 条件"),
        ("estimated_nav_deviation", "估值偏离规则至少需要一个 abs_gte、gte 或 lte 条件"),
    ];
    for (rule_type, message) in cases {
        match RuleEngine::evaluate(&rule(1, rule_type, true), &fund(), &q, None, &empty) {
            Err(e) => assert_eq!(e.message(), message),
            _ => panic!("missing bounds should be refused"),
        }
    }
    let mut bare = quote(0);
    bare.change_rate = None;
    bare.unit_nav = None;
    bare.estimated_deviation = None;
    match RuleEngine::evaluate(&rule(1, "change_rate_threshold", true), &fund(), &bare, None, &gte(1)) {
        Err(e @ RuleError::ChangeRateMissing(_)) => assert_eq!(e.message(), "基金 000001 缺少涨跌幅数据"),
        _ => panic!("missing change rate should be refused"),
    }
    match RuleEngine::evaluate(&rule(1, "nav_range", true), &fund(), &bare, None, &gte(1)) {
        Err(e) => assert_eq!(e.message(), "基金 000001 缺少单位净值数据"),
        _ => panic!("missing unit nav should be refused"),
    }
    let mut zero = quote(0);
    zero.unit_nav = Some(num(0, "0.00", "0.0000"));
    zero.estimated_deviation = None;
    match RuleEngine::evaluate(&rule(1, "estimated_nav_deviation", true), &fund(), &zero, None, &gte(1)) {
        Err(e) => assert_eq!(e.message(), "基金 000001 单位净值为 0，无法计算估值偏离"),
        _ => panic!("zero unit nav should be refused"),
    }
    let mut no_estimate = quote(0);
    no_estimate.estimated_nav = None;
    no_estimate.estimated_deviation = None;
    match RuleEngine::evaluate(&rule(1, "estimated_nav_deviation", true), &fund(), &no_estimate, None, &gte(1)) {
        Err(e) => assert_eq!(e.message(), "基金 000001 缺少估值数据"),
        _ => panic!("missing estimate should be refused"),
    }
}

#[test]
fn trigger_becomes_a_new_alert() {
    let q = quote(5 * MINUTE);
    let trigger = match RuleEngine::evaluate(&rule(4, "change_rate_threshold", true), &fund(), &q, None, &gte(10000)) {
        Ok(Some(t)) => t,
        _ => panic!("rule should fire"),
    };
    let alert = trigger.clone().into_new_alert();
    assert_eq!(alert.rule_id, trigger.rule_id);
    assert_eq!(alert.reason, trigger.reason);
    assert_eq!(alert.status, "new");
    assert_eq!(alert.triggered_at, 5 * MINUTE);
}
