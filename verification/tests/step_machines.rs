use fund_monitor::app::errors::FundIngestError;
use fund_monitor::domain::fund::Fund;
use fund_monitor::domain::fund_quote::{FundQuote, Number};
use fund_monitor::domain::monitor_rule::MonitorRule;
use fund_monitor::domain::rule_engine::{cooldown_end_computable, cooldown_reached, ThresholdBounds};
use fund_monitor::jobs::round::{poll_round_start, poll_round_step, RoundAction, RoundEvent, RoundStage};
use fund_monitor::jobs::rule_checks::{
    rule_check_start, rule_check_step, RuleCheckAction, RuleCheckEvent, RuleCheckInput, RuleCheckState,
};
use fund_monitor::providers::fetch_job::{fetch_job_start, fetch_job_step, FetchAction, FetchEvent, FetchJobState};
use fund_monitor::providers::fund_source::{FetchedFundSnapshot, ValuationItem, ValuationReply};
use fund_monitor::providers::valuation_search::{valuation_search_start, valuation_search_step, ValuationAction, ValuationEvent};

fn num(key: i64, f2: &str) -> Number {
    Number { order_key: key, fixed2: f2.to_owned(), fixed4: f2.to_owned() }
}

fn fund(id: i64, code: &str, enabled: bool) -> Fund {
    Fund { id, code: code.to_owned(), name: "基金".to_owned(), note: None, group_name: None, tags: None, enabled, created_at: 0, updated_at: 0 }
}

fn snapshot() -> FetchedFundSnapshot {
    FetchedFundSnapshot {
        code: "000001".to_owned(),
        confirmed_change_rate: None,
        change_rate: Some(num(1, "1.00")),
        estimated_nav: None,
        estimated_change_rate: None,
        estimated_at: None,
        fetched_at: 7,
        name: "基金".to_owned(),
        nav_date: None,
        source: "eastmoney/pingzhongdata".to_owned(),
        unit_nav: Some(num(2, "2.00")),
    }
}

#[test]
fn fetch_job_writes_quote_then_finishes_success() {
    let (state, action) = fetch_job_start(5);
    assert!(matches!(action, FetchAction::StartJob));
    let (state, action) = fetch_job_step(state, FetchEvent::JobStarted(11));
    assert!(matches!(action, FetchAction::FetchSnapshot));
    let (state, action) = fetch_job_step(state, FetchEvent::Fetched(snapshot()));
    match &action {
        FetchAction::WriteQuote(q) => {
            assert_eq!(q.fund_id, 5);
            assert_eq!(q.fetched_at, 7);
        }
        other => panic!("expected a quote write, got {:?}", other),
    }
    let (state, action) = fetch_job_step(state, FetchEvent::StoreDone);
    match &action {
        FetchAction::FinishJob { job_id, status, message } => {
            assert_eq!(*job_id, 11);
            assert_eq!(status, "success");
            assert!(message.is_none());
        }
        other => panic!("expected finishing, got {:?}", other),
    }
    let (state, action) = fetch_job_step(state, FetchEvent::StoreDone);
    assert!(matches!(action, FetchAction::Succeed));
    assert!(matches!(state, FetchJobState::Finished));
}

#[test]
fn network_failure_records_failed_job_without_dirty_data() {
    let (state, _) = fetch_job_start(5);
    let (state, _) = fetch_job_step(state, FetchEvent::JobStarted(11));
    let err = FundIngestError::source_unavailable("请求基金数据源失败：boom".to_owned());
    let (state, action) = fetch_job_step(state, FetchEvent::FetchFailed(err));
    match &action {
        FetchAction::FinishJob { job_id, status, message } => {
            assert_eq!(*job_id, 11);
            assert_eq!(status, "failed");
            assert_eq!(message.as_deref(), Some("请求基金数据源失败：boom"));
        }
        other => panic!("expected a failed finish, got {:?}", other),
    }
    let (_, action) = fetch_job_step(state, FetchEvent::StoreDone);
    match action {
        FetchAction::Fail(e) => assert_eq!(e.user_message(), "请求基金数据源失败：boom"),
        other => panic!("expected the fetch error, got {:?}", other),
    }
}

#[test]
fn failed_quote_write_and_failed_bookkeeping() {
    let (state, _) = fetch_job_start(5);
    let (state, _) = fetch_job_step(state, FetchEvent::JobStarted(11));
    let (state, _) = fetch_job_step(state, FetchEvent::Fetched(snapshot()));
    let (state, action) = fetch_job_step(state, FetchEvent::StoreFailed("disk".to_owned()));
    match &action {
        FetchAction::FinishJob { status, message, .. } => {
            assert_eq!(status, "failed");
            assert_eq!(message.as_deref(), Some("写入基金抓取结果失败：disk"));
        }
        other => panic!("expected a failed finish, got {:?}", other),
    }
    let (_, action) = fetch_job_step(state, FetchEvent::StoreFailed("db".to_owned()));
    match action {
        FetchAction::Fail(e) => assert_eq!(e.user_message(), "记录抓取失败任务失败：db"),
        other => panic!("expected the bookkeeping error, got {:?}", other),
    }
    let (state, _) = fetch_job_start(5);
    let (_, action) = fetch_job_step(state, FetchEvent::StoreFailed("db".to_owned()));
    assert!(matches!(action, FetchAction::Fail(FundIngestError::StorageFailure(_))));
    let (state, _) = fetch_job_start(5);
    let (_, action) = fetch_job_step(state, FetchEvent::StoreDone);
    assert!(matches!(action, FetchAction::Nothing));
}

fn quote() -> FundQuote {
    FundQuote {
        id: 1,
        fund_id: 1,
        unit_nav: Some(num(12000, "1.20")),
        estimated_nav: None,
        change_rate: Some(num(12500, "1.25")),
        estimated_deviation: None,
        fetched_at: 100,
        source: "s".to_owned(),
        created_at: 100,
    }
}

fn rule(id: i64) -> MonitorRule {
    MonitorRule {
        id,
        fund_id: Some(1),
        group_name: None,
        rule_type: "change_rate_threshold".to_owned(),
        threshold_config: String::new(),
        enabled: true,
        cooldown_minutes: 30,
        last_triggered_at: None,
        created_at: 0,
        updated_at: 0,
    }
}

fn bounds(gte: i64) -> Result<ThresholdBounds, String> {
    Ok(ThresholdBounds { gte: Some(num(gte, "")), lte: None, abs_gte: None })
}

#[test]
fn rule_checks_write_send_save_and_mark_in_order() {
    let input = RuleCheckInput {
        fund: fund(1, "000001", true),
        quote: quote(),
        rules: vec![rule(7), rule(8)],
        thresholds: vec![bounds(10000), bounds(99999)],
        notify: true,
    };
    let (state, action) = rule_check_start(&input);
    assert!(matches!(action, RuleCheckAction::ReadLastAlert { rule_id: 7, fund_id: 1 }));
    assert!(cooldown_reached(&input.rules[0], &input.fund, &input.quote, &input.thresholds[0]));
    assert!(cooldown_end_computable(30, None));
    let (state, action) = rule_check_step(&input, state, RuleCheckEvent::LastAlert(None));
    match &action {
        RuleCheckAction::WriteAlert(a) => {
            assert_eq!(a.rule_id, 7);
            assert!(a.reason.contains("涨跌幅 1.25%"));
        }
        other => panic!("expected an alert write, got {:?}", other),
    }
    let (state, action) = rule_check_step(&input, state, RuleCheckEvent::AlertWritten { alert_id: 3 });
    assert!(matches!(action, RuleCheckAction::SendAlert { alert_id: 3, rule_index: 0 }));
    let (state, action) = rule_check_step(&input, state, RuleCheckEvent::Sent(Err("boom".to_owned())));
    match &action {
        RuleCheckAction::SaveResult { alert_id, result } => {
            assert_eq!(*alert_id, 3);
            assert_eq!(result, "telegram 发送失败：boom");
        }
        other => panic!("expected saving the result, got {:?}", other),
    }
    let (state, action) = rule_check_step(&input, state, RuleCheckEvent::StoreDone);
    assert!(matches!(action, RuleCheckAction::MarkTriggered { rule_id: 7, triggered_at: 100 }));
    let (state, action) = rule_check_step(&input, state, RuleCheckEvent::StoreDone);
    assert!(matches!(action, RuleCheckAction::ReadLastAlert { rule_id: 8, fund_id: 1 }));
    let (state, action) = rule_check_step(&input, state, RuleCheckEvent::LastAlert(None));
    assert!(matches!(action, RuleCheckAction::Finish(Ok(()))));
    assert_eq!(state, RuleCheckState::Done);
}

#[test]
fn rule_checks_without_notifier_skip_sending_and_stop_at_first_failure() {
    let input = RuleCheckInput {
        fund: fund(1, "000001", true),
        quote: quote(),
        rules: vec![rule(7), rule(8)],
        thresholds: vec![bounds(10000), bounds(10000)],
        notify: false,
    };
    let (state, _) = rule_check_start(&input);
    let (state, _) = rule_check_step(&input, state, RuleCheckEvent::LastAlert(None));
    let (state, action) = rule_check_step(&input, state, RuleCheckEvent::AlertWritten { alert_id: 3 });
    assert!(matches!(action, RuleCheckAction::MarkTriggered { rule_id: 7, .. }));
    let (_, action) = rule_check_step(&input, state, RuleCheckEvent::StoreFailed("db".to_owned()));
    match action {
        RuleCheckAction::Finish(Err(e)) => assert_eq!(e, "更新规则触发时间失败，rule_id=7: db"),
        other => panic!("expected a stop, got {:?}", other),
    }
}

#[test]
fn poll_job_continues_when_single_fund_fails_and_skips_disabled_funds() {
    let (state, action) = poll_round_start();
    assert!(matches!(action, RoundAction::StartRoundJob));
    let (state, action) = poll_round_step(state, RoundEvent::JobStarted(9));
    assert!(matches!(action, RoundAction::ListFunds));
    let funds = vec![fund(1, "000001", true), fund(2, "000002", false), fund(3, "000003", true)];
    let (state, action) = poll_round_step(state, RoundEvent::FundsListed(funds));
    assert!(matches!(action, RoundAction::ListRules));
    let (state, action) = poll_round_step(state, RoundEvent::RulesListed);
    match &action {
        RoundAction::FetchFund { index, job_type } => {
            assert_eq!(*index, 0);
            assert_eq!(job_type, "fund_poll_fetch:000001");
        }
        other => panic!("expected a fetch, got {:?}", other),
    }
    let (state, action) = poll_round_step(state, RoundEvent::FundDone { rule_error: None });
    match &action {
        RoundAction::FetchFund { index, job_type } => {
            assert_eq!(*index, 2);
            assert_eq!(job_type, "fund_poll_fetch:000003");
        }
        other => panic!("expected the next enabled fund, got {:?}", other),
    }
    let (state, action) = poll_round_step(state, RoundEvent::FundFailed("请求基金数据源失败：boom".to_owned()));
    match &action {
        RoundAction::FinishRoundJob { job_id, status, message } => {
            assert_eq!(*job_id, 9);
            assert_eq!(status, "partial_success");
            assert_eq!(message.as_deref(), Some("共 2 只基金，成功 1，失败 1。000003: 请求基金数据源失败：boom"));
        }
        other => panic!("expected finishing the round, got {:?}", other),
    }
    let (state, action) = poll_round_step(state, RoundEvent::StoreDone);
    match action {
        RoundAction::Stop(Ok(summary)) => {
            assert_eq!(summary.total_funds, 2);
            assert_eq!(summary.succeeded_funds, 1);
            assert_eq!(summary.failed_funds, 1);
        }
        other => panic!("expected the summary, got {:?}", other),
    }
    assert!(matches!(state.stage, RoundStage::Done));
}

#[test]
fn poll_job_records_skipped_round_and_list_failures() {
    let (state, _) = poll_round_start();
    let (state, _) = poll_round_step(state, RoundEvent::JobStarted(9));
    let (state, action) = poll_round_step(state, RoundEvent::FundsListed(vec![fund(1, "000001", false)]));
    match &action {
        RoundAction::FinishRoundJob { status, message, .. } => {
            assert_eq!(status, "skipped");
            assert_eq!(message.as_deref(), Some("当前没有启用基金，跳过抓取"));
        }
        other => panic!("expected a skipped round, got {:?}", other),
    }
    let (_, action) = poll_round_step(state, RoundEvent::StoreFailed("db".to_owned()));
    match action {
        RoundAction::Stop(Err(e)) => assert_eq!(e, "更新基金轮询任务记录失败，job_id=9: db"),
        other => panic!("expected the bookkeeping error, got {:?}", other),
    }
    let (state, _) = poll_round_start();
    let (state, _) = poll_round_step(state, RoundEvent::JobStarted(9));
    let (state, action) = poll_round_step(state, RoundEvent::StoreFailed("db".to_owned()));
    match &action {
        RoundAction::FinishRoundJob { status, message, .. } => {
            assert_eq!(status, "failed");
            assert_eq!(message.as_deref(), Some("加载启用基金列表失败：db"));
        }
        other => panic!("expected a failed round, got {:?}", other),
    }
    let (_, action) = poll_round_step(state, RoundEvent::StoreDone);
    match action {
        RoundAction::Stop(Err(e)) => assert_eq!(e, "查询启用基金列表失败: db"),
        other => panic!("expected the list error, got {:?}", other),
    }
}

fn reply(item: Option<ValuationItem>) -> ValuationReply {
    ValuationReply { data: Some(item.into_iter().collect()), error_code: None }
}

#[test]
fn valuation_services_are_asked_in_turn() {
    assert!(matches!(valuation_search_start(0), ValuationAction::NotFound));
    assert!(matches!(valuation_search_start(2), ValuationAction::Ask(0)));
    assert!(matches!(valuation_search_step(2, 0, ValuationEvent::NoReply), ValuationAction::Ask(1)));
    let empty = ValuationItem { estimated_nav: None, estimated_change_rate: None, estimated_at: None };
    assert!(matches!(valuation_search_step(2, 0, ValuationEvent::Replied(reply(Some(empty)))), ValuationAction::Ask(1)));
    assert!(matches!(valuation_search_step(2, 1, ValuationEvent::Replied(reply(None))), ValuationAction::NotFound));
    let item = ValuationItem { estimated_nav: Some(num(5, "1.23")), estimated_change_rate: None, estimated_at: None };
    match valuation_search_step(2, 1, ValuationEvent::Replied(reply(Some(item)))) {
        ValuationAction::Found(v) => {
            assert_eq!(v.estimated_nav.map(|n| n.order_key), Some(5));
            assert_eq!(v.estimated_at, None);
        }
        _ => panic!("estimate expected"),
    }
}
