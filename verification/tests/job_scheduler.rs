use fund_monitor::app::config::{AppConfig, ConfigError, RawSettings};
use fund_monitor::app::errors::FundIngestError;
use fund_monitor::jobs::poll_funds::{
    build_summary, build_summary_message, fund_poll_job_type, funds_load_failure_message,
    rule_check_failure, rules_load_failure_message, skipped_round, PollRound, RuleCheckStep,
    ROUND_JOB_TYPE,
};
use fund_monitor::storage::db::sqlite_parent_dir;

#[test]
fn poll_job_records_skipped_run_when_no_active_funds() {
    let (summary, message) = skipped_round();
    assert_eq!(summary.status, "skipped");
    assert_eq!(summary.total_funds, 0);
    assert_eq!(message, "当前没有启用基金，跳过抓取");
    assert_eq!(ROUND_JOB_TYPE, "poll_funds");
}

#[test]
fn poll_job_continues_when_single_fund_fails() {
    let mut round = PollRound::new();
    round.record_fetch_success("000001", None);
    let err = FundIngestError::source_unavailable("请求基金数据源失败：boom".to_owned());
    round.record_fetch_failure("000002", err.user_message());
    let (summary, message) = round.finish();
    assert_eq!(summary.status, "partial_success");
    assert_eq!(summary.total_funds, 2);
    assert_eq!(summary.succeeded_funds, 1);
    assert_eq!(summary.failed_funds, 1);
    assert_eq!(message.as_deref(), Some("共 2 只基金，成功 1，失败 1。000002: 请求基金数据源失败：boom"));
}

#[test]
fn fully_successful_round_has_no_message() {
    let mut round = PollRound::new();
    round.record_fetch_success("000001", None);
    round.record_fetch_success("000002", None);
    let (summary, message) = round.finish();
    assert_eq!(summary.status, "success");
    assert_eq!(message, None);
}

#[test]
fn rule_errors_make_round_partial_and_all_failures_make_it_failed() {
    let mut round = PollRound::new();
    round.record_fetch_success("000001", Some("执行规则失败，rule_id=1，fund_id=1: x".to_owned()));
    let (summary, message) = round.finish();
    assert_eq!(summary.status, "partial_success");
    assert_eq!(message.as_deref(), Some("共 1 只基金，成功 1，失败 0。000001: 执行规则失败，rule_id=1，fund_id=1: x"));
    let mut failed = PollRound::new();
    failed.record_fetch_failure("000001", "a");
    failed.record_fetch_failure("000002", "b");
    let (summary, message) = failed.finish();
    assert_eq!(summary.status, "failed");
    assert_eq!(message.as_deref(), Some("共 2 只基金，成功 0，失败 2。000001: a；000002: b"));
}

#[test]
fn summary_helpers() {
    let summary = build_summary(3, 0, false);
    assert_eq!(summary.status, "success");
    assert_eq!(build_summary_message(&summary, &[]), None);
    assert_eq!(build_summary(0, 2, false).status, "failed");
    assert_eq!(fund_poll_job_type("000001"), "fund_poll_fetch:000001");
    assert_eq!(funds_load_failure_message("db"), "加载启用基金列表失败：db");
    assert_eq!(rules_load_failure_message("db"), "加载启用规则失败：db");
}

#[test]
fn rule_check_store_failures_name_their_ids() {
    assert_eq!(
        rule_check_failure(RuleCheckStep::LatestAlert { rule_id: 1, fund_id: 2 }, "db"),
        "查询规则最近告警失败，rule_id=1，fund_id=2: db"
    );
    assert_eq!(
        rule_check_failure(RuleCheckStep::WriteAlert { rule_id: 1, fund_id: 2 }, "db"),
        "写入告警事件失败，rule_id=1，fund_id=2: db"
    );
    assert_eq!(
        rule_check_failure(RuleCheckStep::SaveNotification { alert_id: 3, fund_id: 2 }, "db"),
        "更新通知结果失败，alert_id=3，fund_id=2: db"
    );
    assert_eq!(
        rule_check_failure(RuleCheckStep::MarkTriggered { rule_id: 1 }, "db"),
        "更新规则触发时间失败，rule_id=1: db"
    );
}

fn raw() -> RawSettings {
    RawSettings {
        bind_addr: None,
        database_url: None,
        poll_interval_seconds: None,
        telegram_api_base_url: None,
        telegram_bot_token: None,
        telegram_chat_id: None,
    }
}

#[test]
fn configuration_defaults_and_trimming() {
    let config = AppConfig::from_settings(raw()).ok().expect("defaults");
    assert_eq!(config.bind_addr, "127.0.0.1:8866");
    assert_eq!(config.database_url, "sqlite://data/fund-monitor.db");
    assert_eq!(config.poll_interval_seconds, 300);
    assert_eq!(config.telegram_api_base_url, "https://api.telegram.org");
    assert_eq!(config.telegram_bot_token, None);
    let config = AppConfig::from_settings(RawSettings {
        poll_interval_seconds: Some(" 60 ".to_owned()),
        telegram_bot_token: Some("  ".to_owned()),
        telegram_chat_id: Some(" 123456 ".to_owned()),
        ..raw()
    })
    .ok()
    .expect("settings");
    assert_eq!(config.poll_interval_seconds, 60);
    assert_eq!(config.telegram_bot_token, None);
    assert_eq!(config.telegram_chat_id.as_deref(), Some("123456"));
}

#[test]
fn configuration_errors() {
    let blank = AppConfig::from_settings(RawSettings { bind_addr: Some(" ".to_owned()), ..raw() }).err().expect("blank");
    assert!(matches!(blank, ConfigError::Blank(_)));
    assert_eq!(blank.message(), "FUND_MONITOR_BIND_ADDR 不能为空");
    let bad = AppConfig::from_settings(RawSettings { poll_interval_seconds: Some("-1".to_owned()), ..raw() }).err().expect("bad");
    assert_eq!(bad.message(), "FUND_MONITOR_POLL_INTERVAL_SECONDS 必须是无符号整数");
    assert_eq!(bad.cause().as_deref(), Some("invalid digit found in string"));
    let big = AppConfig::from_settings(RawSettings { poll_interval_seconds: Some("99999999999999999999".to_owned()), ..raw() }).err().expect("big");
    assert_eq!(big.message(), "FUND_MONITOR_POLL_INTERVAL_SECONDS 必须是无符号整数");
    assert_eq!(big.cause().as_deref(), Some("number too large to fit in target type"));
    let zero = AppConfig::from_settings(RawSettings { poll_interval_seconds: Some("0".to_owned()), ..raw() }).err().expect("zero");
    assert_eq!(zero.message(), "FUND_MONITOR_POLL_INTERVAL_SECONDS 必须大于 0");
    let unreadable = ConfigError::Unreadable("K".to_owned(), "environment variable was not valid unicode".to_owned());
    assert_eq!(unreadable.message(), "读取环境变量 K 失败");
    assert_eq!(unreadable.cause().as_deref(), Some("environment variable was not valid unicode"));
    assert_eq!(zero.cause(), None);
}

#[test]
fn sqlite_parent_directory_is_derived_from_the_url() {
    assert_eq!(sqlite_parent_dir("sqlite://data/fund-monitor.db").as_deref(), Some("data"));
    assert_eq!(sqlite_parent_dir("sqlite:///tmp/x/fund.db").as_deref(), Some("/tmp/x"));
    assert_eq!(sqlite_parent_dir("sqlite://fund.db"), None);
    assert_eq!(sqlite_parent_dir("sqlite://:memory:"), None);
    assert_eq!(sqlite_parent_dir("sqlite://file:test.db"), None);
    assert_eq!(sqlite_parent_dir("sqlite://"), None);
    assert_eq!(sqlite_parent_dir("postgres://x/y"), None);
}
