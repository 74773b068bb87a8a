use fund_monitor::app::config::AppConfig;
use fund_monitor::domain::alert_event::AlertListItem;
use fund_monitor::domain::fund::Fund;
use fund_monitor::domain::fund_quote::{FundQuote, Number};
use fund_monitor::domain::job_run::JobRun;
use fund_monitor::domain::monitor_rule::MonitorRule;
use fund_monitor::web::alerts::{build_alerts_page, decide_status_update, status_updated_notice_message};
use fund_monitor::web::dashboard::{build_dashboard, dashboard_load_failure, DashboardSource, job_hint, job_type_label, map_job_view, status_label, status_tone};
use fund_monitor::web::funds::{
    empty_to_none, fund_detail_path, map_fund_detail, map_fund_list, prepare_fund_update,
    build_fund_detail, decide_new_fund, prepare_new_fund, FundFormError, FundFormInput, FundMetadataFormInput,
};
use fund_monitor::web::layout::display_datetime;
use fund_monitor::providers::fund_source::parse_eastmoney_local_datetime;
use fund_monitor::web::rules::{
    build_new_rule, build_rules_page, shown_value, decide_toggle, map_rule_view, parse_i64_field, rule_type_label,
    target_label, threshold_summary, updated_notice_message, RuleFormInput, ThresholdNumbers,
};
use fund_monitor::web::settings::{build_settings_view, mask_secret};

const HOUR: i128 = 3_600_000_000_000;

fn fund(id: i64, code: &str, name: &str, group: Option<&str>) -> Fund {
    Fund {
        id,
        code: code.to_owned(),
        name: name.to_owned(),
        note: None,
        group_name: group.map(|g| g.to_owned()),
        tags: None,
        enabled: true,
        created_at: 0,
        updated_at: 0,
    }
}

fn job(id: i64, job_type: &str, status: &str, started_at: i128, error: Option<&str>) -> JobRun {
    JobRun {
        id,
        job_type: job_type.to_owned(),
        status: status.to_owned(),
        started_at,
        finished_at: Some(started_at + 1),
        error_message: error.map(|e| e.to_owned()),
    }
}

fn alert(status: &str) -> AlertListItem {
    AlertListItem {
        id: 1,
        rule_id: 1,
        fund_id: 1,
        fund_code: "000001".to_owned(),
        fund_name: "示例基金A".to_owned(),
        rule_type: "change_rate_threshold".to_owned(),
        reason: "涨跌幅超过阈值".to_owned(),
        status: status.to_owned(),
        triggered_at: 0,
        notification_result: None,
        created_at: 0,
        updated_at: 0,
    }
}

fn config() -> AppConfig {
    AppConfig {
        bind_addr: "127.0.0.1:8866".to_owned(),
        database_url: "sqlite://data/fund-monitor.db".to_owned(),
        poll_interval_seconds: 300,
        telegram_api_base_url: "https://api.telegram.org".to_owned(),
        telegram_bot_token: Some("TEST_TOKEN".to_owned()),
        telegram_chat_id: Some("123456".to_owned()),
    }
}

#[test]
fn datetimes_are_shown_in_utc_plus_eight() {
    assert_eq!(display_datetime(0), "1970-01-01 08:00:00");
    assert_eq!(display_datetime(16 * HOUR), "1970-01-02 00:00:00");
    assert_eq!(display_datetime(-9 * HOUR), "1969-12-31 23:00:00");
}

#[test]
fn settings_page_shows_runtime_and_notification_config() {
    let view = build_settings_view(&config(), true);
    assert_eq!(view.title, "系统配置");
    assert_eq!(view.runtime_settings[1].label, "轮询频率");
    assert_eq!(view.runtime_settings[1].value, "300 秒");
    assert_eq!(view.data_source_settings[0].value, "eastmoney/pingzhongdata");
    assert_eq!(view.notification_settings[0].value, "已启用");
    assert_eq!(view.notification_settings[2].value, "123456");
    assert_eq!(view.notification_settings[3].value, "******OKEN");
    let quiet = build_settings_view(&AppConfig { telegram_bot_token: None, telegram_chat_id: None, ..config() }, false);
    assert_eq!(quiet.notification_settings[0].value, "未配置");
    assert_eq!(quiet.notification_settings[2].value, "-");
    assert_eq!(quiet.notification_settings[3].value, "-");
}

#[test]
fn secrets_show_only_their_last_four_bytes() {
    assert_eq!(mask_secret(None), "-");
    assert_eq!(mask_secret(Some("")), "");
    assert_eq!(mask_secret(Some("abc")), "abc");
    assert_eq!(mask_secret(Some("abcd")), "abcd");
    assert_eq!(mask_secret(Some("123456:ABCDEF")), "*********CDEF");
    assert_eq!(mask_secret(Some("密钥abcd")), "******abcd");
}

#[test]
fn dashboard_page_shows_overview_and_latest_alert_summary() {
    let funds = vec![fund(1, "000001", "示例基金A", Some(" 核心 ")), fund(2, "000002", "示例基金B", Some("核心"))];
    let jobs = vec![job(2, "fund_poll_fetch:000001", "success", HOUR, None), job(1, "poll_funds", "success", 0, None)];
    let alerts = vec![alert("new")];
    let view = build_dashboard(&funds, jobs, alerts);
    assert_eq!(view.signal.tone, "new");
    assert_eq!(view.signal.status_label, "告警待处理");
    assert_eq!(view.signal.summary, "示例基金A 在 1970-01-01 08:00:00 命中监控规则，需要尽快确认处理。");
    assert_eq!(view.metrics.len(), 4);
    assert_eq!(view.metrics[0].value, "2 只");
    assert_eq!(view.metrics[0].hint, "基金池已覆盖 1 个分组维度");
    assert_eq!(view.metrics[1].label, "轮询任务");
    assert_eq!(view.metrics[3].value, "1 条待处理");
    assert_eq!(view.alert_focus.heading, "示例基金A (000001)");
    assert_eq!(view.alert_focus.reason, "涨跌幅超过阈值");
    assert_eq!(view.recent_jobs[1].job_type, "poll_funds");
    assert_eq!(view.recent_jobs[0].job_label, "基金抓取 000001");
    assert_eq!(view.active_funds.len(), 2);
    assert_eq!(view.active_funds[0].detail_url, "/funds/1");
    assert_eq!(view.active_funds[0].tags, "未设置标签");
}

#[test]
fn dashboard_cold_start_and_failure_headlines() {
    let cold = build_dashboard(&Vec::new(), Vec::new(), Vec::new());
    assert_eq!(cold.signal.status_label, "等待启动");
    assert_eq!(cold.metrics[1].value, "未启动");
    assert_eq!(cold.metrics[3].value, "静默");
    assert_eq!(cold.alert_focus.triggered_at, "等待首轮调度");
    assert_eq!(cold.metrics[0].hint, "当前基金池尚未配置分组维度");
    let failed = build_dashboard(&Vec::new(), vec![job(1, "poll_funds", "failed", 0, Some("boom"))], vec![alert("processed")]);
    assert_eq!(failed.signal.tone, "failed");
    assert_eq!(failed.signal.summary, "基金轮询 最近一次执行失败，需要检查任务日志。");
    assert_eq!(failed.signal.meta, "boom");
    assert_eq!(failed.metrics[3].value, "已归档");
    let many: Vec<Fund> = (1..=8).map(|i| fund(i, "00000X", "基金", None)).collect();
    assert_eq!(build_dashboard(&many, Vec::new(), Vec::new()).active_funds.len(), 6);
}

#[test]
fn job_and_status_labels() {
    assert_eq!(status_tone("partial_success"), "running");
    assert_eq!(status_label("skipped"), "已跳过");
    assert_eq!(job_type_label("poll_funds"), "基金轮询");
    assert_eq!(job_type_label("other"), "系统任务");
    assert_eq!(job_hint(&job(1, "poll_funds", "running", 0, None)), "开始于 1970-01-01 08:00:00");
    let row = map_job_view(JobRun { finished_at: None, ..job(1, "poll_funds", "running", 0, None) });
    assert_eq!(row.finished_at, "-");
    assert_eq!(row.error_message, "-");
}

#[test]
fn alerts_page_shows_rows_and_notice() {
    let page = build_alerts_page(vec![alert("new")], None, status_updated_notice_message("processed"));
    assert_eq!(page.title, "告警列表");
    assert_eq!(page.alerts[0].fund_label, "示例基金A (000001)");
    assert_eq!(page.alerts[0].status_label, "新告警");
    assert_eq!(page.alerts[0].notification_result, "未发送外部通知");
    assert!(page.has_notice);
    assert_eq!(page.notice_message, "已将告警标记为已处理");
    assert!(!page.has_error);
    assert_eq!(page.error_message, "");
}

#[test]
fn alert_status_update_accepts_only_known_statuses() {
    assert_eq!(decide_status_update(" processed "), Ok(("processed".to_owned(), "/alerts?updated=processed".to_owned())));
    assert_eq!(decide_status_update("new"), Err("不支持的告警状态".to_owned()));
    assert_eq!(status_updated_notice_message("ignored").as_deref(), Some("已将告警标记为已忽略"));
}

#[test]
fn invalid_form_returns_error_without_writing_data() {
    let form = FundFormInput { code: " ".to_owned(), name: "".to_owned(), note: String::new(), group_name: String::new(), tags: String::new() };
    let err = prepare_new_fund(&form).err().expect("blank form");
    assert_eq!(err, FundFormError::CodeOrNameBlank);
    assert_eq!(err.message(), "基金代码和名称不能为空");
    assert_eq!(FundFormError::DuplicateCode.message(), "基金代码已存在");
}

#[test]
fn create_fund_trims_fields() {
    let form = FundFormInput { code: " 000001 ".to_owned(), name: "示例基金".to_owned(), note: "  ".to_owned(), group_name: " 核心 ".to_owned(), tags: String::new() };
    let new_fund = prepare_new_fund(&form).expect("valid form");
    assert_eq!(new_fund.code, "000001");
    assert_eq!(new_fund.note, None);
    assert_eq!(new_fund.group_name.as_deref(), Some("核心"));
    assert!(new_fund.enabled);
    assert_eq!(empty_to_none(" x "), Some("x".to_owned()));
}

#[test]
fn update_fund_metadata_requires_a_name() {
    let current = fund(1, "000001", "示例基金", None);
    let form = FundMetadataFormInput { name: "示例基金A".to_owned(), note: "更新备注".to_owned(), group_name: String::new(), tags: String::new() };
    let update = prepare_fund_update(&current, form).ok().expect("valid update");
    assert_eq!(update.name, "示例基金A");
    assert_eq!(update.note.as_deref(), Some("更新备注"));
    let blank = FundMetadataFormInput { name: " ".to_owned(), note: "n".to_owned(), group_name: String::new(), tags: String::new() };
    match prepare_fund_update(&current, blank) {
        Err((view, e)) => {
            assert_eq!(e.message(), "基金名称不能为空");
            assert_eq!(view.code, "000001");
            assert_eq!(view.note, "n");
        }
        Ok(_) => panic!("blank name should be refused"),
    }
    assert_eq!(fund_detail_path(12), "/funds/12");
    let list = map_fund_list(vec![current.clone()]);
    assert_eq!(list[0].code, "000001");
    assert_eq!(map_fund_detail(current).name, "示例基金");
}

fn no_numbers() -> ThresholdNumbers {
    ThresholdNumbers { change_rate_gte: None, change_rate_lte: None, nav_min: None, nav_max: None, deviation_abs_gte: None, deviation_gte: None, deviation_lte: None }
}

#[test]
fn invalid_rule_form_returns_error_without_writing_rule() {
    let mut form = RuleFormInput::default();
    form.target_scope = "fund".to_owned();
    form.fund_id = "1".to_owned();
    form.rule_type = "change_rate_threshold".to_owned();
    form.cooldown_minutes = "30".to_owned();
    assert_eq!(build_new_rule(&form, &no_numbers()).err().as_deref(), Some("当前规则至少需要填写一个阈值条件"));
}

#[test]
fn create_rule_writes_threshold_json() {
    let mut form = RuleFormInput::default();
    form.target_scope = "fund".to_owned();
    form.fund_id = "1".to_owned();
    form.rule_type = "change_rate_threshold".to_owned();
    form.change_rate_gte = "1.5".to_owned();
    let numbers = ThresholdNumbers { change_rate_gte: Some("1.5".to_owned()), ..no_numbers() };
    let rule = build_new_rule(&form, &numbers).expect("valid rule");
    assert_eq!(rule.fund_id, Some(1));
    assert_eq!(rule.threshold_config, r#"{"gte":1.5}"#);
    assert!(rule.enabled);
    let mut bad = form.clone();
    bad.cooldown_minutes = "-1".to_owned();
    assert_eq!(build_new_rule(&bad, &numbers).err().as_deref(), Some("冷却时间不能小于 0"));
    let mut nav = RuleFormInput::default();
    nav.rule_type = "nav_range".to_owned();
    nav.nav_min = "1.23".to_owned();
    nav.nav_max = "1.24".to_owned();
    let nav_numbers = ThresholdNumbers { nav_min: Some("1.23".to_owned()), nav_max: Some("1.24".to_owned()), ..no_numbers() };
    assert_eq!(build_new_rule(&nav, &nav_numbers).expect("nav rule").threshold_config, r#"{"max":1.24,"min":1.23}"#);
}

#[test]
fn rule_form_fields_and_toggles() {
    assert_eq!(parse_i64_field(" 42 ", "冷却时间"), Ok(Some(42)));
    assert_eq!(parse_i64_field("", "冷却时间"), Ok(None));
    assert_eq!(parse_i64_field("x", "冷却时间"), Err("冷却时间 必须是整数".to_owned()));
    assert_eq!(decide_toggle("false"), Ok((false, "/rules?updated=disabled".to_owned())));
    assert_eq!(decide_toggle("maybe"), Err("规则启停参数不合法".to_owned()));
    assert_eq!(updated_notice_message("created").as_deref(), Some("已新增监控规则"));
    assert_eq!(updated_notice_message("other"), None);
    assert_eq!(rule_type_label("nav_range"), "净值区间");
}

fn stored_rule(fund_id: Option<i64>, group: Option<&str>) -> MonitorRule {
    MonitorRule {
        id: 1,
        fund_id,
        group_name: group.map(|g| g.to_owned()),
        rule_type: "change_rate_threshold".to_owned(),
        threshold_config: r#"{"gte":1.5,"lte":"x"}"#.to_owned(),
        enabled: true,
        cooldown_minutes: 30,
        last_triggered_at: None,
        created_at: 0,
        updated_at: 0,
    }
}

#[test]
fn create_rule_shows_up_in_rules_list() {
    let funds = vec![fund(1, "000001", "示例基金", Some("核心"))];
    let rules = vec![stored_rule(Some(1), None)];
    let page = build_rules_page(&funds, &rules);
    assert_eq!(page.rules[0].rule_type_label, "涨跌幅阈值");
    assert_eq!(page.rules[0].target_label, "示例基金 (000001)");
    assert!(page.rules[0].threshold_summary.contains("gte=1.5"));
    assert_eq!(page.rules[0].status_label, "已启用");
    assert_eq!(page.groups, vec!["核心".to_owned()]);
    assert_eq!(threshold_summary(&stored_rule(None, None)), "gte=1.5, lte=x");
    let mut raw = stored_rule(None, None);
    raw.threshold_config = "not json".to_owned();
    assert_eq!(threshold_summary(&raw), "not json");
    let labels = vec![(1i64, "示例基金 (000001)".to_owned())];
    assert_eq!(target_label(&stored_rule(Some(9), None), &labels), "基金 #9");
    assert_eq!(target_label(&stored_rule(None, Some("核心")), &labels), "分组：核心");
    assert_eq!(target_label(&stored_rule(None, None), &labels), "全局");
    assert_eq!(map_rule_view(&stored_rule(None, None), &labels).target_label, "全局");
}

#[test]
fn optional_field_read_back_reads_the_same() {
    let stored = empty_to_none("  备注  ").expect("non-blank");
    assert_eq!(stored, "备注");
    assert_eq!(empty_to_none(&stored), Some(stored.clone()));
    assert_eq!(empty_to_none(" \t "), None);
}

#[test]
fn default_forms_are_empty_but_for_scope_and_cooldown() {
    let form = RuleFormInput::default();
    assert_eq!(form.target_scope, "all");
    assert_eq!(form.cooldown_minutes, "30");
    assert_eq!(form.rule_type, "");
    let fund_form = FundFormInput::default();
    assert_eq!(fund_form.code, "");
    assert_eq!(FundMetadataFormInput::default().name, "");
}

#[test]
fn new_fund_with_existing_code_is_refused_after_blank_check() {
    let blank = FundFormInput { code: " ".to_owned(), name: "x".to_owned(), note: String::new(), group_name: String::new(), tags: String::new() };
    assert_eq!(decide_new_fund(&blank, true).err(), Some(FundFormError::CodeOrNameBlank));
    let form = FundFormInput { code: " 000001 ".to_owned(), name: "示例基金".to_owned(), note: String::new(), group_name: String::new(), tags: String::new() };
    assert_eq!(decide_new_fund(&form, true).err(), Some(FundFormError::DuplicateCode));
    let created = decide_new_fund(&form, false).expect("new code");
    assert_eq!(created.code, "000001");
    assert!(created.enabled);
}

#[test]
fn dashboard_failures_name_their_source() {
    assert_eq!(dashboard_load_failure(DashboardSource::Funds, "db locked"), "读取基金列表失败：db locked");
    assert_eq!(dashboard_load_failure(DashboardSource::Jobs, "x"), "读取任务执行记录失败：x");
    assert_eq!(dashboard_load_failure(DashboardSource::Alerts, ""), "读取最近告警失败：");
}

#[test]
fn shown_value_prefers_raw_string() {
    assert_eq!(shown_value(Some("abc".to_owned()), "\"abc\"".to_owned()), "abc");
    assert_eq!(shown_value(None, "1.5".to_owned()), "1.5");
}

#[test]
fn display_datetime_across_calendar_edges() {
    assert_eq!(display_datetime((1_709_164_800 - 8 * 3600 + 3723) * 1_000_000_000), "2024-02-29 01:02:03");
    assert_eq!(display_datetime(-1_000_000_000 - 8 * HOUR), "1969-12-31 23:59:59");
    assert_eq!(display_datetime((951_782_400 - 8 * 3600) * 1_000_000_000), "2000-02-29 00:00:00");
}

fn stored_quote(fetched_at: i128, nav: &str) -> FundQuote {
    FundQuote {
        id: 1,
        fund_id: 1,
        unit_nav: Some(Number { order_key: 1, fixed2: String::new(), fixed4: nav.to_owned() }),
        estimated_nav: None,
        change_rate: Some(Number { order_key: 1, fixed2: "0.88".to_owned(), fixed4: String::new() }),
        estimated_deviation: None,
        fetched_at,
        source: "eastmoney/pingzhongdata".to_owned(),
        created_at: fetched_at,
    }
}

#[test]
fn fund_detail_shows_history_in_given_order_and_empty_state() {
    let f = fund(1, "000001", "示例基金", None);
    let quotes = vec![stored_quote(2 * HOUR, "1.3000"), stored_quote(HOUR, "1.1000")];
    let page = build_fund_detail(&f, &quotes, true);
    assert!(!page.is_empty);
    assert_eq!(page.rows.len(), 2);
    assert_eq!(page.rows[0].unit_nav, "1.3000");
    assert_eq!(page.rows[1].unit_nav, "1.1000");
    assert_eq!(page.rows[0].fetched_at, "1970-01-01 10:00:00");
    assert_eq!(page.rows[0].estimated_nav, "-");
    assert_eq!(page.rows[0].change_rate, "0.88%");
    assert_eq!(page.rows[0].source, "eastmoney/pingzhongdata");
    assert_eq!(page.notice.as_deref(), Some("已完成最近一次基金数据抓取"));
    assert_eq!(page.fund.code, "000001");
    let empty = build_fund_detail(&f, &Vec::new(), false);
    assert!(empty.is_empty);
    assert!(empty.rows.is_empty());
    assert_eq!(empty.notice, None);
}

#[test]
fn wall_clock_times_read_back_as_written() {
    for text in ["2024-02-29 15:00", "1970-01-01 08:00", "2000-12-31 23:59", "1900-03-01 00:00"] {
        let instant = parse_eastmoney_local_datetime(text).expect("valid wall-clock time");
        assert_eq!(display_datetime(instant), format!("{text}:00"));
    }
    assert_eq!(parse_eastmoney_local_datetime("2023-02-29 10:00"), None);
}
