use fund_monitor::app::errors::FundIngestError;
use fund_monitor::domain::fund_quote::Number;
use fund_monitor::providers::fund_source::{
    assemble_snapshot, capture_optional, capture_required, history_decode_failure,
    manual_fetch_job_type, merge_source_names, merge_valuation_snapshot, new_fund_quote,
    parse_eastmoney_local_datetime, pingzhongdata_path, read_pingzhongdata, select_valuation,
    source_request_failure, store_failure, valuation_base_urls, NetWorthPoint, StoreStep,
    ValuationItem, ValuationReply, CODE_PATTERN, EASTMONEY_BASE_URL, NAME_PATTERN, SOURCE_NAME,
    VALUATION_SOURCE_NAME,
};
use fund_monitor::providers::http_client::{fetch_failure_text, normalize_base_url, request_url, FetchStage};

fn num(key: i64, fixed2: &str, fixed4: &str) -> Number {
    Number { order_key: key, fixed2: fixed2.to_owned(), fixed4: fixed4.to_owned() }
}

fn fixture(code: &str, name: &str) -> String {
    format!(
        r#"var fS_name = "{name}";var fS_code = "{code}";var gsz = "1.2300";var gszzl = "1.25";var Data_netWorthTrend = [{{"x":1721606400000,"y":1.1111,"equityReturn":0.11}},{{"x":1721692800000,"y":1.2000,"equityReturn":1.25}}];"#
    )
}

fn invalid_message(err: FundIngestError) -> String {
    match err {
        FundIngestError::InvalidSourceData(m) => m,
        other => panic!("expected invalid source data, got {:?}", other),
    }
}

#[test]
fn script_fields_are_read_with_estimates() {
    let fields = read_pingzhongdata("000001", &fixture("000001", "示例基金")).expect("fields");
    assert_eq!(fields.code, "000001");
    assert_eq!(fields.name, "示例基金");
    assert_eq!(
        fields.history_json,
        r#"[{"x":1721606400000,"y":1.1111,"equityReturn":0.11},{"x":1721692800000,"y":1.2000,"equityReturn":1.25}]"#
    );
    assert_eq!(fields.estimated_nav_text.as_deref(), Some("1.2300"));
    assert_eq!(fields.estimated_change_rate_text.as_deref(), Some("1.25"));
    assert_eq!(fields.estimated_at_text, None);
}

#[test]
fn byte_order_mark_is_ignored() {
    let body = format!("\u{feff}{}", fixture("000001", "示例基金"));
    assert!(read_pingzhongdata("000001", &body).is_ok());
}

#[test]
fn missing_fields_are_rejected() {
    let body = r#"var fS_code = "000001";var Data_netWorthTrend = [];"#;
    let err = read_pingzhongdata("000001", body).err().expect("missing fields should fail");
    assert_eq!(err.user_message(), "基金数据源缺少必要字段：基金名称");
    let err = read_pingzhongdata("000001", "nothing here").err().expect("missing code should fail");
    assert_eq!(invalid_message(err), "基金数据源缺少必要字段：基金代码");
    let body = r#"var fS_code = "000001";var fS_name = "示例基金";"#;
    let err = read_pingzhongdata("000001", body).err().expect("missing history should fail");
    assert_eq!(invalid_message(err), "基金数据源缺少必要字段：净值历史");
}

#[test]
fn blank_required_field_counts_as_missing() {
    let err = capture_required(NAME_PATTERN, r#"var fS_name = "   ";"#, "基金名称").err().expect("blank");
    assert_eq!(invalid_message(err), "基金数据源缺少必要字段：基金名称");
    assert_eq!(capture_required(CODE_PATTERN, r#"var  fS_code="  000002 ";"#, "基金代码").ok().as_deref(), Some("000002"));
    assert_eq!(capture_optional(CODE_PATTERN, "none"), None);
}

#[test]
fn script_for_another_fund_is_rejected() {
    let err = read_pingzhongdata("000001", &fixture("000002", "示例基金")).err().expect("mismatch");
    assert_eq!(invalid_message(err), "基金数据源返回的基金代码不匹配：期望 000001，实际 000002");
}

fn history() -> Vec<NetWorthPoint> {
    vec![
        NetWorthPoint { timestamp_ms: 1_721_606_400_000, y: num(11111, "1.11", "1.1111"), equity_return: Some(num(1100, "0.11", "0.1100")) },
        NetWorthPoint { timestamp_ms: 1_721_692_800_000, y: num(12000, "1.20", "1.2000"), equity_return: None },
    ]
}

#[test]
fn snapshot_takes_latest_point_and_prefers_estimated_rate() {
    let mut fields = read_pingzhongdata("000001", &fixture("000001", "示例基金")).expect("fields");
    fields.estimated_at_text = Some("2026-07-23 14:38".to_owned());
    let derived = Some(num(8000, "0.80", "0.8000"));
    let estimated_rate = Some(num(12500, "1.25", "1.2500"));
    let snapshot = assemble_snapshot(fields, &history(), derived, Some(num(12300, "1.23", "1.2300")), estimated_rate, 42)
        .expect("snapshot");
    assert_eq!(snapshot.code, "000001");
    assert_eq!(snapshot.unit_nav.as_ref().map(|n| n.order_key), Some(12000));
    assert_eq!(snapshot.nav_date, Some(1_721_692_800_000_000_000));
    assert_eq!(snapshot.confirmed_change_rate.as_ref().map(|n| n.order_key), Some(8000));
    assert_eq!(snapshot.change_rate.as_ref().map(|n| n.order_key), Some(12500));
    assert_eq!(snapshot.estimated_at, Some(1_784_788_680_000_000_000));
    assert_eq!(snapshot.fetched_at, 42);
    assert_eq!(snapshot.source, SOURCE_NAME);
    let quote = new_fund_quote(9, snapshot);
    assert_eq!(quote.fund_id, 9);
    assert_eq!(quote.source, "eastmoney/pingzhongdata");
}

#[test]
fn estimated_snapshot_fields_are_kept_separate_from_confirmed_nav() {
    let fields = read_pingzhongdata("000001", &fixture("000001", "示例基金")).expect("fields");
    let mut points = history();
    points[1].equity_return = Some(num(1500, "0.15", "0.1500"));
    let snapshot = assemble_snapshot(fields, &points, None, Some(num(12300, "1.23", "1.2300")), None, 0).expect("snapshot");
    assert_eq!(snapshot.unit_nav.as_ref().map(|n| n.order_key), Some(12000));
    assert_eq!(snapshot.estimated_nav.as_ref().map(|n| n.order_key), Some(12300));
    assert_eq!(snapshot.confirmed_change_rate.as_ref().map(|n| n.order_key), Some(1500));
    assert_eq!(snapshot.change_rate.as_ref().map(|n| n.order_key), Some(1500));
}

#[test]
fn empty_history_is_rejected() {
    let fields = read_pingzhongdata("000001", &fixture("000001", "示例基金")).expect("fields");
    let err = assemble_snapshot(fields, &Vec::new(), None, None, None, 0).err().expect("empty history");
    assert_eq!(invalid_message(err), "基金数据源未返回任何净值历史");
}

#[test]
fn local_datetimes_are_read_in_utc_plus_eight() {
    assert_eq!(parse_eastmoney_local_datetime("2026-07-23 14:38"), Some(1_784_788_680_000_000_000));
    assert_eq!(parse_eastmoney_local_datetime("2026-07-23 14:38:05"), Some(1_784_788_685_000_000_000));
    assert_eq!(parse_eastmoney_local_datetime("2026-07-23 14:38:xx"), Some(1_784_788_680_000_000_000));
    assert_eq!(parse_eastmoney_local_datetime("2024-02-29 09:30"), Some(1_709_170_200_000_000_000));
    assert_eq!(parse_eastmoney_local_datetime("2026-02-29 09:30"), None);
    assert_eq!(parse_eastmoney_local_datetime("2026-07-23"), None);
    assert_eq!(parse_eastmoney_local_datetime("2026-07-23 14"), None);
    assert_eq!(parse_eastmoney_local_datetime("2026-07-23 24:00"), None);
    assert_eq!(parse_eastmoney_local_datetime("2026-07-23-01 14:38"), None);
    assert_eq!(parse_eastmoney_local_datetime("2026-07-23 14:38:00:00"), None);
}

fn valuation_item(nav: Option<Number>, rate: Option<Number>, at: Option<&str>) -> ValuationItem {
    ValuationItem { estimated_nav: nav, estimated_change_rate: rate, estimated_at: at.map(|a| a.to_owned()) }
}

#[test]
fn valuation_reply_is_read_from_its_first_item() {
    let reply = ValuationReply {
        data: Some(vec![valuation_item(Some(num(12345, "1.23", "1.2345")), None, Some("2026-07-23 14:38"))]),
        error_code: Some(0),
    };
    let v = select_valuation(reply).expect("valuation");
    assert_eq!(v.estimated_nav.as_ref().map(|n| n.order_key), Some(12345));
    assert_eq!(v.estimated_at, Some(1_784_788_680_000_000_000));
    let failed = ValuationReply { data: Some(vec![valuation_item(Some(num(1, "", "")), None, None)]), error_code: Some(3) };
    assert!(select_valuation(failed).is_none());
    let empty = ValuationReply { data: Some(vec![valuation_item(None, None, Some("2026-07-23 14:38"))]), error_code: None };
    assert!(select_valuation(empty).is_none());
    assert!(select_valuation(ValuationReply { data: None, error_code: None }).is_none());
}

#[test]
fn valuation_endpoint_backfills_estimated_snapshot_when_pingzhongdata_has_none() {
    let body = r#"var fS_name = "示例基金";var fS_code = "000001";var Data_netWorthTrend = [{"x":1721692800000,"y":1.2000,"equityReturn":0.5}];"#;
    let fields = read_pingzhongdata("000001", body).expect("fields");
    let points = vec![NetWorthPoint { timestamp_ms: 1_721_692_800_000, y: num(12000, "1.20", "1.2000"), equity_return: Some(num(5000, "0.50", "0.5000")) }];
    let mut snapshot = assemble_snapshot(fields, &points, None, None, None, 0).expect("snapshot");
    assert!(snapshot.estimated_nav.is_none());
    let valuation = select_valuation(ValuationReply {
        data: Some(vec![valuation_item(Some(num(12345, "1.23", "1.2345")), None, Some("2026-07-23 14:38"))]),
        error_code: None,
    })
    .expect("valuation");
    merge_valuation_snapshot(&mut snapshot, valuation, Some(num(2875, "0.29", "0.2875")));
    assert_eq!(snapshot.estimated_nav.as_ref().map(|n| n.fixed4.clone()), Some("1.2345".to_owned()));
    assert_eq!(snapshot.estimated_change_rate.as_ref().map(|n| n.order_key), Some(2875));
    assert_eq!(snapshot.change_rate.as_ref().map(|n| n.order_key), Some(2875));
    assert_eq!(snapshot.estimated_at, Some(1_784_788_680_000_000_000));
    assert_eq!(snapshot.source, "eastmoney/pingzhongdata+eastmoney/fundcomapi");
    assert_eq!(snapshot.confirmed_change_rate.as_ref().map(|n| n.order_key), Some(5000));
}

#[test]
fn valuation_without_estimates_leaves_snapshot_unchanged() {
    let fields = read_pingzhongdata("000001", &fixture("000001", "示例基金")).expect("fields");
    let mut snapshot = assemble_snapshot(fields, &history(), None, None, None, 0).expect("snapshot");
    let valuation = fund_monitor::providers::fund_source::ValuationSnapshot { estimated_nav: None, estimated_change_rate: None, estimated_at: Some(5) };
    merge_valuation_snapshot(&mut snapshot, valuation, None);
    assert_eq!(snapshot.source, "eastmoney/pingzhongdata");
    assert_eq!(snapshot.estimated_at, None);
}

#[test]
fn source_names_are_merged_once() {
    let once = merge_source_names(SOURCE_NAME, VALUATION_SOURCE_NAME);
    assert_eq!(once, "eastmoney/pingzhongdata+eastmoney/fundcomapi");
    assert_eq!(merge_source_names(&once, VALUATION_SOURCE_NAME), once);
}

#[test]
fn valuation_services_depend_on_the_source_host() {
    let urls = valuation_base_urls(EASTMONEY_BASE_URL);
    assert_eq!(urls, vec!["https://fundcomapi.eastmoney.com".to_owned(), "https://fundcomapi.tiantianfunds.com".to_owned()]);
    assert_eq!(valuation_base_urls("http://127.0.0.1:9000"), vec!["http://127.0.0.1:9000".to_owned()]);
}

#[test]
fn paths_and_job_types() {
    assert_eq!(pingzhongdata_path("000001", 1_700_000_000), "pingzhongdata/000001.js?v=1700000000");
    assert_eq!(manual_fetch_job_type("000001"), "fund_manual_fetch:000001");
}

#[test]
fn ingest_errors_carry_their_context() {
    let err = source_request_failure("请求 http://x 失败: connection refused");
    assert!(matches!(err, FundIngestError::SourceUnavailable(_)));
    assert!(err.user_message().starts_with("请求基金数据源失败"));
    assert_eq!(invalid_message(history_decode_failure("EOF")), "解析基金净值历史失败：EOF");
    assert_eq!(store_failure(StoreStep::StartJob, "db").user_message(), "创建抓取任务记录失败：db");
    assert_eq!(store_failure(StoreStep::WriteQuote, "db").user_message(), "写入基金抓取结果失败：db");
    assert_eq!(store_failure(StoreStep::FinishJob, "db").user_message(), "更新抓取任务状态失败：db");
    assert_eq!(store_failure(StoreStep::RecordFailure, "db").user_message(), "记录抓取失败任务失败：db");
    assert!(matches!(store_failure(StoreStep::StartJob, "db"), FundIngestError::StorageFailure(_)));
}

#[test]
fn http_client_urls_and_failures() {
    assert_eq!(normalize_base_url("http://h:1///"), "http://h:1");
    assert_eq!(normalize_base_url(&normalize_base_url("http://h:1/")), "http://h:1");
    assert_eq!(request_url("http://h:1", "/pingzhongdata/000001.js"), "http://h:1/pingzhongdata/000001.js");
    assert_eq!(request_url("http://h:1", "a"), "http://h:1/a");
    assert_eq!(fetch_failure_text(FetchStage::Send, "http://h/a", "refused"), "请求 http://h/a 失败: refused");
    assert_eq!(fetch_failure_text(FetchStage::Status, "http://h/a", "404"), "请求 http://h/a 返回错误状态: 404");
    assert_eq!(fetch_failure_text(FetchStage::Body, "http://h/a", "eof"), "读取 http://h/a 响应失败: eof");
}
