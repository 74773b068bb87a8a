use fund_monitor::app::config::AppConfig;
use fund_monitor::domain::alert_event::AlertEvent;
use fund_monitor::domain::fund::Fund;
use fund_monitor::domain::monitor_rule::MonitorRule;
use fund_monitor::jobs::poll_funds::notification_result_text;
use fund_monitor::notifications::telegram::{
    interpret_send_outcome, render_alert_message, SendOutcome, TelegramConfigError,
    TelegramNotifier, TelegramReply,
};

const TELEGRAM_BOT_TOKEN: &str = "TEST_TOKEN";
const TELEGRAM_CHAT_ID: &str = "123456";

fn config(token: Option<&str>, chat: Option<&str>, base: &str) -> AppConfig {
    AppConfig {
        bind_addr: "127.0.0.1:0".to_owned(),
        database_url: "sqlite://data/test.db".to_owned(),
        poll_interval_seconds: 300,
        telegram_api_base_url: base.to_owned(),
        telegram_bot_token: token.map(|t| t.to_owned()),
        telegram_chat_id: chat.map(|c| c.to_owned()),
    }
}

#[test]
fn telegram_config_partial_missing_returns_clear_error() {
    let config = AppConfig {
        bind_addr: "127.0.0.1:0".to_owned(),
        database_url: "sqlite://data/test.db".to_owned(),
        poll_interval_seconds: 300,
        telegram_api_base_url: "https://api.telegram.org".to_owned(),
        telegram_bot_token: Some(TELEGRAM_BOT_TOKEN.to_owned()),
        telegram_chat_id: None,
    };

    let err = match TelegramNotifier::from_app_config(&config) {
        Ok(_) => panic!("partial telegram config should fail"),
        Err(err) => err,
    };
    assert!(err.message().contains("FUND_MONITOR_TELEGRAM_BOT_TOKEN"));
    assert!(err.message().contains("FUND_MONITOR_TELEGRAM_CHAT_ID"));
}

#[test]
fn telegram_config_with_only_chat_id_is_refused() {
    let result = TelegramNotifier::from_app_config(&config(None, Some(TELEGRAM_CHAT_ID), "https://api.telegram.org"));
    assert!(matches!(result, Err(TelegramConfigError::PartialCredentials)));
}

#[test]
fn telegram_config_without_credentials_gives_no_notifier() {
    let result = TelegramNotifier::from_app_config(&config(None, None, "https://api.telegram.org"));
    assert!(matches!(result, Ok(None)));
}

#[test]
fn telegram_notifier_drops_trailing_slashes_and_builds_send_url() {
    let notifier = match TelegramNotifier::from_app_config(&config(
        Some(TELEGRAM_BOT_TOKEN),
        Some(TELEGRAM_CHAT_ID),
        "http://127.0.0.1:9000//",
    )) {
        Ok(Some(n)) => n,
        _ => panic!("complete config should give a notifier"),
    };
    assert_eq!(notifier.api_base_url, "http://127.0.0.1:9000");
    assert_eq!(notifier.chat_id, TELEGRAM_CHAT_ID);
    assert_eq!(
        notifier.send_message_url(),
        "http://127.0.0.1:9000/botTEST_TOKEN/sendMessage"
    );
}

fn sample_alert() -> (AlertEvent, Fund, MonitorRule) {
    let alert = AlertEvent {
        id: 1,
        rule_id: 2,
        fund_id: 3,
        reason: "基金 000001 涨跌幅 1.25% 命中涨跌幅阈值规则".to_owned(),
        status: "new".to_owned(),
        triggered_at: 0,
        notification_result: None,
        created_at: 0,
        updated_at: 0,
    };
    let fund = Fund {
        id: 3,
        code: "000001".to_owned(),
        name: "示例基金A".to_owned(),
        note: None,
        group_name: None,
        tags: None,
        enabled: true,
        created_at: 0,
        updated_at: 0,
    };
    let rule = MonitorRule {
        id: 2,
        fund_id: Some(3),
        group_name: None,
        rule_type: "change_rate_threshold".to_owned(),
        threshold_config: r#"{"gte":1.0}"#.to_owned(),
        enabled: true,
        cooldown_minutes: 30,
        last_triggered_at: None,
        created_at: 0,
        updated_at: 0,
    };
    (alert, fund, rule)
}

#[test]
fn alert_message_names_fund_rule_reason_time_and_status() {
    let (alert, fund, rule) = sample_alert();
    let text = render_alert_message(&alert, &fund, &rule);
    assert!(text.starts_with(
        "[基金告警]\n基金：示例基金A (000001)\n规则：change_rate_threshold\n原因：基金 000001 涨跌幅 1.25% 命中涨跌幅阈值规则\n触发时间："
    ));
    assert!(text.contains("1970-01-01 8:00:00"));
    assert!(text.contains("+08:00:00"));
    assert!(text.ends_with("\n告警状态：new"));
}

#[test]
fn send_request_carries_chat_and_rendered_text() {
    let (alert, fund, rule) = sample_alert();
    let notifier = TelegramNotifier::new("https://api.telegram.org/", TELEGRAM_BOT_TOKEN, TELEGRAM_CHAT_ID);
    let request = notifier.send_request(&alert, &fund, &rule);
    assert_eq!(request.chat_id, "123456");
    assert_eq!(request.text, render_alert_message(&alert, &fund, &rule));
}

#[test]
fn successful_reply_gives_receipt_with_message_id() {
    let reply = TelegramReply { ok: true, message_id: Some(1001), description: None };
    let result = interpret_send_outcome("http://x/botT/sendMessage", SendOutcome::Replied(reply));
    assert_eq!(result, Ok("telegram 发送成功，message_id=1001".to_owned()));
    let stored = notification_result_text(Some(result));
    assert_eq!(stored.as_deref(), Some("telegram 发送成功，message_id=1001"));
}

#[test]
fn successful_reply_without_message_defaults_to_zero() {
    let reply = TelegramReply { ok: true, message_id: None, description: None };
    let result = interpret_send_outcome("u", SendOutcome::Replied(reply));
    assert_eq!(result, Ok("telegram 发送成功，message_id=0".to_owned()));
}

#[test]
fn refused_reply_reports_description_or_unknown_error() {
    let reply = TelegramReply { ok: false, message_id: None, description: Some("mock telegram failure".to_owned()) };
    assert_eq!(
        interpret_send_outcome("u", SendOutcome::Replied(reply)),
        Err("Telegram sendMessage 返回失败：mock telegram failure".to_owned())
    );
    let reply = TelegramReply { ok: false, message_id: None, description: None };
    assert_eq!(
        interpret_send_outcome("u", SendOutcome::Replied(reply)),
        Err("Telegram sendMessage 返回失败：未知错误".to_owned())
    );
}

#[test]
fn transport_status_and_body_failures_name_the_url() {
    assert_eq!(
        interpret_send_outcome("http://h/botT/sendMessage", SendOutcome::RequestFailed("refused".to_owned())),
        Err("调用 Telegram sendMessage 失败：http://h/botT/sendMessage: refused".to_owned())
    );
    assert_eq!(
        interpret_send_outcome("http://h/botT/sendMessage", SendOutcome::ErrorStatus("502 Bad Gateway".to_owned())),
        Err("Telegram sendMessage 返回错误状态：http://h/botT/sendMessage: 502 Bad Gateway".to_owned())
    );
    assert_eq!(
        interpret_send_outcome("u", SendOutcome::UnreadableReply("eof".to_owned())),
        Err("解析 Telegram sendMessage 响应失败: eof".to_owned())
    );
}

#[test]
fn telegram_failure_is_kept_on_the_alert() {
    let failure = interpret_send_outcome("u", SendOutcome::ErrorStatus("502".to_owned()));
    let stored = notification_result_text(Some(failure)).expect("notification result");
    assert!(stored.starts_with("telegram 发送失败：Telegram sendMessage 返回错误状态"));
    assert_eq!(notification_result_text(None), None);
}
