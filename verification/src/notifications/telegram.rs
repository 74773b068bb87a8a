//! Alerts sent to a Telegram chat through the Bot API's `sendMessage`.
//!
//! The library decides whether a notifier exists, what is sent where, and what the reply
//! means; the HTTP exchange itself is done by the caller.

use vstd::prelude::*;
use crate::app::config::AppConfig;
use crate::domain::alert_event::AlertEvent;
use crate::domain::fund::Fund;
use crate::domain::monitor_rule::MonitorRule;
use crate::text::{trim_end_char, trim_end_char_seq, concat, i64_text, int_text};
use crate::web::layout::{display_offset_datetime, shanghai_display, shown_in_shanghai};

verus! {

/// Where alerts go: the Bot API base URL (without trailing `/`), the bot token and the chat.
#[derive(Debug, Clone)]
pub struct TelegramNotifier {
    pub api_base_url: String,
    pub bot_token: String,
    pub chat_id: String,
}

/// Why no notifier could be made from the configuration.
#[derive(Debug, Clone, PartialEq, Eq, Structural)]
pub enum TelegramConfigError {
    /// Exactly one of the bot token and the chat id is set.
    PartialCredentials,
}

/// The text of the configuration error.
pub open spec fn partial_credentials_text() -> Seq<char> {
    "FUND_MONITOR_TELEGRAM_BOT_TOKEN 和 FUND_MONITOR_TELEGRAM_CHAT_ID 必须同时配置"@
}

impl TelegramConfigError {
    /// The message of the error.
    pub fn message(&self) -> (res: String)
        ensures
            res@ == partial_credentials_text(),
    {
        String::from_str("FUND_MONITOR_TELEGRAM_BOT_TOKEN 和 FUND_MONITOR_TELEGRAM_CHAT_ID 必须同时配置")
    }
}

impl TelegramNotifier {
    /// A notifier for the given API, token and chat; trailing `/` of the base URL are dropped.
    pub fn new(api_base_url: &str, bot_token: &str, chat_id: &str) -> (res: TelegramNotifier)
        ensures
            res.api_base_url@ == trim_end_char_seq(api_base_url@, '/'),
            res.bot_token@ == bot_token@,
            res.chat_id@ == chat_id@,
    {
        TelegramNotifier {
            api_base_url: trim_end_char(api_base_url, '/'),
            bot_token: String::from_str(bot_token),
            chat_id: String::from_str(chat_id),
        }
    }

    /// The notifier the configuration asks for: none when neither the token nor the chat is
    /// set, an error when only one is, else a notifier for both.
    pub fn from_app_config(config: &AppConfig) -> (res: Result<Option<TelegramNotifier>, TelegramConfigError>)
        ensures
            match (config.telegram_bot_token, config.telegram_chat_id) {
                (None, None) => res == Ok::<Option<TelegramNotifier>, TelegramConfigError>(None),
                (Some(token), Some(chat)) => res matches Ok(Some(n)) && n.api_base_url@
                    == trim_end_char_seq(config.telegram_api_base_url@, '/') && n.bot_token@
                    == token@ && n.chat_id@ == chat@,
                _ => res == Err::<Option<TelegramNotifier>, TelegramConfigError>(
                    TelegramConfigError::PartialCredentials,
                ),
            },
    {
        match (&config.telegram_bot_token, &config.telegram_chat_id) {
            (None, None) => Ok(None),
            (Some(token), Some(chat)) => Ok(
                Some(
                    TelegramNotifier::new(
                        config.telegram_api_base_url.as_str(),
                        token.as_str(),
                        chat.as_str(),
                    ),
                ),
            ),
            _ => Err(TelegramConfigError::PartialCredentials),
        }
    }

    /// The URL of `sendMessage` for this bot.
    pub fn send_message_url(&self) -> (res: String)
        ensures
            res@ == self.api_base_url@ + "/bot"@ + self.bot_token@ + "/sendMessage"@,
    {
        let mut res = concat(self.api_base_url.as_str(), "/bot");
        res.append(self.bot_token.as_str());
        res.append("/sendMessage");
        res
    }

    /// The form sent for an alert: this notifier's chat and the rendered alert.
    pub fn send_request(&self, alert: &AlertEvent, fund: &Fund, rule: &MonitorRule) -> (res:
        SendMessageRequest)
        requires
            shown_in_shanghai(alert.triggered_at as int),
        ensures
            res.chat_id@ == self.chat_id@,
            res.text@ == alert_message_text(*alert, *fund, *rule),
    {
        SendMessageRequest {
            chat_id: self.chat_id.clone(),
            text: render_alert_message(alert, fund, rule),
        }
    }
}

/// The form fields of a `sendMessage` call.
#[derive(Debug, Clone)]
pub struct SendMessageRequest {
    pub chat_id: String,
    pub text: String,
}

/// The text of an alert message.
pub open spec fn alert_message_text(alert: AlertEvent, fund: Fund, rule: MonitorRule) -> Seq<char> {
    "[基金告警]\n基金："@ + fund.name@ + " ("@ + fund.code@ + ")\n规则："@ + rule.rule_type@
        + "\n原因："@ + alert.reason@ + "\n触发时间："@ + shanghai_display(alert.triggered_at as int)
        + "\n告警状态："@ + alert.status@
}

/// The message for an alert: fund, rule, reason, time (in UTC+8) and status.
pub fn render_alert_message(alert: &AlertEvent, fund: &Fund, rule: &MonitorRule) -> (res: String)
    requires
        shown_in_shanghai(alert.triggered_at as int),
    ensures
        res@ == alert_message_text(*alert, *fund, *rule),
{
    let mut res = String::from_str("[基金告警]\n基金：");
    res.append(fund.name.as_str());
    res.append(" (");
    res.append(fund.code.as_str());
    res.append(")\n规则：");
    res.append(rule.rule_type.as_str());
    res.append("\n原因：");
    res.append(alert.reason.as_str());
    res.append("\n触发时间：");
    res.append(display_offset_datetime(alert.triggered_at).as_str());
    res.append("\n告警状态：");
    res.append(alert.status.as_str());
    res
}

/// The JSON reply of `sendMessage`, as far as it is read.
#[derive(Debug, Clone)]
pub struct TelegramReply {
    pub ok: bool,
    pub message_id: Option<i64>,
    pub description: Option<String>,
}

/// How a `sendMessage` exchange ended; failures carry the cause as the HTTP client words it.
#[derive(Debug, Clone)]
pub enum SendOutcome {
    /// The request could not be made.
    RequestFailed(String),
    /// The server answered with an error status.
    ErrorStatus(String),
    /// The body is not the expected JSON.
    UnreadableReply(String),
    /// The decoded reply.
    Replied(TelegramReply),
}

/// What an exchange means: the receipt kept on the alert, or the error.
pub open spec fn send_result(url: Seq<char>, outcome: SendOutcome) -> Result<Seq<char>, Seq<char>> {
    match outcome {
        SendOutcome::RequestFailed(cause) => Err(
            "调用 Telegram sendMessage 失败："@ + url + ": "@ + cause@,
        ),
        SendOutcome::ErrorStatus(cause) => Err(
            "Telegram sendMessage 返回错误状态："@ + url + ": "@ + cause@,
        ),
        SendOutcome::UnreadableReply(cause) => Err("解析 Telegram sendMessage 响应失败: "@ + cause@),
        SendOutcome::Replied(reply) => if reply.ok {
            Ok(
                "telegram 发送成功，message_id="@ + int_text(
                    match reply.message_id {
                        Some(id) => id as int,
                        None => 0,
                    },
                ),
            )
        } else {
            Err(
                "Telegram sendMessage 返回失败："@ + match reply.description {
                    Some(d) => d@,
                    None => "未知错误"@,
                },
            )
        },
    }
}

/// The view of a result of strings.
pub open spec fn result_view(r: Result<String, String>) -> Result<Seq<char>, Seq<char>> {
    match r {
        Ok(s) => Ok(s@),
        Err(e) => Err(e@),
    }
}

/// Reads the end of a `sendMessage` exchange to `url`.
pub fn interpret_send_outcome(url: &str, outcome: SendOutcome) -> (res: Result<String, String>)
    ensures
        result_view(res) == send_result(url@, outcome),
{
    match outcome {
        SendOutcome::RequestFailed(cause) => {
            let mut e = concat("调用 Telegram sendMessage 失败：", url);
            e.append(": ");
            e.append(cause.as_str());
            Err(e)
        },
        SendOutcome::ErrorStatus(cause) => {
            let mut e = concat("Telegram sendMessage 返回错误状态：", url);
            e.append(": ");
            e.append(cause.as_str());
            Err(e)
        },
        SendOutcome::UnreadableReply(cause) => Err(
            concat("解析 Telegram sendMessage 响应失败: ", cause.as_str()),
        ),
        SendOutcome::Replied(reply) => {
            if reply.ok {
                let id: i64 = match reply.message_id {
                    Some(id) => id,
                    None => 0,
                };
                Ok(concat("telegram 发送成功，message_id=", i64_text(id).as_str()))
            } else {
                let description = match reply.description {
                    Some(d) => d,
                    None => String::from_str("未知错误"),
                };
                Err(concat("Telegram sendMessage 返回失败：", description.as_str()))
            }
        },
    }
}

} // verus!
