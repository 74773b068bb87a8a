//! The alert list page and its status form.

use vstd::prelude::*;
use crate::domain::alert_event::AlertListItem;
use crate::text::{concat, text_eq, trim, trim_seq};
use crate::web::layout::{clock_text, display_datetime, shown_in_shanghai};

verus! {

/// `name (code)`, the label of a fund.
pub open spec fn fund_label_text(name: Seq<char>, code: Seq<char>) -> Seq<char> {
    name + " ("@ + code + ")"@
}

/// `name (code)`.
pub fn fund_label(name: &str, code: &str) -> (res: String)
    ensures
        res@ == fund_label_text(name@, code@),
{
    let mut res = String::from_str(name);
    res.append(" (");
    res.append(code);
    res.append(")");
    res
}

/// Label of an alert status on the alert page.
pub open spec fn alert_status_label(status: Seq<char>) -> Seq<char> {
    if status == "new"@ {
        "新告警"@
    } else if status == "processed"@ {
        "已处理"@
    } else if status == "ignored"@ {
        "已忽略"@
    } else {
        "未知状态"@
    }
}

/// Notice shown after an alert was moved to `status`, for the two statuses a user may set.
pub open spec fn status_notice(status: Seq<char>) -> Option<Seq<char>> {
    if status == "processed"@ {
        Some("已将告警标记为已处理"@)
    } else if status == "ignored"@ {
        Some("已将告警标记为已忽略"@)
    } else {
        None
    }
}

/// Label of an alert status.
pub fn status_label(status: &str) -> (res: String)
    ensures
        res@ == alert_status_label(status@),
{
    if text_eq(status, "new") {
        String::from_str("新告警")
    } else if text_eq(status, "processed") {
        String::from_str("已处理")
    } else if text_eq(status, "ignored") {
        String::from_str("已忽略")
    } else {
        String::from_str("未知状态")
    }
}

/// Notice after an alert status change; none for a status a user may not set.
pub fn status_updated_notice_message(status: &str) -> (res: Option<String>)
    ensures
        match res {
            Some(m) => status_notice(status@) == Some(m@),
            None => status_notice(status@) is None,
        },
{
    if text_eq(status, "processed") {
        Some(String::from_str("已将告警标记为已处理"))
    } else if text_eq(status, "ignored") {
        Some(String::from_str("已将告警标记为已忽略"))
    } else {
        None
    }
}

/// What the status form asks for: the trimmed status and the page to go to, or the error shown
/// for a status a user may not set.
pub fn decide_status_update(raw_status: &str) -> (res: Result<(String, String), String>)
    ensures
        match res {
            Ok((status, location)) => status@ == trim_seq(raw_status@) && status_notice(status@) is Some
                && location@ == "/alerts?updated="@ + status@,
            Err(message) => status_notice(trim_seq(raw_status@)) is None && message@
                == "不支持的告警状态"@,
        },
{
    let next_status = trim(raw_status);
    match status_updated_notice_message(next_status.as_str()) {
        None => Err(String::from_str("不支持的告警状态")),
        Some(_) => {
            let location = concat("/alerts?updated=", next_status.as_str());
            Ok((next_status, location))
        },
    }
}

/// One row of the alert list.
#[derive(Debug, Clone)]
pub struct AlertView {
    pub id: i64,
    pub fund_label: String,
    pub rule_type: String,
    pub reason: String,
    pub status: String,
    pub status_label: String,
    pub triggered_at: String,
    pub notification_result: String,
}

/// Whether a row shows the alert: fund as `name (code)`, status and its label, time in UTC+8,
/// and the notification result or `未发送外部通知`.
pub open spec fn shows_alert_row(view: AlertView, alert: AlertListItem) -> bool {
    &&& view.id == alert.id
    &&& view.fund_label@ == fund_label_text(alert.fund_name@, alert.fund_code@)
    &&& view.rule_type@ == alert.rule_type@
    &&& view.reason@ == alert.reason@
    &&& view.status@ == alert.status@
    &&& view.status_label@ == alert_status_label(alert.status@)
    &&& view.triggered_at@ == clock_text(alert.triggered_at as int)
    &&& view.notification_result@ == match alert.notification_result {
        Some(n) => n@,
        None => "未发送外部通知"@,
    }
}

/// The row of an alert.
pub fn map_alert_view(alert: AlertListItem) -> (res: AlertView)
    requires
        shown_in_shanghai(alert.triggered_at as int),
    ensures
        shows_alert_row(res, alert),
{
    let label = status_label(alert.status.as_str());
    AlertView {
        id: alert.id,
        fund_label: fund_label(alert.fund_name.as_str(), alert.fund_code.as_str()),
        rule_type: alert.rule_type,
        reason: alert.reason,
        status_label: label,
        status: alert.status,
        triggered_at: display_datetime(alert.triggered_at),
        notification_result: match alert.notification_result {
            Some(n) => n,
            None => String::from_str("未发送外部通知"),
        },
    }
}

/// The alert list page.
#[derive(Debug, Clone)]
pub struct AlertsPage {
    pub title: String,
    pub nav_key: String,
    pub alerts: Vec<AlertView>,
    pub has_error: bool,
    pub error_message: String,
    pub has_notice: bool,
    pub notice_message: String,
}

/// The alert list page: one row per alert in the given order, and the error and notice where
/// there are any (empty texts where not).
pub fn build_alerts_page(alerts: Vec<AlertListItem>, error_message: Option<String>, notice_message: Option<String>) -> (res: AlertsPage)
    requires
        forall|i: int| 0 <= i < alerts@.len() ==> shown_in_shanghai(#[trigger] alerts@[i].triggered_at as int),
    ensures
        res.title@ == "告警列表"@,
        res.nav_key@ == "alerts"@,
        res.alerts@.len() == alerts@.len(),
        forall|i: int| 0 <= i < alerts@.len() ==> shows_alert_row(#[trigger] res.alerts@[i], alerts@[i]),
        res.has_error == error_message is Some,
        res.error_message@ == match error_message {
            Some(e) => e@,
            None => Seq::<char>::empty(),
        },
        res.has_notice == notice_message is Some,
        res.notice_message@ == match notice_message {
            Some(n) => n@,
            None => Seq::<char>::empty(),
        },
{
    let mut rows: Vec<AlertView> = Vec::new();
    let mut i: usize = 0;
    while i < alerts.len()
        invariant
            i <= alerts@.len(),
            rows@.len() == i,
            forall|k: int| 0 <= k < alerts@.len() ==> shown_in_shanghai(#[trigger] alerts@[k].triggered_at as int),
            forall|k: int| 0 <= k < i ==> shows_alert_row(#[trigger] rows@[k], alerts@[k]),
        decreases alerts.len() - i,
    {
        rows.push(map_alert_view(alerts[i].copy()));
        i = i + 1;
    }
    let has_error = error_message.is_some();
    let has_notice = notice_message.is_some();
    AlertsPage {
        title: String::from_str("告警列表"),
        nav_key: String::from_str("alerts"),
        alerts: rows,
        has_error,
        error_message: match error_message {
            Some(e) => e,
            None => String::new(),
        },
        has_notice,
        notice_message: match notice_message {
            Some(n) => n,
            None => String::new(),
        },
    }
}

} // verus!
