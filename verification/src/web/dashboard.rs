//! The overview page: the state of the fund pool, of the jobs and of the latest alerts.

use vstd::prelude::*;
use crate::domain::alert_event::AlertListItem;
use crate::domain::fund::Fund;
use crate::domain::job_run::JobRun;
use crate::text::{
    concat, concat3, i64_text, int_text, is_blank, opt_seq, starts_with, starts_with_seq,
    strip_prefix, text_eq, trim, trim_seq, usize_text, views_of, insert_sorted, strictly_sorted,
    text_lt, lemma_text_lt_irreflexive, first_where, lemma_first_where, lemma_first_where_found,
};
use crate::web::alerts::{fund_label, fund_label_text};
use crate::web::layout::{clock_text, display_datetime, shown_in_shanghai};

verus! {

/// Tone (colour) of a job or alert status.
pub open spec fn status_tone_text(status: Seq<char>) -> Seq<char> {
    if status == "success"@ || status == "processed"@ {
        "success"@
    } else if status == "new"@ {
        "new"@
    } else if status == "partial_success"@ || status == "running"@ || status == "ignored"@ {
        "running"@
    } else if status == "failed"@ {
        "failed"@
    } else {
        "neutral"@
    }
}

/// Label of a job or alert status on the overview.
pub open spec fn status_label_text(status: Seq<char>) -> Seq<char> {
    if status == "success"@ {
        "成功"@
    } else if status == "partial_success"@ {
        "部分成功"@
    } else if status == "failed"@ {
        "失败"@
    } else if status == "running"@ {
        "执行中"@
    } else if status == "skipped"@ {
        "已跳过"@
    } else if status == "new"@ {
        "新告警"@
    } else if status == "processed"@ {
        "已处理"@
    } else if status == "ignored"@ {
        "已忽略"@
    } else {
        "未知状态"@
    }
}

/// Label of a job type: the polling round, the fetch of one fund, or any other job.
pub open spec fn job_type_label_text(job_type: Seq<char>) -> Seq<char> {
    if job_type == "poll_funds"@ {
        "基金轮询"@
    } else if starts_with_seq(job_type, "fund_poll_fetch:"@) {
        "基金抓取 "@ + job_type.skip("fund_poll_fetch:"@.len() as int)
    } else {
        "系统任务"@
    }
}

/// Label of a rule type on the overview.
pub open spec fn rule_label_text(rule_type: Seq<char>) -> Seq<char> {
    if rule_type == "change_rate_threshold"@ {
        "涨跌幅阈值"@
    } else {
        "监控规则"@
    }
}

/// Tone of a status.
pub fn status_tone(status: &str) -> (res: String)
    ensures
        res@ == status_tone_text(status@),
{
    if text_eq(status, "success") || text_eq(status, "processed") {
        String::from_str("success")
    } else if text_eq(status, "new") {
        String::from_str("new")
    } else if text_eq(status, "partial_success") || text_eq(status, "running") || text_eq(
        status,
        "ignored",
    ) {
        String::from_str("running")
    } else if text_eq(status, "failed") {
        String::from_str("failed")
    } else {
        String::from_str("neutral")
    }
}

/// Label of a status.
pub fn status_label(status: &str) -> (res: String)
    ensures
        res@ == status_label_text(status@),
{
    if text_eq(status, "success") {
        String::from_str("成功")
    } else if text_eq(status, "partial_success") {
        String::from_str("部分成功")
    } else if text_eq(status, "failed") {
        String::from_str("失败")
    } else if text_eq(status, "running") {
        String::from_str("执行中")
    } else if text_eq(status, "skipped") {
        String::from_str("已跳过")
    } else if text_eq(status, "new") {
        String::from_str("新告警")
    } else if text_eq(status, "processed") {
        String::from_str("已处理")
    } else if text_eq(status, "ignored") {
        String::from_str("已忽略")
    } else {
        String::from_str("未知状态")
    }
}

/// Label of a job type.
pub fn job_type_label(job_type: &str) -> (res: String)
    ensures
        res@ == job_type_label_text(job_type@),
{
    if text_eq(job_type, "poll_funds") {
        return String::from_str("基金轮询");
    }
    match strip_prefix(job_type, "fund_poll_fetch:") {
        Some(code) => concat("基金抓取 ", code.as_str()),
        None => String::from_str("系统任务"),
    }
}

/// Label of a rule type.
pub fn rule_type_label(rule_type: &str) -> (res: String)
    ensures
        res@ == rule_label_text(rule_type@),
{
    if text_eq(rule_type, "change_rate_threshold") {
        String::from_str("涨跌幅阈值")
    } else {
        String::from_str("监控规则")
    }
}

/// Whether the times of a job can be shown.
pub open spec fn job_times_shown(job: JobRun) -> bool {
    &&& shown_in_shanghai(job.started_at as int)
    &&& (job.finished_at matches Some(t) ==> shown_in_shanghai(t as int))
}

/// The hint of a job: its error, or when it started.
pub open spec fn job_hint_text(job: JobRun) -> Seq<char> {
    match job.error_message {
        Some(e) => e@,
        None => "开始于 "@ + clock_text(job.started_at as int),
    }
}

/// The hint of a job.
pub fn job_hint(job: &JobRun) -> (res: String)
    requires
        job.error_message is None ==> shown_in_shanghai(job.started_at as int),
    ensures
        res@ == job_hint_text(*job),
{
    match &job.error_message {
        Some(e) => e.clone(),
        None => concat("开始于 ", display_datetime(job.started_at).as_str()),
    }
}

/// A job as listed on the overview.
#[derive(Debug, Clone)]
pub struct DashboardJobView {
    pub job_label: String,
    pub job_type: String,
    pub status: String,
    pub status_label: String,
    pub started_at: String,
    pub finished_at: String,
    pub error_message: String,
}

/// Whether a row shows the job.
pub open spec fn shows_job(view: DashboardJobView, job: JobRun) -> bool {
    &&& view.job_label@ == job_type_label_text(job.job_type@)
    &&& view.job_type@ == job.job_type@
    &&& view.status@ == job.status@
    &&& view.status_label@ == status_label_text(job.status@)
    &&& view.started_at@ == clock_text(job.started_at as int)
    &&& view.finished_at@ == match job.finished_at {
        Some(t) => clock_text(t as int),
        None => "-"@,
    }
    &&& view.error_message@ == match job.error_message {
        Some(e) => e@,
        None => "-"@,
    }
}

/// The row of a job.
pub fn map_job_view(job: JobRun) -> (res: DashboardJobView)
    requires
        job_times_shown(job),
    ensures
        shows_job(res, job),
{
    DashboardJobView {
        job_label: job_type_label(job.job_type.as_str()),
        status_label: status_label(job.status.as_str()),
        started_at: display_datetime(job.started_at),
        finished_at: match job.finished_at {
            Some(t) => display_datetime(t),
            None => String::from_str("-"),
        },
        error_message: match job.error_message {
            Some(e) => e,
            None => String::from_str("-"),
        },
        job_type: job.job_type,
        status: job.status,
    }
}

/// An alert as listed on the overview.
#[derive(Debug, Clone)]
pub struct DashboardAlertView {
    pub fund_label: String,
    pub reason: String,
    pub status: String,
    pub status_label: String,
    pub triggered_at: String,
    pub rule_label: String,
    pub notification_result: String,
}

/// Whether a row shows the alert.
pub open spec fn shows_alert(view: DashboardAlertView, alert: AlertListItem) -> bool {
    &&& view.fund_label@ == fund_label_text(alert.fund_name@, alert.fund_code@)
    &&& view.reason@ == alert.reason@
    &&& view.status@ == alert.status@
    &&& view.status_label@ == status_label_text(alert.status@)
    &&& view.triggered_at@ == clock_text(alert.triggered_at as int)
    &&& view.rule_label@ == rule_label_text(alert.rule_type@)
    &&& view.notification_result@ == match alert.notification_result {
        Some(n) => n@,
        None => "尚未记录通知回执"@,
    }
}

/// The row of an alert.
pub fn map_alert_view(alert: AlertListItem) -> (res: DashboardAlertView)
    requires
        shown_in_shanghai(alert.triggered_at as int),
    ensures
        shows_alert(res, alert),
{
    DashboardAlertView {
        fund_label: fund_label(alert.fund_name.as_str(), alert.fund_code.as_str()),
        status_label: status_label(alert.status.as_str()),
        triggered_at: display_datetime(alert.triggered_at),
        rule_label: rule_type_label(alert.rule_type.as_str()),
        notification_result: match alert.notification_result {
            Some(n) => n,
            None => String::from_str("尚未记录通知回执"),
        },
        reason: alert.reason,
        status: alert.status,
    }
}

/// A fund as shown on the overview.
#[derive(Debug, Clone)]
pub struct DashboardFundView {
    pub detail_url: String,
    pub code: String,
    pub name: String,
    pub group_name: String,
    pub tags: String,
    pub note: String,
}

/// An optional field shown as is unless absent or blank, then as `fallback`.
pub open spec fn shown_or(value: Option<String>, fallback: Seq<char>) -> Seq<char> {
    match value {
        Some(v) => if trim_seq(v@).len() == 0 {
            fallback
        } else {
            v@
        },
        None => fallback,
    }
}

fn shown_or_fallback(value: &Option<String>, fallback: &str) -> (res: String)
    ensures
        res@ == shown_or(*value, fallback@),
{
    match value {
        Some(v) => if is_blank(v.as_str()) {
            String::from_str(fallback)
        } else {
            v.clone()
        },
        None => String::from_str(fallback),
    }
}

/// Whether a card shows the fund.
pub open spec fn shows_fund(view: DashboardFundView, fund: Fund) -> bool {
    &&& view.detail_url@ == "/funds/"@ + int_text(fund.id as int)
    &&& view.code@ == fund.code@
    &&& view.name@ == fund.name@
    &&& view.group_name@ == shown_or(fund.group_name, "未分组"@)
    &&& view.tags@ == shown_or(fund.tags, "未设置标签"@)
    &&& view.note@ == shown_or(fund.note, "暂无补充备注"@)
}

/// The card of a fund.
pub fn map_fund_view(fund: &Fund) -> (res: DashboardFundView)
    ensures
        shows_fund(res, *fund),
{
    DashboardFundView {
        detail_url: concat("/funds/", i64_text(fund.id).as_str()),
        code: fund.code.clone(),
        name: fund.name.clone(),
        group_name: shown_or_fallback(&fund.group_name, "未分组"),
        tags: shown_or_fallback(&fund.tags, "未设置标签"),
        note: shown_or_fallback(&fund.note, "暂无补充备注"),
    }
}

/// Whether some fund's group, trimmed, is `g`.
pub open spec fn fund_has_trimmed_group(f: Fund, g: Seq<char>) -> bool {
    match f.group_name {
        Some(n) => trim_seq(n@) == g,
        None => false,
    }
}

/// The distinct non-blank trimmed group names of the funds.
pub open spec fn trimmed_groups(funds: Seq<Fund>) -> Set<Seq<char>> {
    Set::new(
        |g: Seq<char>|
            g.len() > 0 && exists|i: int| 0 <= i < funds.len() && fund_has_trimmed_group(
                #[trigger] funds[i],
                g,
            ),
    )
}

/// The hint on the size of the fund pool's grouping.
pub open spec fn active_fund_hint_text(group_count: nat) -> Seq<char> {
    if group_count == 0 {
        "当前基金池尚未配置分组维度"@
    } else {
        "基金池已覆盖 "@ + int_text(group_count as int) + " 个分组维度"@
    }
}

/// How many distinct groups the funds cover, as a hint.
pub fn active_fund_hint(funds: &Vec<Fund>) -> (res: String)
    ensures
        trimmed_groups(funds@).finite(),
        res@ == active_fund_hint_text(trimmed_groups(funds@).len()),
{
    let mut groups: Vec<String> = Vec::new();
    let mut i: usize = 0;
    while i < funds.len()
        invariant
            i <= funds@.len(),
            strictly_sorted(views_of(groups@)),
            forall|g: Seq<char>| #![auto] views_of(groups@).contains(g) <==> (g.len() > 0
                && exists|k: int| 0 <= k < i && fund_has_trimmed_group(#[trigger] funds@[k], g)),
        decreases funds.len() - i,
    {
        let ghost before = views_of(groups@);
        match &funds[i].group_name {
            Some(n) => {
                let t = trim(n.as_str());
                if t.as_str().unicode_len() > 0 {
                    insert_sorted(&mut groups, t);
                }
            },
            None => {},
        }
        assert forall|g: Seq<char>| #![auto] views_of(groups@).contains(g) <==> (g.len() > 0
            && exists|k: int| 0 <= k < i + 1 && fund_has_trimmed_group(#[trigger] funds@[k], g)) by {
            if g.len() > 0 && exists|k: int| 0 <= k < i + 1 && fund_has_trimmed_group(
                #[trigger] funds@[k],
                g,
            ) {
                let k = choose|k: int| 0 <= k < i + 1 && fund_has_trimmed_group(
                    #[trigger] funds@[k],
                    g,
                );
                if k < i {
                    assert(before.contains(g));
                }
            }
        }
        i = i + 1;
    }
    let ghost s = views_of(groups@);
    proof {
        assert(s.no_duplicates()) by {
            assert forall|a: int, b: int| 0 <= a < s.len() && 0 <= b < s.len() && a != b implies s[a]
                != s[b] by {
                if a < b {
                    assert(text_lt(s[a], s[b]));
                } else {
                    assert(text_lt(s[b], s[a]));
                }
                lemma_text_lt_irreflexive(s[a]);
            }
        }
        s.unique_seq_to_set();
        assert(s.to_set() =~= trimmed_groups(funds@)) by {
            assert forall|g: Seq<char>| s.to_set().contains(g) <==> trimmed_groups(funds@).contains(
                g,
            ) by {
                assert(s.contains(g) <==> s.to_set().contains(g));
            }
        }
        s.lemma_cardinality_of_set();
    }
    let count = groups.len();
    if count == 0 {
        String::from_str("当前基金池尚未配置分组维度")
    } else {
        concat3("基金池已覆盖 ", usize_text(count).as_str(), " 个分组维度")
    }
}


/// Whether an alert is new.
pub open spec fn is_new_alert(a: AlertListItem) -> bool {
    a.status@ == "new"@
}

/// The number of new alerts.
pub open spec fn new_alert_total(alerts: Seq<AlertListItem>) -> nat
    decreases alerts.len(),
{
    if alerts.len() == 0 {
        0
    } else {
        new_alert_total(alerts.drop_last()) + if is_new_alert(alerts.last()) {
            1nat
        } else {
            0nat
        }
    }
}

/// Law: the number of new alerts is the number of alerts whose status is `new`; an alert with
/// any other status (`processed`, `ignored`, ...) is not counted.
pub proof fn law_new_alerts_are_those_with_status_new(alerts: Seq<AlertListItem>)
    ensures
        new_alert_total(alerts) == alerts.filter(|a: AlertListItem| a.status@ == "new"@).len(),
    decreases alerts.len(),
{
    reveal(Seq::filter);
    if alerts.len() > 0 {
        law_new_alerts_are_those_with_status_new(alerts.drop_last());
    }
}

/// Counts the new alerts.
pub fn count_new_alerts(alerts: &Vec<AlertListItem>) -> (res: usize)
    ensures
        res == new_alert_total(alerts@),
        res == alerts@.filter(|a: AlertListItem| a.status@ == "new"@).len(),
{
    proof {
        law_new_alerts_are_those_with_status_new(alerts@);
    }
    let mut count: usize = 0;
    let mut i: usize = 0;
    while i < alerts.len()
        invariant
            i <= alerts@.len(),
            count == new_alert_total(alerts@.take(i as int)),
            count <= i,
        decreases alerts.len() - i,
    {
        assert(alerts@.take(i + 1).drop_last() =~= alerts@.take(i as int));
        if text_eq(alerts[i].status.as_str(), "new") {
            count = count + 1;
        }
        i = i + 1;
    }
    assert(alerts@.take(alerts@.len() as int) =~= alerts@);
    count
}

/// The value of the alert metric.
pub open spec fn alert_metric_value_text(alerts: Seq<AlertListItem>, new_count: nat) -> Seq<char> {
    if new_count > 0 {
        int_text(new_count as int) + " 条待处理"@
    } else if alerts.len() == 0 {
        "静默"@
    } else {
        "已归档"@
    }
}

/// The hint of the alert metric.
pub open spec fn alert_metric_hint_text(alerts: Seq<AlertListItem>, new_count: nat) -> Seq<char> {
    if alerts.len() > 0 {
        if new_count > 0 {
            alerts[0].fund_name@ + " 于 "@ + clock_text(alerts[0].triggered_at as int)
                + " 触发最新告警"@
        } else {
            "最近一条告警状态为 "@ + status_label_text(alerts[0].status@)
        }
    } else {
        "最近窗口内还没有规则命中产生告警"@
    }
}

/// The tone of the alert metric.
pub open spec fn alert_metric_tone_text(alerts: Seq<AlertListItem>, new_count: nat) -> Seq<char> {
    if new_count > 0 {
        "warning"@
    } else if alerts.len() == 0 {
        "success"@
    } else {
        "neutral"@
    }
}

/// Value of the alert metric.
pub fn alert_metric_value(recent_alerts: &Vec<AlertListItem>, new_alert_count: usize) -> (res: String)
    ensures
        res@ == alert_metric_value_text(recent_alerts@, new_alert_count as nat),
{
    if new_alert_count > 0 {
        return concat(usize_text(new_alert_count).as_str(), " 条待处理");
    }
    if recent_alerts.len() == 0 {
        String::from_str("静默")
    } else {
        String::from_str("已归档")
    }
}

/// Hint of the alert metric.
pub fn alert_metric_hint(recent_alerts: &Vec<AlertListItem>, new_alert_count: usize) -> (res: String)
    requires
        recent_alerts@.len() > 0 ==> shown_in_shanghai(recent_alerts@[0].triggered_at as int),
    ensures
        res@ == alert_metric_hint_text(recent_alerts@, new_alert_count as nat),
{
    if recent_alerts.len() > 0 {
        let alert = &recent_alerts[0];
        if new_alert_count > 0 {
            let mut res = alert.fund_name.clone();
            res.append(" 于 ");
            res.append(display_datetime(alert.triggered_at).as_str());
            res.append(" 触发最新告警");
            return res;
        }
        return concat("最近一条告警状态为 ", status_label(alert.status.as_str()).as_str());
    }
    String::from_str("最近窗口内还没有规则命中产生告警")
}

/// Tone of the alert metric.
pub fn alert_metric_tone(recent_alerts: &Vec<AlertListItem>, new_alert_count: usize) -> (res: String)
    ensures
        res@ == alert_metric_tone_text(recent_alerts@, new_alert_count as nat),
{
    if new_alert_count > 0 {
        String::from_str("warning")
    } else if recent_alerts.len() == 0 {
        String::from_str("success")
    } else {
        String::from_str("neutral")
    }
}

/// The headline of the overview.
#[derive(Debug, Clone)]
pub struct DashboardSignalView {
    pub tone: String,
    pub status_label: String,
    pub summary: String,
    pub meta: String,
}

/// The headline as (tone, label, summary, meta).
pub type SignalText = (Seq<char>, Seq<char>, Seq<char>, Seq<char>);

/// Whether a job failed.
pub open spec fn is_failed_job(j: JobRun) -> bool {
    j.status@ == "failed"@
}

/// Whether a job is running.
pub open spec fn is_running_job(j: JobRun) -> bool {
    j.status@ == "running"@
}

/// `label：time` of the latest job of a kind, or `label：暂无`.
pub open spec fn job_meta_text(label: Seq<char>, job: Option<JobRun>) -> Seq<char> {
    match job {
        Some(j) => label + "："@ + clock_text(j.started_at as int),
        None => label + "：暂无"@,
    }
}

/// The headline: a new alert first, then a failed job, then a running job, then a cold start,
/// else a steady state.
pub open spec fn signal_text(
    jobs: Seq<JobRun>,
    alerts: Seq<AlertListItem>,
    poll: Option<JobRun>,
    fetch: Option<JobRun>,
    new_count: nat,
) -> SignalText {
    match first_where(alerts, |a: AlertListItem| is_new_alert(a)) {
        Some(i) => (
            "new"@,
            "告警待处理"@,
            alerts[i].fund_name@ + " 在 "@ + clock_text(alerts[i].triggered_at as int)
                + " 命中监控规则，需要尽快确认处理。"@,
            "规则类型："@ + rule_label_text(alerts[i].rule_type@),
        ),
        None => match first_where(jobs, |j: JobRun| is_failed_job(j)) {
            Some(i) => (
                "failed"@,
                "任务异常"@,
                job_type_label_text(jobs[i].job_type@) + " 最近一次执行失败，需要检查任务日志。"@,
                job_hint_text(jobs[i]),
            ),
            None => match first_where(jobs, |j: JobRun| is_running_job(j)) {
                Some(i) => (
                    "running"@,
                    "任务执行中"@,
                    job_type_label_text(jobs[i].job_type@) + " 正在运行，等待本轮结果回写。"@,
                    "开始时间："@ + clock_text(jobs[i].started_at as int),
                ),
                None => if poll is None && fetch is None {
                    (
                        "neutral"@,
                        "等待启动"@,
                        "当前还没有轮询或抓取执行记录，监控工作台处于冷启动状态。"@,
                        "建议先检查基金池与调度器是否已启动。"@,
                    )
                } else {
                    (
                        "success"@,
                        "运行稳定"@,
                        if new_count == 0 {
                            "轮询与抓取最近一次执行正常，当前没有新的待处理告警。"@
                        } else {
                            "最近窗口内已有 "@ + int_text(new_count as int)
                                + " 条告警，建议继续跟进处理状态。"@
                        },
                        job_meta_text("轮询"@, poll) + " / "@ + job_meta_text("抓取"@, fetch),
                    )
                },
            },
        },
    }
}

/// The view of a headline.
pub open spec fn signal_of(v: DashboardSignalView) -> SignalText {
    (v.tone@, v.status_label@, v.summary@, v.meta@)
}

/// Whether every time of the jobs and alerts can be shown.
pub open spec fn times_shown(jobs: Seq<JobRun>, alerts: Seq<AlertListItem>) -> bool {
    &&& forall|i: int| 0 <= i < jobs.len() ==> job_times_shown(#[trigger] jobs[i])
    &&& forall|i: int| 0 <= i < alerts.len() ==> shown_in_shanghai(
        (#[trigger] alerts[i]).triggered_at as int,
    )
}

fn find_alert_with_status(alerts: &Vec<AlertListItem>, status: &str) -> (res: Option<usize>)
    ensures
        match res {
            Some(i) => i < alerts@.len() && first_where(alerts@, |a: AlertListItem| a.status@ == status@)
                == Some(i as int),
            None => first_where(alerts@, |a: AlertListItem| a.status@ == status@) is None,
        },
{
    let ghost p = |a: AlertListItem| a.status@ == status@;
    let mut i: usize = 0;
    while i < alerts.len()
        invariant
            i <= alerts@.len(),
            p == (|a: AlertListItem| a.status@ == status@),
            forall|k: int| 0 <= k < i ==> !p(#[trigger] alerts@[k]),
        decreases alerts.len() - i,
    {
        if text_eq(alerts[i].status.as_str(), status) {
            proof {
                lemma_first_where(alerts@, p, i as int);
            }
            return Some(i);
        }
        i = i + 1;
    }
    proof {
        lemma_first_where(alerts@, p, i as int);
    }
    None
}

fn find_job_with_status(jobs: &Vec<JobRun>, status: &str) -> (res: Option<usize>)
    ensures
        match res {
            Some(i) => i < jobs@.len() && first_where(jobs@, |j: JobRun| j.status@ == status@) == Some(
                i as int,
            ),
            None => first_where(jobs@, |j: JobRun| j.status@ == status@) is None,
        },
{
    let ghost p = |j: JobRun| j.status@ == status@;
    let mut i: usize = 0;
    while i < jobs.len()
        invariant
            i <= jobs@.len(),
            p == (|j: JobRun| j.status@ == status@),
            forall|k: int| 0 <= k < i ==> !p(#[trigger] jobs@[k]),
        decreases jobs.len() - i,
    {
        if text_eq(jobs[i].status.as_str(), status) {
            proof {
                lemma_first_where(jobs@, p, i as int);
            }
            return Some(i);
        }
        i = i + 1;
    }
    proof {
        lemma_first_where(jobs@, p, i as int);
    }
    None
}

fn job_meta(label: &str, job: &Option<JobRun>) -> (res: String)
    requires
        started_shown(*job),
    ensures
        res@ == job_meta_text(label@, *job),
{
    match job {
        Some(j) => concat3(label, "：", display_datetime(j.started_at).as_str()),
        None => concat(label, "：暂无"),
    }
}

/// Whether the job, if any, has a start time that can be shown.
pub open spec fn started_shown(job: Option<JobRun>) -> bool {
    job matches Some(j) ==> shown_in_shanghai(j.started_at as int)
}

/// Whether the times the headline shows can be shown: those of the item it picks.
pub open spec fn signal_times_shown(
    jobs: Seq<JobRun>,
    alerts: Seq<AlertListItem>,
    poll: Option<JobRun>,
    fetch: Option<JobRun>,
) -> bool {
    match first_where(alerts, |a: AlertListItem| is_new_alert(a)) {
        Some(i) => shown_in_shanghai(alerts[i].triggered_at as int),
        None => match first_where(jobs, |j: JobRun| is_failed_job(j)) {
            Some(i) => jobs[i].error_message is None ==> shown_in_shanghai(jobs[i].started_at as int),
            None => match first_where(jobs, |j: JobRun| is_running_job(j)) {
                Some(i) => shown_in_shanghai(jobs[i].started_at as int),
                None => started_shown(poll) && started_shown(fetch),
            },
        },
    }
}

/// The headline of the overview.
pub fn build_signal(
    recent_jobs: &Vec<JobRun>,
    recent_alerts: &Vec<AlertListItem>,
    latest_poll_job: &Option<JobRun>,
    latest_fetch_job: &Option<JobRun>,
    new_alert_count: usize,
) -> (res: DashboardSignalView)
    requires
        signal_times_shown(recent_jobs@, recent_alerts@, *latest_poll_job, *latest_fetch_job),
    ensures
        signal_of(res) == signal_text(
            recent_jobs@,
            recent_alerts@,
            *latest_poll_job,
            *latest_fetch_job,
            new_alert_count as nat,
        ),
{
    assert((|a: AlertListItem| is_new_alert(a)) =~= (|a: AlertListItem| a.status@ == "new"@));
    assert((|j: JobRun| is_failed_job(j)) =~= (|j: JobRun| j.status@ == "failed"@));
    assert((|j: JobRun| is_running_job(j)) =~= (|j: JobRun| j.status@ == "running"@));
    if let Some(i) = find_alert_with_status(recent_alerts, "new") {
        let alert = &recent_alerts[i];
        let mut summary = alert.fund_name.clone();
        summary.append(" 在 ");
        summary.append(display_datetime(alert.triggered_at).as_str());
        summary.append(" 命中监控规则，需要尽快确认处理。");
        return DashboardSignalView {
            tone: String::from_str("new"),
            status_label: String::from_str("告警待处理"),
            summary,
            meta: concat("规则类型：", rule_type_label(alert.rule_type.as_str()).as_str()),
        };
    }
    if let Some(i) = find_job_with_status(recent_jobs, "failed") {
        let job = &recent_jobs[i];
        return DashboardSignalView {
            tone: String::from_str("failed"),
            status_label: String::from_str("任务异常"),
            summary: concat(
                job_type_label(job.job_type.as_str()).as_str(),
                " 最近一次执行失败，需要检查任务日志。",
            ),
            meta: job_hint(job),
        };
    }
    if let Some(i) = find_job_with_status(recent_jobs, "running") {
        let job = &recent_jobs[i];
        return DashboardSignalView {
            tone: String::from_str("running"),
            status_label: String::from_str("任务执行中"),
            summary: concat(
                job_type_label(job.job_type.as_str()).as_str(),
                " 正在运行，等待本轮结果回写。",
            ),
            meta: concat("开始时间：", display_datetime(job.started_at).as_str()),
        };
    }
    if latest_poll_job.is_none() && latest_fetch_job.is_none() {
        return DashboardSignalView {
            tone: String::from_str("neutral"),
            status_label: String::from_str("等待启动"),
            summary: String::from_str(
                "当前还没有轮询或抓取执行记录，监控工作台处于冷启动状态。",
            ),
            meta: String::from_str("建议先检查基金池与调度器是否已启动。"),
        };
    }
    let summary = if new_alert_count == 0 {
        String::from_str("轮询与抓取最近一次执行正常，当前没有新的待处理告警。")
    } else {
        concat3(
            "最近窗口内已有 ",
            usize_text(new_alert_count).as_str(),
            " 条告警，建议继续跟进处理状态。",
        )
    };
    let mut meta = job_meta("轮询", latest_poll_job);
    meta.append(" / ");
    meta.append(job_meta("抓取", latest_fetch_job).as_str());
    DashboardSignalView {
        tone: String::from_str("success"),
        status_label: String::from_str("运行稳定"),
        summary,
        meta,
    }
}


/// The alert card of the overview.
#[derive(Debug, Clone)]
pub struct DashboardAlertFocusView {
    pub tone: String,
    pub heading: String,
    pub reason: String,
    pub status_label: String,
    pub triggered_at: String,
    pub rule_label: String,
    pub notification_result: String,
    pub action_href: String,
    pub action_label: String,
}

/// The alert card as its nine texts.
pub open spec fn focus_of(v: DashboardAlertFocusView) -> Seq<Seq<char>> {
    seq![
        v.tone@,
        v.heading@,
        v.reason@,
        v.status_label@,
        v.triggered_at@,
        v.rule_label@,
        v.notification_result@,
        v.action_href@,
        v.action_label@,
    ]
}

/// The alert card: the latest alert if there is one, else a quiet card with the time of the
/// latest fetch, or else of the latest round.
pub open spec fn focus_text(
    primary: Option<AlertListItem>,
    poll: Option<JobRun>,
    fetch: Option<JobRun>,
    new_count: nat,
) -> Seq<Seq<char>> {
    match primary {
        Some(a) => seq![
            status_tone_text(a.status@),
            fund_label_text(a.fund_name@, a.fund_code@),
            a.reason@,
            status_label_text(a.status@),
            clock_text(a.triggered_at as int),
            rule_label_text(a.rule_type@),
            match a.notification_result {
                Some(n) => n@,
                None => "尚未记录通知回执"@,
            },
            "/alerts"@,
            "查看告警列表"@,
        ],
        None => seq![
            "success"@,
            "当前告警静默"@,
            "最近时间窗内没有新的规则命中，可继续关注轮询、抓取与基金池维护状态。"@,
            if new_count == 0 {
                "运行稳定"@
            } else {
                "持续观察"@
            },
            match fetch {
                Some(j) => clock_text(j.started_at as int),
                None => match poll {
                    Some(j) => clock_text(j.started_at as int),
                    None => "等待首轮调度"@,
                },
            },
            "暂无焦点规则"@,
            "建议定期复核规则阈值、冷却时间与基金池覆盖范围。"@,
            "/rules"@,
            "查看规则管理"@,
        ],
    }
}

/// Whether the time the focus shows can be shown: the primary alert's, else the start of the
/// latest fetch, else that of the latest poll.
pub open spec fn focus_times_shown(primary: Option<AlertListItem>, poll: Option<JobRun>, fetch: Option<JobRun>) -> bool {
    match primary {
        Some(a) => shown_in_shanghai(a.triggered_at as int),
        None => match fetch {
            Some(j) => shown_in_shanghai(j.started_at as int),
            None => started_shown(poll),
        },
    }
}

/// The alert card of the overview.
pub fn build_alert_focus(
    primary_alert: Option<&AlertListItem>,
    latest_poll_job: &Option<JobRun>,
    latest_fetch_job: &Option<JobRun>,
    new_alert_count: usize,
) -> (res: DashboardAlertFocusView)
    requires
        focus_times_shown(
            match primary_alert {
                Some(a) => Some(*a),
                None => None,
            },
            *latest_poll_job,
            *latest_fetch_job,
        ),
    ensures
        focus_of(res) == focus_text(
            match primary_alert {
                Some(a) => Some(*a),
                None => None,
            },
            *latest_poll_job,
            *latest_fetch_job,
            new_alert_count as nat,
        ),
{
    if let Some(alert) = primary_alert {
        let res = DashboardAlertFocusView {
            tone: status_tone(alert.status.as_str()),
            heading: fund_label(alert.fund_name.as_str(), alert.fund_code.as_str()),
            reason: alert.reason.clone(),
            status_label: status_label(alert.status.as_str()),
            triggered_at: display_datetime(alert.triggered_at),
            rule_label: rule_type_label(alert.rule_type.as_str()),
            notification_result: match &alert.notification_result {
                Some(n) => n.clone(),
                None => String::from_str("尚未记录通知回执"),
            },
            action_href: String::from_str("/alerts"),
            action_label: String::from_str("查看告警列表"),
        };
        return res;
    }
    let fallback_time = match latest_fetch_job {
        Some(j) => display_datetime(j.started_at),
        None => match latest_poll_job {
            Some(j) => display_datetime(j.started_at),
            None => String::from_str("等待首轮调度"),
        },
    };
    DashboardAlertFocusView {
        tone: String::from_str("success"),
        heading: String::from_str("当前告警静默"),
        reason: String::from_str(
            "最近时间窗内没有新的规则命中，可继续关注轮询、抓取与基金池维护状态。",
        ),
        status_label: if new_alert_count == 0 {
            String::from_str("运行稳定")
        } else {
            String::from_str("持续观察")
        },
        triggered_at: fallback_time,
        rule_label: String::from_str("暂无焦点规则"),
        notification_result: String::from_str(
            "建议定期复核规则阈值、冷却时间与基金池覆盖范围。",
        ),
        action_href: String::from_str("/rules"),
        action_label: String::from_str("查看规则管理"),
    }
}

/// A metric card of the overview.
#[derive(Debug, Clone)]
pub struct DashboardMetric {
    pub label: String,
    pub value: String,
    pub hint: String,
    pub tone: String,
}

/// A metric card as (label, value, hint, tone).
pub open spec fn metric_of(m: DashboardMetric) -> (Seq<char>, Seq<char>, Seq<char>, Seq<char>) {
    (m.label@, m.value@, m.hint@, m.tone@)
}

/// The metric of the latest job of a kind: its status label, hint and tone, or the given texts
/// when there is none.
pub open spec fn job_metric_text(
    label: Seq<char>,
    job: Option<JobRun>,
    absent_value: Seq<char>,
    absent_hint: Seq<char>,
) -> (Seq<char>, Seq<char>, Seq<char>, Seq<char>) {
    match job {
        Some(j) => (label, status_label_text(j.status@), job_hint_text(j), status_tone_text(j.status@)),
        None => (label, absent_value, absent_hint, "neutral"@),
    }
}

fn job_metric(label: &str, job: &Option<JobRun>, absent_value: &str, absent_hint: &str) -> (res:
    DashboardMetric)
    requires
        *job matches Some(j) ==> job_times_shown(j),
    ensures
        metric_of(res) == job_metric_text(label@, *job, absent_value@, absent_hint@),
{
    match job {
        Some(j) => DashboardMetric {
            label: String::from_str(label),
            value: status_label(j.status.as_str()),
            hint: job_hint(j),
            tone: status_tone(j.status.as_str()),
        },
        None => DashboardMetric {
            label: String::from_str(label),
            value: String::from_str(absent_value),
            hint: String::from_str(absent_hint),
            tone: String::from_str("neutral"),
        },
    }
}

/// Everything the overview shows.
#[derive(Debug, Clone)]
pub struct DashboardView {
    pub signal: DashboardSignalView,
    pub metrics: Vec<DashboardMetric>,
    pub active_fund_total: usize,
    pub active_funds: Vec<DashboardFundView>,
    pub alert_focus: DashboardAlertFocusView,
    pub recent_jobs: Vec<DashboardJobView>,
    pub recent_alerts: Vec<DashboardAlertView>,
}

/// What the overview reads from the store.
#[derive(Debug, Clone, Copy, PartialEq, Eq, Structural)]
pub enum DashboardSource {
    /// The active funds.
    Funds,
    /// The latest jobs.
    Jobs,
    /// The latest alerts.
    Alerts,
}

/// The message of an overview whose source could not be read.
pub open spec fn dashboard_load_failure_text(source: DashboardSource, cause: Seq<char>) -> Seq<char> {
    match source {
        DashboardSource::Funds => "读取基金列表失败："@ + cause,
        DashboardSource::Jobs => "读取任务执行记录失败："@ + cause,
        DashboardSource::Alerts => "读取最近告警失败："@ + cause,
    }
}

/// The message shown when the overview cannot read `source`, with the store's own words.
pub fn dashboard_load_failure(source: DashboardSource, cause: &str) -> (res: String)
    ensures
        res@ == dashboard_load_failure_text(source, cause@),
{
    match source {
        DashboardSource::Funds => concat("读取基金列表失败：", cause),
        DashboardSource::Jobs => concat("读取任务执行记录失败：", cause),
        DashboardSource::Alerts => concat("读取最近告警失败：", cause),
    }
}

/// The latest polling round among the jobs.
pub open spec fn latest_poll(jobs: Seq<JobRun>) -> Option<JobRun> {
    match first_where(jobs, |j: JobRun| j.job_type@ == "poll_funds"@) {
        Some(i) => Some(jobs[i]),
        None => None,
    }
}

/// The latest fetch of a fund within a round among the jobs.
pub open spec fn latest_fetch(jobs: Seq<JobRun>) -> Option<JobRun> {
    match first_where(jobs, |j: JobRun| starts_with_seq(j.job_type@, "fund_poll_fetch:"@)) {
        Some(i) => Some(jobs[i]),
        None => None,
    }
}

fn find_latest_poll(jobs: &Vec<JobRun>) -> (res: Option<JobRun>)
    requires
        forall|i: int| 0 <= i < jobs@.len() ==> job_times_shown(#[trigger] jobs@[i]),
    ensures
        res matches Some(j) ==> job_times_shown(j),
        res == latest_poll(jobs@),
{
    let ghost p = |j: JobRun| j.job_type@ == "poll_funds"@;
    let mut i: usize = 0;
    while i < jobs.len()
        invariant
            i <= jobs@.len(),
            forall|k: int| 0 <= k < jobs@.len() ==> job_times_shown(#[trigger] jobs@[k]),
            p == (|j: JobRun| j.job_type@ == "poll_funds"@),
            forall|k: int| 0 <= k < i ==> !p(#[trigger] jobs@[k]),
        decreases jobs.len() - i,
    {
        if text_eq(jobs[i].job_type.as_str(), "poll_funds") {
            proof {
                lemma_first_where(jobs@, p, i as int);
            }
            return Some(jobs[i].copy());
        }
        i = i + 1;
    }
    proof {
        lemma_first_where(jobs@, p, i as int);
    }
    None
}

fn find_latest_fetch(jobs: &Vec<JobRun>) -> (res: Option<JobRun>)
    requires
        forall|i: int| 0 <= i < jobs@.len() ==> job_times_shown(#[trigger] jobs@[i]),
    ensures
        res matches Some(j) ==> job_times_shown(j),
        res == latest_fetch(jobs@),
{
    let ghost p = |j: JobRun| starts_with_seq(j.job_type@, "fund_poll_fetch:"@);
    let mut i: usize = 0;
    while i < jobs.len()
        invariant
            i <= jobs@.len(),
            forall|k: int| 0 <= k < jobs@.len() ==> job_times_shown(#[trigger] jobs@[k]),
            p == (|j: JobRun| starts_with_seq(j.job_type@, "fund_poll_fetch:"@)),
            forall|k: int| 0 <= k < i ==> !p(#[trigger] jobs@[k]),
        decreases jobs.len() - i,
    {
        if starts_with(jobs[i].job_type.as_str(), "fund_poll_fetch:") {
            proof {
                lemma_first_where(jobs@, p, i as int);
            }
            return Some(jobs[i].copy());
        }
        i = i + 1;
    }
    proof {
        lemma_first_where(jobs@, p, i as int);
    }
    None
}

/// The overview built from the active funds, the latest jobs and the latest alerts (newest
/// first): the headline, four metrics (funds, latest round, latest fetch, alerts), at most six
/// fund cards, the alert card, and the job and alert rows.
pub fn build_dashboard(funds: &Vec<Fund>, recent_jobs: Vec<JobRun>, recent_alerts: Vec<AlertListItem>) -> (res:
    DashboardView)
    requires
        times_shown(recent_jobs@, recent_alerts@),
    ensures
        signal_of(res.signal) == signal_text(
            recent_jobs@,
            recent_alerts@,
            latest_poll(recent_jobs@),
            latest_fetch(recent_jobs@),
            new_alert_total(recent_alerts@),
        ),
        res.metrics@.len() == 4,
        metric_of(res.metrics@[0]) == ("启用基金"@, int_text(funds@.len() as int) + " 只"@,
            active_fund_hint_text(trimmed_groups(funds@).len()), "info"@),
        metric_of(res.metrics@[1]) == job_metric_text(
            "轮询任务"@,
            latest_poll(recent_jobs@),
            "未启动"@,
            "轮询调度尚未开始"@,
        ),
        metric_of(res.metrics@[2]) == job_metric_text(
            "抓取任务"@,
            latest_fetch(recent_jobs@),
            "未触发"@,
            "尚未生成单基金抓取记录"@,
        ),
        metric_of(res.metrics@[3]) == ("告警状态"@, alert_metric_value_text(
            recent_alerts@,
            new_alert_total(recent_alerts@),
        ), alert_metric_hint_text(recent_alerts@, new_alert_total(recent_alerts@)),
            alert_metric_tone_text(recent_alerts@, new_alert_total(recent_alerts@))),
        res.active_fund_total == funds@.len(),
        res.active_funds@.len() == (if funds@.len() < 6 { funds@.len() } else { 6 }),
        forall|i: int| 0 <= i < res.active_funds@.len() ==> shows_fund(
            #[trigger] res.active_funds@[i],
            funds@[i],
        ),
        focus_of(res.alert_focus) == focus_text(
            if recent_alerts@.len() > 0 {
                Some(recent_alerts@[0])
            } else {
                None
            },
            latest_poll(recent_jobs@),
            latest_fetch(recent_jobs@),
            new_alert_total(recent_alerts@),
        ),
        res.recent_jobs@.len() == recent_jobs@.len(),
        forall|i: int| 0 <= i < recent_jobs@.len() ==> shows_job(
            #[trigger] res.recent_jobs@[i],
            recent_jobs@[i],
        ),
        res.recent_alerts@.len() == recent_alerts@.len(),
        forall|i: int| 0 <= i < recent_alerts@.len() ==> shows_alert(
            #[trigger] res.recent_alerts@[i],
            recent_alerts@[i],
        ),
{
    let latest_poll_job = find_latest_poll(&recent_jobs);
    let latest_fetch_job = find_latest_fetch(&recent_jobs);
    let new_alert_count = count_new_alerts(&recent_alerts);
    let mut metrics: Vec<DashboardMetric> = Vec::new();
    metrics.push(
        DashboardMetric {
            label: String::from_str("启用基金"),
            value: concat(usize_text(funds.len()).as_str(), " 只"),
            hint: active_fund_hint(funds),
            tone: String::from_str("info"),
        },
    );
    metrics.push(job_metric("轮询任务", &latest_poll_job, "未启动", "轮询调度尚未开始"));
    metrics.push(job_metric("抓取任务", &latest_fetch_job, "未触发", "尚未生成单基金抓取记录"));
    metrics.push(
        DashboardMetric {
            label: String::from_str("告警状态"),
            value: alert_metric_value(&recent_alerts, new_alert_count),
            hint: alert_metric_hint(&recent_alerts, new_alert_count),
            tone: alert_metric_tone(&recent_alerts, new_alert_count),
        },
    );
    proof {
        lemma_first_where_found(recent_alerts@, |a: AlertListItem| is_new_alert(a));
        lemma_first_where_found(recent_jobs@, |j: JobRun| is_failed_job(j));
        lemma_first_where_found(recent_jobs@, |j: JobRun| is_running_job(j));
    }
    let signal = build_signal(
        &recent_jobs,
        &recent_alerts,
        &latest_poll_job,
        &latest_fetch_job,
        new_alert_count,
    );
    let mut active_funds: Vec<DashboardFundView> = Vec::new();
    let mut i: usize = 0;
    while i < funds.len() && i < 6
        invariant
            i <= funds@.len(),
            i <= 6,
            active_funds@.len() == i,
            forall|k: int| 0 <= k < i ==> shows_fund(#[trigger] active_funds@[k], funds@[k]),
        decreases funds.len() - i,
    {
        active_funds.push(map_fund_view(&funds[i]));
        i = i + 1;
    }
    let alert_focus = build_alert_focus(
        if recent_alerts.len() > 0 {
            Some(&recent_alerts[0])
        } else {
            None
        },
        &latest_poll_job,
        &latest_fetch_job,
        new_alert_count,
    );
    let mut job_views: Vec<DashboardJobView> = Vec::new();
    let mut j: usize = 0;
    while j < recent_jobs.len()
        invariant
            j <= recent_jobs@.len(),
            job_views@.len() == j,
            times_shown(recent_jobs@, recent_alerts@),
            forall|k: int| 0 <= k < j ==> shows_job(#[trigger] job_views@[k], recent_jobs@[k]),
        decreases recent_jobs.len() - j,
    {
        job_views.push(map_job_view(recent_jobs[j].copy()));
        j = j + 1;
    }
    let mut alert_views: Vec<DashboardAlertView> = Vec::new();
    let mut a: usize = 0;
    while a < recent_alerts.len()
        invariant
            a <= recent_alerts@.len(),
            alert_views@.len() == a,
            times_shown(recent_jobs@, recent_alerts@),
            forall|k: int| 0 <= k < a ==> shows_alert(#[trigger] alert_views@[k], recent_alerts@[k]),
        decreases recent_alerts.len() - a,
    {
        alert_views.push(map_alert_view(recent_alerts[a].copy()));
        a = a + 1;
    }
    DashboardView {
        signal,
        metrics,
        active_fund_total: funds.len(),
        active_funds,
        alert_focus,
        recent_jobs: job_views,
        recent_alerts: alert_views,
    }
}

} // verus!
