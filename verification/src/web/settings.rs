//! The settings page: what the service runs with, its data source and its notifications.

use vstd::prelude::*;
use vstd::utf8::{encode_utf8, decode_utf8, is_char_boundary};
use vstd::string::StringSliceAdditionalSpecFns;
use crate::app::config::AppConfig;
use crate::text::{push_char, int_text, u64_text, concat};

verus! {

broadcast use vstd::utf8::encode_utf8_decode_utf8, vstd::utf8::encode_utf8_valid_utf8;

/// Where a secret of these characters is cut: all but its last four UTF-8 bytes are masked.
pub open spec fn mask_cut(chars: Seq<char>) -> int {
    let n = encode_utf8(chars).len() as int;
    if n < 4 {
        0
    } else {
        n - 4
    }
}

/// Whether the cut of a secret falls on a character boundary (else slicing it panics), for a
/// secret whose length in bytes fits in `usize`.
pub open spec fn maskable(value: Option<Seq<char>>) -> bool {
    match value {
        Some(chars) => {
            &&& encode_utf8(chars).len() <= usize::MAX
            &&& is_char_boundary(encode_utf8(chars), mask_cut(chars))
        },
        None => true,
    }
}

/// A secret as shown: `-` when absent, else one `*` per masked byte followed by the last
/// (at most four) bytes.
pub open spec fn masked_text(value: Option<Seq<char>>) -> Seq<char> {
    match value {
        Some(chars) => {
            let bytes = encode_utf8(chars);
            Seq::new(mask_cut(chars) as nat, |i: int| '*') + decode_utf8(
                bytes.subrange(mask_cut(chars), bytes.len() as int),
            )
        },
        None => "-"@,
    }
}

/// Masks a secret so that only its last four bytes show.
pub fn mask_secret(value: Option<&str>) -> (res: String)
    requires
        maskable(match value {
            Some(v) => Some(v@),
            None => None,
        }),
    ensures
        res@ == masked_text(
            match value {
                Some(v) => Some(v@),
                None => None,
            },
        ),
{
    match value {
        None => {
            let res = String::from_str("-");
            assert(res@ == masked_text(None));
            res
        },
        Some(v) => {
            let len = v.len();
            let visible: usize = if len < 4 {
                len
            } else {
                4
            };
            let cut = len - visible;
            let (_, suffix) = v.split_at(cut);
            let mut res = String::new();
            let mut i: usize = 0;
            while i < cut
                invariant
                    i <= cut,
                    res@ =~= Seq::new(i as nat, |k: int| '*'),
                decreases cut - i,
            {
                push_char(&mut res, '*');
                assert(Seq::new(i as nat, |k: int| '*').push('*') =~= Seq::new(
                    (i + 1) as nat,
                    |k: int| '*',
                ));
                i = i + 1;
            }
            proof {
                assert(decode_utf8(suffix.spec_bytes()) == suffix@);
            }
            res.append(suffix);
            res
        },
    }
}

/// One line of the settings page.
#[derive(Debug, Clone)]
pub struct SettingItem {
    pub label: String,
    pub value: String,
    pub hint: String,
}

/// The view of a line: label, value, hint.
pub open spec fn item_of(item: SettingItem) -> (Seq<char>, Seq<char>, Seq<char>) {
    (item.label@, item.value@, item.hint@)
}

/// The views of the lines of a group.
pub open spec fn items_of(items: Seq<SettingItem>) -> Seq<(Seq<char>, Seq<char>, Seq<char>)> {
    items.map_values(|item: SettingItem| item_of(item))
}

/// The settings page.
#[derive(Debug, Clone)]
pub struct SettingsView {
    pub title: String,
    pub runtime_settings: Vec<SettingItem>,
    pub data_source_settings: Vec<SettingItem>,
    pub notification_settings: Vec<SettingItem>,
}

/// The lines about how the service runs.
pub open spec fn runtime_lines(config: AppConfig) -> Seq<(Seq<char>, Seq<char>, Seq<char>)> {
    seq![
        ("监听地址"@, config.bind_addr@, "当前 Web 服务监听的地址和端口"@),
        ("轮询频率"@, int_text(config.poll_interval_seconds as int) + " 秒"@, "后台轮询基金数据的执行间隔"@),
        ("数据库"@, config.database_url@, "当前 SQLite 数据库连接字符串"@),
    ]
}

/// The lines about the data source.
pub open spec fn data_source_lines() -> Seq<(Seq<char>, Seq<char>, Seq<char>)> {
    seq![
        ("基金数据源"@, "eastmoney/pingzhongdata"@, "当前用于抓取基金净值、估值和涨跌幅的数据源"@),
        ("手动抓取入口"@, "/funds/{id}/fetch"@, "详情页中的单基金抓取入口"@),
    ]
}

/// The lines about Telegram notifications.
pub open spec fn notification_lines(config: AppConfig, telegram_enabled: bool) -> Seq<
    (Seq<char>, Seq<char>, Seq<char>),
> {
    seq![
        ("Telegram 状态"@, if telegram_enabled {
            "已启用"@
        } else {
            "未配置"@
        }, "当规则命中后是否会尝试发送 Telegram 告警"@),
        ("Telegram API"@, config.telegram_api_base_url@, "Telegram Bot API 基础地址"@),
        ("Chat ID"@, match config.telegram_chat_id {
            Some(c) => c@,
            None => "-"@,
        }, "告警消息投递的目标会话 ID"@),
        ("Bot Token"@, masked_text(
            match config.telegram_bot_token {
                Some(t) => Some(t@),
                None => None,
            },
        ), "安全起见仅展示部分掩码"@),
    ]
}

fn item(label: &str, value: String, hint: &str) -> (res: SettingItem)
    ensures
        item_of(res) == (label@, value@, hint@),
{
    SettingItem { label: String::from_str(label), value, hint: String::from_str(hint) }
}

/// The settings page for a configuration; `telegram_enabled` tells whether a notifier was made
/// from it.
pub fn build_settings_view(config: &AppConfig, telegram_enabled: bool) -> (res: SettingsView)
    requires
        maskable(
            match config.telegram_bot_token {
                Some(t) => Some(t@),
                None => None,
            },
        ),
    ensures
        res.title@ == "系统配置"@,
        items_of(res.runtime_settings@) == runtime_lines(*config),
        items_of(res.data_source_settings@) == data_source_lines(),
        items_of(res.notification_settings@) == notification_lines(*config, telegram_enabled),
{
    let mut runtime: Vec<SettingItem> = Vec::new();
    runtime.push(item("监听地址", config.bind_addr.clone(), "当前 Web 服务监听的地址和端口"));
    runtime.push(
        item(
            "轮询频率",
            concat(u64_text(config.poll_interval_seconds).as_str(), " 秒"),
            "后台轮询基金数据的执行间隔",
        ),
    );
    runtime.push(item("数据库", config.database_url.clone(), "当前 SQLite 数据库连接字符串"));
    let mut data_source: Vec<SettingItem> = Vec::new();
    data_source.push(
        item(
            "基金数据源",
            String::from_str("eastmoney/pingzhongdata"),
            "当前用于抓取基金净值、估值和涨跌幅的数据源",
        ),
    );
    data_source.push(
        item("手动抓取入口", String::from_str("/funds/{id}/fetch"), "详情页中的单基金抓取入口"),
    );
    let mut notification: Vec<SettingItem> = Vec::new();
    notification.push(
        item(
            "Telegram 状态",
            if telegram_enabled {
                String::from_str("已启用")
            } else {
                String::from_str("未配置")
            },
            "当规则命中后是否会尝试发送 Telegram 告警",
        ),
    );
    notification.push(
        item("Telegram API", config.telegram_api_base_url.clone(), "Telegram Bot API 基础地址"),
    );
    notification.push(
        item(
            "Chat ID",
            match &config.telegram_chat_id {
                Some(c) => c.clone(),
                None => String::from_str("-"),
            },
            "告警消息投递的目标会话 ID",
        ),
    );
    let token = match &config.telegram_bot_token {
        Some(t) => Some(t.as_str()),
        None => None,
    };
    notification.push(item("Bot Token", mask_secret(token), "安全起见仅展示部分掩码"));
    proof {
        assert(items_of(runtime@) =~= runtime_lines(*config));
        assert(items_of(data_source@) =~= data_source_lines());
        assert(items_of(notification@) =~= notification_lines(*config, telegram_enabled));
    }
    SettingsView {
        title: String::from_str("系统配置"),
        runtime_settings: runtime,
        data_source_settings: data_source,
        notification_settings: notification,
    }
}

} // verus!
