//! The rule page: the form that creates a rule, the switch that enables one, and the list.

use vstd::prelude::*;
use crate::domain::fund::Fund;
use crate::domain::monitor_rule::{MonitorRule, NewMonitorRule};
use crate::text::{
    opt_seq,
    concat, i64_text, int_text, is_blank, join, join_seq, parse_i64, parse_integer_seq, text_eq,
    trim, trim_seq, views_of, insert_sorted, strictly_sorted,
};
use crate::web::alerts::{fund_label, fund_label_text};
use crate::web::layout::{display_offset_datetime, shanghai_display, shown_in_shanghai};

verus! {

/// The fields of the form that creates a rule, as typed.
#[derive(Debug, Clone)]
pub struct RuleFormInput {
    pub target_scope: String,
    pub fund_id: String,
    pub group_name: String,
    pub rule_type: String,
    pub cooldown_minutes: String,
    pub change_rate_gte: String,
    pub change_rate_lte: String,
    pub nav_min: String,
    pub nav_max: String,
    pub deviation_abs_gte: String,
    pub deviation_gte: String,
    pub deviation_lte: String,
}

impl Default for RuleFormInput {
    /// The form as first shown: all funds, a 30 minute cooldown, nothing else filled in.
    fn default() -> (res: Self)
        ensures
            res.target_scope@ == "all"@,
            res.cooldown_minutes@ == "30"@,
            res.fund_id@.len() == 0 && res.group_name@.len() == 0 && res.rule_type@.len() == 0,
            res.change_rate_gte@.len() == 0 && res.change_rate_lte@.len() == 0,
            res.nav_min@.len() == 0 && res.nav_max@.len() == 0,
            res.deviation_abs_gte@.len() == 0 && res.deviation_gte@.len() == 0
                && res.deviation_lte@.len() == 0,
    {
        RuleFormInput {
            target_scope: String::from_str("all"),
            fund_id: String::new(),
            group_name: String::new(),
            rule_type: String::new(),
            cooldown_minutes: String::from_str("30"),
            change_rate_gte: String::new(),
            change_rate_lte: String::new(),
            nav_min: String::new(),
            nav_max: String::new(),
            deviation_abs_gte: String::new(),
            deviation_gte: String::new(),
            deviation_lte: String::new(),
        }
    }
}

/// For each threshold field of the form, the JSON number its trimmed text parses to as a
/// decimal number (`None` where it does not parse).
#[derive(Debug, Clone)]
pub struct ThresholdNumbers {
    pub change_rate_gte: Option<String>,
    pub change_rate_lte: Option<String>,
    pub nav_min: Option<String>,
    pub nav_max: Option<String>,
    pub deviation_abs_gte: Option<String>,
    pub deviation_gte: Option<String>,
    pub deviation_lte: Option<String>,
}

/// An integer field: absent when blank, refused when not an `i64`.
pub open spec fn integer_field(raw: Seq<char>, label: Seq<char>) -> Result<Option<i64>, Seq<char>> {
    if trim_seq(raw).len() == 0 {
        Ok(None)
    } else {
        match parse_integer_seq(trim_seq(raw), i64::MIN as int, i64::MAX as int) {
            Some(v) => Ok(Some(v as i64)),
            None => Err(label + " 必须是整数"@),
        }
    }
}

/// Reads an integer field of a form.
pub fn parse_i64_field(raw: &str, label: &str) -> (res: Result<Option<i64>, String>)
    ensures
        match res {
            Ok(v) => integer_field(raw@, label@) == Ok::<Option<i64>, Seq<char>>(v),
            Err(m) => integer_field(raw@, label@) == Err::<Option<i64>, Seq<char>>(m@),
        },
{
    if is_blank(raw) {
        return Ok(None);
    }
    let trimmed = trim(raw);
    match parse_i64(trimmed.as_str()) {
        Some(v) => Ok(Some(v)),
        None => Err(concat(label, " 必须是整数")),
    }
}

/// A number field: absent when blank, refused when its text is not a number, else its JSON.
pub open spec fn number_field(raw: Seq<char>, json: Option<String>, label: Seq<char>) -> Result<
    Option<Seq<char>>,
    Seq<char>,
> {
    if trim_seq(raw).len() == 0 {
        Ok(None)
    } else {
        match json {
            Some(j) => Ok(Some(j@)),
            None => Err(label + " 必须是数字"@),
        }
    }
}

fn read_number_field(raw: &str, json: &Option<String>, label: &str) -> (res: Result<
    Option<String>,
    String,
>)
    ensures
        match res {
            Ok(Some(j)) => number_field(raw@, *json, label@) == Ok::<Option<Seq<char>>, Seq<char>>(
                Some(j@),
            ),
            Ok(None) => number_field(raw@, *json, label@) == Ok::<Option<Seq<char>>, Seq<char>>(
                None,
            ),
            Err(m) => number_field(raw@, *json, label@) == Err::<Option<Seq<char>>, Seq<char>>(m@),
        },
{
    if is_blank(raw) {
        return Ok(None);
    }
    match json {
        Some(j) => Ok(Some(j.clone())),
        None => Err(concat(label, " 必须是数字")),
    }
}

/// The members present, in order, as (key, JSON text of the value).
pub open spec fn present_members(members: Seq<(Seq<char>, Option<Seq<char>>)>) -> Seq<(Seq<char>, Seq<char>)>
    decreases members.len(),
{
    if members.len() == 0 {
        Seq::empty()
    } else {
        let rest = present_members(members.drop_last());
        match members.last().1 {
            Some(v) => rest.push((members.last().0, v)),
            None => rest,
        }
    }
}

/// The text serde_json writes for the object whose members are these keys, each with the value
/// read from its JSON text (`null` where that text does not read as JSON).
pub uninterp spec fn json_object_text(members: Seq<(Seq<char>, Seq<char>)>) -> Seq<char>;

/// The views of key/value pairs.
pub open spec fn pair_views(pairs: Seq<(String, String)>) -> Seq<(Seq<char>, Seq<char>)> {
    pairs.map_values(|p: (String, String)| (p.0@, p.1@))
}

/// Builds a `serde_json::Map` of the members (each value by `serde_json::from_str`, `Null`
/// where that fails) and writes it with `Value::to_string`.
#[verifier::external_body]
fn write_json_object(members: &Vec<(String, String)>) -> (res: String)
    ensures
        res@ == json_object_text(pair_views(members@)),
{
    let mut map = serde_json::Map::new();
    for (key, value) in members {
        let parsed = serde_json::from_str::<serde_json::Value>(value).unwrap_or(serde_json::Value::Null);
        map.insert(key.clone(), parsed);
    }
    serde_json::Value::Object(map).to_string()
}

/// The JSON object of the present members, as serde_json writes it.
pub open spec fn json_object(members: Seq<(Seq<char>, Option<Seq<char>>)>) -> Seq<char> {
    json_object_text(present_members(members))
}

/// The threshold configuration of a rule type: its number fields checked in form order, then
/// the members written as a JSON object with keys in ascending order.
pub open spec fn threshold_config(
    rule_type: Seq<char>,
    form: RuleFormInput,
    numbers: ThresholdNumbers,
) -> Result<Seq<char>, Seq<char>> {
    if rule_type == "change_rate_threshold"@ {
        let gte = number_field(form.change_rate_gte@, numbers.change_rate_gte, "涨跌幅 gte"@);
        let lte = number_field(form.change_rate_lte@, numbers.change_rate_lte, "涨跌幅 lte"@);
        match (gte, lte) {
            (Err(m), _) => Err(m),
            (Ok(_), Err(m)) => Err(m),
            (Ok(g), Ok(l)) => if g is None && l is None {
                Err("当前规则至少需要填写一个阈值条件"@)
            } else {
                Ok(json_object(seq![("gte"@, g), ("lte"@, l)]))
            },
        }
    } else if rule_type == "nav_range"@ {
        let min = number_field(form.nav_min@, numbers.nav_min, "净值最小值"@);
        let max = number_field(form.nav_max@, numbers.nav_max, "净值最大值"@);
        match (min, max) {
            (Err(m), _) => Err(m),
            (Ok(_), Err(m)) => Err(m),
            (Ok(lo), Ok(hi)) => if lo is None && hi is None {
                Err("当前规则至少需要填写一个阈值条件"@)
            } else {
                Ok(json_object(seq![("max"@, hi), ("min"@, lo)]))
            },
        }
    } else if rule_type == "estimated_nav_deviation"@ {
        let abs = number_field(form.deviation_abs_gte@, numbers.deviation_abs_gte, "估值偏离 abs_gte"@);
        let gte = number_field(form.deviation_gte@, numbers.deviation_gte, "估值偏离 gte"@);
        let lte = number_field(form.deviation_lte@, numbers.deviation_lte, "估值偏离 lte"@);
        match (abs, gte, lte) {
            (Err(m), _, _) => Err(m),
            (Ok(_), Err(m), _) => Err(m),
            (Ok(_), Ok(_), Err(m)) => Err(m),
            (Ok(a), Ok(g), Ok(l)) => if a is None && g is None && l is None {
                Err("当前规则至少需要填写一个阈值条件"@)
            } else {
                Ok(json_object(seq![("abs_gte"@, a), ("gte"@, g), ("lte"@, l)]))
            },
        }
    } else {
        Err("不支持的规则类型"@)
    }
}

/// The members named by parallel lists of keys and optional values.
pub open spec fn members_of(keys: Seq<&str>, values: Seq<Option<String>>) -> Seq<(Seq<char>, Option<Seq<char>>)> {
    Seq::new(keys.len(), |i: int| (keys[i]@, opt_seq(values[i])))
}

fn json_object_of(keys: &Vec<&str>, values: &Vec<Option<String>>) -> (res: String)
    requires
        keys@.len() == values@.len(),
    ensures
        res@ == json_object(members_of(keys@, values@)),
{
    let ghost members = members_of(keys@, values@);
    let mut pairs: Vec<(String, String)> = Vec::new();
    let mut i: usize = 0;
    assert(members.take(0) =~= Seq::<(Seq<char>, Option<Seq<char>>)>::empty());
    assert(pair_views(pairs@) =~= present_members(members.take(0)));
    while i < keys.len()
        invariant
            i <= keys@.len(),
            keys@.len() == values@.len(),
            members == members_of(keys@, values@),
            pair_views(pairs@) == present_members(members.take(i as int)),
        decreases keys.len() - i,
    {
        assert(members.take(i + 1).drop_last() =~= members.take(i as int));
        if let Some(v) = &values[i] {
            let ghost before = pairs@;
            pairs.push((String::from_str(keys[i]), v.clone()));
            assert(pair_views(pairs@) =~= pair_views(before).push((keys@[i as int]@, v@)));
        } else {
            assert(pair_views(pairs@) == present_members(members.take(i + 1)));
        }
        i = i + 1;
    }
    assert(members.take(keys@.len() as int) =~= members);
    write_json_object(&pairs)
}

/// The member `key` holding the JSON of a form field, where the field is filled; none where it
/// is blank.
pub open spec fn filled_member(key: Seq<char>, raw: Seq<char>, json: Option<String>) -> Seq<(Seq<char>, Seq<char>)> {
    if trim_seq(raw).len() > 0 {
        seq![(key, json.unwrap()@)]
    } else {
        Seq::empty()
    }
}

/// Whether every filled field of a deviation rule reads as a number, and one at least is filled.
pub open spec fn deviation_fields_ready(form: RuleFormInput, numbers: ThresholdNumbers) -> bool {
    &&& trim_seq(form.deviation_abs_gte@).len() > 0 ==> numbers.deviation_abs_gte is Some
    &&& trim_seq(form.deviation_gte@).len() > 0 ==> numbers.deviation_gte is Some
    &&& trim_seq(form.deviation_lte@).len() > 0 ==> numbers.deviation_lte is Some
    &&& (trim_seq(form.deviation_abs_gte@).len() > 0 || trim_seq(form.deviation_gte@).len() > 0
        || trim_seq(form.deviation_lte@).len() > 0)
}

/// Law: the threshold JSON of a deviation rule holds each filled field under its own key, in
/// key order: the `abs_gte` field under `"abs_gte"`, the `gte` field under `"gte"` and the `lte`
/// field under `"lte"`, each with the number the field holds; a blank field has no member.
pub proof fn law_deviation_fields_keep_their_keys(form: RuleFormInput, numbers: ThresholdNumbers)
    requires
        deviation_fields_ready(form, numbers),
    ensures
        threshold_config("estimated_nav_deviation"@, form, numbers) == Ok::<Seq<char>, Seq<char>>(
            json_object_text(
                filled_member("abs_gte"@, form.deviation_abs_gte@, numbers.deviation_abs_gte)
                    + filled_member("gte"@, form.deviation_gte@, numbers.deviation_gte)
                    + filled_member("lte"@, form.deviation_lte@, numbers.deviation_lte),
            ),
        ),
{
    reveal_strlit("estimated_nav_deviation");
    reveal_strlit("change_rate_threshold");
    reveal_strlit("nav_range");
    assert("estimated_nav_deviation"@.len() != "change_rate_threshold"@.len());
    assert("estimated_nav_deviation"@.len() != "nav_range"@.len());
    let a = number_field(form.deviation_abs_gte@, numbers.deviation_abs_gte, "估值偏离 abs_gte"@);
    let g = number_field(form.deviation_gte@, numbers.deviation_gte, "估值偏离 gte"@);
    let l = number_field(form.deviation_lte@, numbers.deviation_lte, "估值偏离 lte"@);
    let ms = seq![("abs_gte"@, a->Ok_0), ("gte"@, g->Ok_0), ("lte"@, l->Ok_0)];
    assert(ms.drop_last().drop_last().drop_last() =~= Seq::<(Seq<char>, Option<Seq<char>>)>::empty());
    assert(ms.drop_last().drop_last() =~= seq![("abs_gte"@, a->Ok_0)]);
    assert(ms.drop_last() =~= seq![("abs_gte"@, a->Ok_0), ("gte"@, g->Ok_0)]);
    let fa = filled_member("abs_gte"@, form.deviation_abs_gte@, numbers.deviation_abs_gte);
    let fg = filled_member("gte"@, form.deviation_gte@, numbers.deviation_gte);
    let fl = filled_member("lte"@, form.deviation_lte@, numbers.deviation_lte);
    assert(present_members(ms.drop_last().drop_last().drop_last()) =~= Seq::<(Seq<char>, Seq<char>)>::empty());
    assert(present_members(ms.drop_last().drop_last()) =~= fa);
    assert(present_members(ms.drop_last()) =~= fa + fg);
    assert(present_members(ms) =~= fa + fg + fl);
}

/// Law: the threshold JSON of a change-rate rule holds the `gte` field under `"gte"` and the
/// `lte` field under `"lte"`, each with the number the field holds; a blank field has no member.
pub proof fn law_change_rate_fields_keep_their_keys(form: RuleFormInput, numbers: ThresholdNumbers)
    requires
        trim_seq(form.change_rate_gte@).len() > 0 ==> numbers.change_rate_gte is Some,
        trim_seq(form.change_rate_lte@).len() > 0 ==> numbers.change_rate_lte is Some,
        trim_seq(form.change_rate_gte@).len() > 0 || trim_seq(form.change_rate_lte@).len() > 0,
    ensures
        threshold_config("change_rate_threshold"@, form, numbers) == Ok::<Seq<char>, Seq<char>>(
            json_object_text(
                filled_member("gte"@, form.change_rate_gte@, numbers.change_rate_gte)
                    + filled_member("lte"@, form.change_rate_lte@, numbers.change_rate_lte),
            ),
        ),
{
    let g = number_field(form.change_rate_gte@, numbers.change_rate_gte, "涨跌幅 gte"@);
    let l = number_field(form.change_rate_lte@, numbers.change_rate_lte, "涨跌幅 lte"@);
    let ms = seq![("gte"@, g->Ok_0), ("lte"@, l->Ok_0)];
    assert(ms.drop_last().drop_last() =~= Seq::<(Seq<char>, Option<Seq<char>>)>::empty());
    assert(ms.drop_last() =~= seq![("gte"@, g->Ok_0)]);
    let fg = filled_member("gte"@, form.change_rate_gte@, numbers.change_rate_gte);
    let fl = filled_member("lte"@, form.change_rate_lte@, numbers.change_rate_lte);
    assert(present_members(ms.drop_last().drop_last()) =~= Seq::<(Seq<char>, Seq<char>)>::empty());
    assert(present_members(ms.drop_last()) =~= fg);
    assert(present_members(ms) =~= fg + fl);
}

/// Law: the threshold JSON of a net-value range rule holds the maximum field under `"max"` and
/// the minimum field under `"min"`, each with the number the field holds; a blank field has no
/// member.
pub proof fn law_nav_range_fields_keep_their_keys(form: RuleFormInput, numbers: ThresholdNumbers)
    requires
        trim_seq(form.nav_min@).len() > 0 ==> numbers.nav_min is Some,
        trim_seq(form.nav_max@).len() > 0 ==> numbers.nav_max is Some,
        trim_seq(form.nav_min@).len() > 0 || trim_seq(form.nav_max@).len() > 0,
    ensures
        threshold_config("nav_range"@, form, numbers) == Ok::<Seq<char>, Seq<char>>(
            json_object_text(
                filled_member("max"@, form.nav_max@, numbers.nav_max)
                    + filled_member("min"@, form.nav_min@, numbers.nav_min),
            ),
        ),
{
    reveal_strlit("change_rate_threshold");
    reveal_strlit("nav_range");
    assert("nav_range"@.len() != "change_rate_threshold"@.len());
    let lo = number_field(form.nav_min@, numbers.nav_min, "净值最小值"@);
    let hi = number_field(form.nav_max@, numbers.nav_max, "净值最大值"@);
    let ms = seq![("max"@, hi->Ok_0), ("min"@, lo->Ok_0)];
    assert(ms.drop_last().drop_last() =~= Seq::<(Seq<char>, Option<Seq<char>>)>::empty());
    assert(ms.drop_last() =~= seq![("max"@, hi->Ok_0)]);
    let fh = filled_member("max"@, form.nav_max@, numbers.nav_max);
    let fl = filled_member("min"@, form.nav_min@, numbers.nav_min);
    assert(present_members(ms.drop_last().drop_last()) =~= Seq::<(Seq<char>, Seq<char>)>::empty());
    assert(present_members(ms.drop_last()) =~= fh);
    assert(present_members(ms) =~= fh + fl);
}

/// The JSON threshold configuration the form describes for `rule_type`.
pub fn build_threshold_config(rule_type: &str, form: &RuleFormInput, numbers: &ThresholdNumbers) -> (res:
    Result<String, String>)
    ensures
        match res {
            Ok(c) => threshold_config(rule_type@, *form, *numbers) == Ok::<Seq<char>, Seq<char>>(c@),
            Err(m) => threshold_config(rule_type@, *form, *numbers) == Err::<Seq<char>, Seq<char>>(
                m@,
            ),
        },
        rule_type@ == "estimated_nav_deviation"@ && deviation_fields_ready(*form, *numbers) ==> (res matches Ok(
            c,
        ) && c@ == json_object_text(
            filled_member("abs_gte"@, form.deviation_abs_gte@, numbers.deviation_abs_gte)
                + filled_member("gte"@, form.deviation_gte@, numbers.deviation_gte)
                + filled_member("lte"@, form.deviation_lte@, numbers.deviation_lte),
        )),
        rule_type@ == "change_rate_threshold"@ && (trim_seq(form.change_rate_gte@).len() > 0
            ==> numbers.change_rate_gte is Some) && (trim_seq(form.change_rate_lte@).len() > 0
            ==> numbers.change_rate_lte is Some) && (trim_seq(form.change_rate_gte@).len() > 0
            || trim_seq(form.change_rate_lte@).len() > 0) ==> (res matches Ok(c) && c@ == json_object_text(
            filled_member("gte"@, form.change_rate_gte@, numbers.change_rate_gte)
                + filled_member("lte"@, form.change_rate_lte@, numbers.change_rate_lte),
        )),
        rule_type@ == "nav_range"@ && (trim_seq(form.nav_min@).len() > 0 ==> numbers.nav_min is Some)
            && (trim_seq(form.nav_max@).len() > 0 ==> numbers.nav_max is Some) && (trim_seq(form.nav_min@).len()
            > 0 || trim_seq(form.nav_max@).len() > 0) ==> (res matches Ok(c) && c@ == json_object_text(
            filled_member("max"@, form.nav_max@, numbers.nav_max)
                + filled_member("min"@, form.nav_min@, numbers.nav_min),
        )),
{
    proof {
        if rule_type@ == "estimated_nav_deviation"@ && deviation_fields_ready(*form, *numbers) {
            law_deviation_fields_keep_their_keys(*form, *numbers);
        }
        if rule_type@ == "change_rate_threshold"@ && (trim_seq(form.change_rate_gte@).len() > 0
            ==> numbers.change_rate_gte is Some) && (trim_seq(form.change_rate_lte@).len() > 0
            ==> numbers.change_rate_lte is Some) && (trim_seq(form.change_rate_gte@).len() > 0
            || trim_seq(form.change_rate_lte@).len() > 0) {
            law_change_rate_fields_keep_their_keys(*form, *numbers);
        }
        if rule_type@ == "nav_range"@ && (trim_seq(form.nav_min@).len() > 0 ==> numbers.nav_min is Some)
            && (trim_seq(form.nav_max@).len() > 0 ==> numbers.nav_max is Some) && (trim_seq(form.nav_min@).len()
            > 0 || trim_seq(form.nav_max@).len() > 0) {
            law_nav_range_fields_keep_their_keys(*form, *numbers);
        }
    }
    if text_eq(rule_type, "change_rate_threshold") {
        let g = read_number_field(form.change_rate_gte.as_str(), &numbers.change_rate_gte, "涨跌幅 gte");
        let g = match g {
            Ok(v) => v,
            Err(m) => return Err(m),
        };
        let l = read_number_field(form.change_rate_lte.as_str(), &numbers.change_rate_lte, "涨跌幅 lte");
        let l = match l {
            Ok(v) => v,
            Err(m) => return Err(m),
        };
        if g.is_none() && l.is_none() {
            return Err(String::from_str("当前规则至少需要填写一个阈值条件"));
        }
        let keys = vec!["gte", "lte"];
        let values = vec![g, l];
        let res = json_object_of(&keys, &values);
        assert(members_of(keys@, values@) =~= seq![("gte"@, opt_seq(values@[0])), ("lte"@, opt_seq(values@[1]))]);
        Ok(res)
    } else if text_eq(rule_type, "nav_range") {
        let lo = read_number_field(form.nav_min.as_str(), &numbers.nav_min, "净值最小值");
        let lo = match lo {
            Ok(v) => v,
            Err(m) => return Err(m),
        };
        let hi = read_number_field(form.nav_max.as_str(), &numbers.nav_max, "净值最大值");
        let hi = match hi {
            Ok(v) => v,
            Err(m) => return Err(m),
        };
        if lo.is_none() && hi.is_none() {
            return Err(String::from_str("当前规则至少需要填写一个阈值条件"));
        }
        let keys = vec!["max", "min"];
        let values = vec![hi, lo];
        let res = json_object_of(&keys, &values);
        assert(members_of(keys@, values@) =~= seq![("max"@, opt_seq(values@[0])), ("min"@, opt_seq(values@[1]))]);
        Ok(res)
    } else if text_eq(rule_type, "estimated_nav_deviation") {
        let a = read_number_field(form.deviation_abs_gte.as_str(), &numbers.deviation_abs_gte, "估值偏离 abs_gte");
        let a = match a {
            Ok(v) => v,
            Err(m) => return Err(m),
        };
        let g = read_number_field(form.deviation_gte.as_str(), &numbers.deviation_gte, "估值偏离 gte");
        let g = match g {
            Ok(v) => v,
            Err(m) => return Err(m),
        };
        let l = read_number_field(form.deviation_lte.as_str(), &numbers.deviation_lte, "估值偏离 lte");
        let l = match l {
            Ok(v) => v,
            Err(m) => return Err(m),
        };
        if a.is_none() && g.is_none() && l.is_none() {
            return Err(String::from_str("当前规则至少需要填写一个阈值条件"));
        }
        let keys = vec!["abs_gte", "gte", "lte"];
        let values = vec![a, g, l];
        let res = json_object_of(&keys, &values);
        assert(members_of(keys@, values@) =~= seq![("abs_gte"@, opt_seq(values@[0])), ("gte"@, opt_seq(values@[1])), ("lte"@, opt_seq(values@[2]))]);
        Ok(res)
    } else {
        Err(String::from_str("不支持的规则类型"))
    }
}


/// The rule a form describes (target fund, target group, type, configuration, cooldown), or the
/// message of the first thing wrong with it: a blank type, a bad or negative cooldown (blank
/// means 30), a bad target, then the thresholds.
pub open spec fn new_rule_outcome(form: RuleFormInput, numbers: ThresholdNumbers) -> Result<
    (Option<i64>, Option<Seq<char>>, Seq<char>, Seq<char>, i64),
    Seq<char>,
> {
    let scope = if trim_seq(form.target_scope@).len() == 0 {
        "all"@
    } else {
        trim_seq(form.target_scope@)
    };
    let rule_type = trim_seq(form.rule_type@);
    if rule_type.len() == 0 {
        Err("规则类型不能为空"@)
    } else {
        match integer_field(form.cooldown_minutes@, "冷却时间"@) {
            Err(m) => Err(m),
            Ok(c) => {
                let cooldown = match c {
                    Some(v) => v,
                    None => 30i64,
                };
                if cooldown < 0 {
                    Err("冷却时间不能小于 0"@)
                } else {
                    let target: Result<(Option<i64>, Option<Seq<char>>), Seq<char>> = if scope
                        == "all"@ {
                        Ok((None, None))
                    } else if scope == "fund"@ {
                        match integer_field(form.fund_id@, "基金 ID"@) {
                            Err(m) => Err(m),
                            Ok(None) => Err("按基金生效时必须选择一只基金"@),
                            Ok(Some(id)) => Ok((Some(id), None)),
                        }
                    } else if scope == "group"@ {
                        if trim_seq(form.group_name@).len() == 0 {
                            Err("按分组生效时必须填写分组名称"@)
                        } else {
                            Ok((None, Some(trim_seq(form.group_name@))))
                        }
                    } else {
                        Err("规则目标范围不合法"@)
                    };
                    match target {
                        Err(m) => Err(m),
                        Ok((fund_id, group)) => match threshold_config(rule_type, form, numbers) {
                            Err(m) => Err(m),
                            Ok(config) => Ok((fund_id, group, rule_type, config, cooldown)),
                        },
                    }
                }
            },
        }
    }
}

/// Law: a rule made from a form whose cooldown is blank waits 30 minutes between alerts; one
/// whose target scope is blank or `all` names neither a fund nor a group; and a form with a
/// negative cooldown makes no rule.
pub proof fn law_new_rule_cooldown_and_scope(form: RuleFormInput, numbers: ThresholdNumbers)
    ensures
        trim_seq(form.cooldown_minutes@).len() == 0 ==> (new_rule_outcome(form, numbers) matches Ok(r)
            ==> r.4 == 30),
        (trim_seq(form.target_scope@).len() == 0 || trim_seq(form.target_scope@) == "all"@) ==> (
        new_rule_outcome(form, numbers) matches Ok(r) ==> r.0 is None && r.1 is None),
        (integer_field(form.cooldown_minutes@, "冷却时间"@) matches Ok(Some(c)) && c < 0)
            ==> new_rule_outcome(form, numbers) is Err,
        new_rule_outcome(form, numbers) matches Ok(r) ==> r.4 >= 0 && r.2 == trim_seq(form.rule_type@),
{
}

/// The rule the form describes, enabled; or the message of what is wrong with the form.
pub fn build_new_rule(form: &RuleFormInput, numbers: &ThresholdNumbers) -> (res: Result<
    NewMonitorRule,
    String,
>)
    ensures
        match res {
            Ok(r) => new_rule_outcome(*form, *numbers) == Ok::<
                (Option<i64>, Option<Seq<char>>, Seq<char>, Seq<char>, i64),
                Seq<char>,
            >((r.fund_id, opt_seq(r.group_name), r.rule_type@, r.threshold_config@, r.cooldown_minutes))
                && r.enabled,
            Err(m) => new_rule_outcome(*form, *numbers) == Err::<
                (Option<i64>, Option<Seq<char>>, Seq<char>, Seq<char>, i64),
                Seq<char>,
            >(m@),
        },
        // a created rule is enabled, waits a non-negative cooldown, and names at most one target
        res matches Ok(r) ==> r.enabled && r.cooldown_minutes >= 0 && !(r.fund_id is Some
            && r.group_name is Some),
{
    let target_scope = if is_blank(form.target_scope.as_str()) {
        String::from_str("all")
    } else {
        trim(form.target_scope.as_str())
    };
    let rule_type = trim(form.rule_type.as_str());
    if rule_type.as_str().unicode_len() == 0 {
        return Err(String::from_str("规则类型不能为空"));
    }
    let cooldown_minutes = match parse_i64_field(form.cooldown_minutes.as_str(), "冷却时间") {
        Err(m) => return Err(m),
        Ok(Some(v)) => v,
        Ok(None) => 30,
    };
    if cooldown_minutes < 0 {
        return Err(String::from_str("冷却时间不能小于 0"));
    }
    let fund_id: Option<i64>;
    let group_name: Option<String>;
    if text_eq(target_scope.as_str(), "all") {
        fund_id = None;
        group_name = None;
    } else if text_eq(target_scope.as_str(), "fund") {
        match parse_i64_field(form.fund_id.as_str(), "基金 ID") {
            Err(m) => return Err(m),
            Ok(None) => return Err(String::from_str("按基金生效时必须选择一只基金")),
            Ok(Some(id)) => {
                fund_id = Some(id);
                group_name = None;
            },
        }
    } else if text_eq(target_scope.as_str(), "group") {
        let group = trim(form.group_name.as_str());
        if group.as_str().unicode_len() == 0 {
            return Err(String::from_str("按分组生效时必须填写分组名称"));
        }
        fund_id = None;
        group_name = Some(group);
    } else {
        return Err(String::from_str("规则目标范围不合法"));
    }
    let threshold_config = match build_threshold_config(rule_type.as_str(), form, numbers) {
        Ok(c) => c,
        Err(m) => return Err(m),
    };
    Ok(
        NewMonitorRule {
            fund_id,
            group_name,
            rule_type,
            threshold_config,
            enabled: true,
            cooldown_minutes,
        },
    )
}

/// What the enable switch asks for: the new state and the page to go to, or the message of a
/// value other than `true` or `false`.
pub fn decide_toggle(raw_enabled: &str) -> (res: Result<(bool, String), String>)
    ensures
        match res {
            Ok((enabled, location)) => {
                &&& (trim_seq(raw_enabled@) == "true"@ && enabled) || (trim_seq(raw_enabled@)
                    == "false"@ && !enabled)
                &&& location@ == (if enabled {
                    "/rules?updated=enabled"@
                } else {
                    "/rules?updated=disabled"@
                })
            },
            Err(m) => trim_seq(raw_enabled@) != "true"@ && trim_seq(raw_enabled@) != "false"@
                && m@ == "规则启停参数不合法"@,
        },
{
    let value = trim(raw_enabled);
    if text_eq(value.as_str(), "true") {
        Ok((true, String::from_str("/rules?updated=enabled")))
    } else if text_eq(value.as_str(), "false") {
        Ok((false, String::from_str("/rules?updated=disabled")))
    } else {
        Err(String::from_str("规则启停参数不合法"))
    }
}

/// Label of a rule type on the rule page.
pub open spec fn rule_type_label_text(rule_type: Seq<char>) -> Seq<char> {
    if rule_type == "change_rate_threshold"@ {
        "涨跌幅阈值"@
    } else if rule_type == "nav_range"@ {
        "净值区间"@
    } else if rule_type == "estimated_nav_deviation"@ {
        "估值偏离"@
    } else {
        "未知规则"@
    }
}

/// Label of a rule type.
pub fn rule_type_label(rule_type: &str) -> (res: String)
    ensures
        res@ == rule_type_label_text(rule_type@),
{
    if text_eq(rule_type, "change_rate_threshold") {
        String::from_str("涨跌幅阈值")
    } else if text_eq(rule_type, "nav_range") {
        String::from_str("净值区间")
    } else if text_eq(rule_type, "estimated_nav_deviation") {
        String::from_str("估值偏离")
    } else {
        String::from_str("未知规则")
    }
}

/// Notice after a change on the rule page.
pub open spec fn rule_notice(updated: Seq<char>) -> Option<Seq<char>> {
    if updated == "created"@ {
        Some("已新增监控规则"@)
    } else if updated == "enabled"@ {
        Some("已启用该规则"@)
    } else if updated == "disabled"@ {
        Some("已停用该规则"@)
    } else if updated == "deleted"@ {
        Some("已删除该规则"@)
    } else {
        None
    }
}

/// Notice after a change on the rule page; none for an unknown change.
pub fn updated_notice_message(updated: &str) -> (res: Option<String>)
    ensures
        opt_seq(res) == rule_notice(updated@),
{
    if text_eq(updated, "created") {
        Some(String::from_str("已新增监控规则"))
    } else if text_eq(updated, "enabled") {
        Some(String::from_str("已启用该规则"))
    } else if text_eq(updated, "disabled") {
        Some(String::from_str("已停用该规则"))
    } else if text_eq(updated, "deleted") {
        Some(String::from_str("已删除该规则"))
    } else {
        None
    }
}

/// serde_json's reading of `text` as a JSON object: for each member in key order, its key, the
/// text of its value where that value is a JSON string, and the value as serde_json writes
/// it; `None` where `text` is not a JSON object.
pub uninterp spec fn json_object_entries(text: Seq<char>) -> Option<
    Seq<(Seq<char>, Option<Seq<char>>, Seq<char>)>,
>;

/// The views of decoded members.
pub open spec fn member_views(members: Seq<(String, Option<String>, String)>) -> Seq<
    (Seq<char>, Option<Seq<char>>, Seq<char>),
> {
    members.map_values(|m: (String, Option<String>, String)| (m.0@, opt_seq(m.1), m.2@))
}

/// Reads `text` as a JSON object (`serde_json::from_str::<Value>`) and lists its members: key,
/// `Value::as_str`, and `Value::to_string`.
#[verifier::external_body]
fn object_entries(text: &str) -> (res: Option<Vec<(String, Option<String>, String)>>)
    ensures
        match res {
            Some(v) => json_object_entries(text@) == Some(member_views(v@)),
            None => json_object_entries(text@) is None,
        },
{
    let map = match serde_json::from_str::<serde_json::Value>(text) {
        Ok(serde_json::Value::Object(map)) => map,
        _ => return None,
    };
    let mut entries = Vec::new();
    for (key, value) in map {
        let raw = value.as_str().map(String::from);
        entries.push((key, raw, value.to_string()));
    }
    Some(entries)
}

/// How a member's value is shown: a string's own text, anything else as serialized.
pub open spec fn shown_value_text(raw: Option<Seq<char>>, serialized: Seq<char>) -> Seq<char> {
    match raw {
        Some(r) => r,
        None => serialized,
    }
}

/// The text a member's value is shown as (see `shown_value_text`).
pub fn shown_value(raw: Option<String>, serialized: String) -> (res: String)
    ensures
        res@ == shown_value_text(opt_seq(raw), serialized@),
{
    match raw {
        Some(r) => r,
        None => serialized,
    }
}

/// `key=value` for each member, the value as it is shown.
pub open spec fn entry_texts(entries: Seq<(Seq<char>, Option<Seq<char>>, Seq<char>)>) -> Seq<Seq<char>> {
    entries.map_values(
        |e: (Seq<char>, Option<Seq<char>>, Seq<char>)| e.0 + "="@ + shown_value_text(e.1, e.2),
    )
}

/// The summary of a threshold configuration: `key=value` for each member, joined by `, `; the
/// raw text where it is not a JSON object.
pub open spec fn threshold_summary_text(config: Seq<char>) -> Seq<char> {
    match json_object_entries(config) {
        Some(entries) => join_seq(entry_texts(entries), ", "@),
        None => config,
    }
}

/// Summary of a rule's threshold configuration.
pub fn threshold_summary(rule: &MonitorRule) -> (res: String)
    ensures
        res@ == threshold_summary_text(rule.threshold_config@),
{
    match object_entries(rule.threshold_config.as_str()) {
        None => rule.threshold_config.clone(),
        Some(entries) => {
            let mut parts: Vec<String> = Vec::new();
            let mut i: usize = 0;
            while i < entries.len()
                invariant
                    i <= entries@.len(),
                    parts@.len() == i,
                    forall|k: int| 0 <= k < i ==> (#[trigger] parts@[k])@ == entries@[k].0@ + "="@
                        + shown_value_text(opt_seq(entries@[k].1), entries@[k].2@),
                decreases entries.len() - i,
            {
                let mut part = entries[i].0.clone();
                part.append("=");
                let raw = match &entries[i].1 {
                    Some(r) => Some(r.clone()),
                    None => None,
                };
                part.append(shown_value(raw, entries[i].2.clone()).as_str());
                parts.push(part);
                i = i + 1;
            }
            assert(views_of(parts@) =~= entry_texts(member_views(entries@)));
            join(parts.as_slice(), ", ")
        },
    }
}

/// The label last given to fund `id` (later labels replace earlier ones).
pub open spec fn label_for(labels: Seq<(i64, Seq<char>)>, id: i64) -> Option<Seq<char>>
    decreases labels.len(),
{
    if labels.len() == 0 {
        None
    } else if labels.last().0 == id {
        Some(labels.last().1)
    } else {
        label_for(labels.drop_last(), id)
    }
}

/// The views of labelled ids.
pub open spec fn label_views(labels: Seq<(i64, String)>) -> Seq<(i64, Seq<char>)> {
    labels.map_values(|l: (i64, String)| (l.0, l.1@))
}

/// The label of each fund, `name (code)`, in order.
pub open spec fn fund_label_views(funds: Seq<Fund>) -> Seq<(i64, Seq<char>)> {
    funds.map_values(|f: Fund| (f.id, fund_label_text(f.name@, f.code@)))
}

fn find_label(labels: &Vec<(i64, String)>, id: i64) -> (res: Option<String>)
    ensures
        opt_seq(res) == label_for(label_views(labels@), id),
{
    let mut j: usize = labels.len();
    assert(label_views(labels@).take(labels@.len() as int) =~= label_views(labels@));
    while j > 0
        invariant
            j <= labels@.len(),
            label_for(label_views(labels@), id) == label_for(label_views(labels@).take(j as int), id),
        decreases j,
    {
        assert(label_views(labels@).take(j as int).drop_last() =~= label_views(labels@).take(j - 1));
        if labels[j - 1].0 == id {
            return Some(labels[j - 1].1.clone());
        }
        j = j - 1;
    }
    None
}

/// The target of a rule: its fund's label (or `基金 #id` for a fund without one), `分组：group`,
/// or `全局`.
pub open spec fn target_label_text(rule: MonitorRule, labels: Seq<(i64, Seq<char>)>) -> Seq<char> {
    match rule.fund_id {
        Some(id) => match label_for(labels, id) {
            Some(l) => l,
            None => "基金 #"@ + int_text(id as int),
        },
        None => match rule.group_name {
            Some(g) => "分组："@ + g@,
            None => "全局"@,
        },
    }
}

/// The target label of a rule, given the labels of the active funds.
pub fn target_label(rule: &MonitorRule, fund_labels: &Vec<(i64, String)>) -> (res: String)
    ensures
        res@ == target_label_text(*rule, label_views(fund_labels@)),
{
    if let Some(fund_id) = rule.fund_id {
        return match find_label(fund_labels, fund_id) {
            Some(l) => l,
            None => concat("基金 #", i64_text(fund_id).as_str()),
        };
    }
    if let Some(group_name) = &rule.group_name {
        return concat("分组：", group_name.as_str());
    }
    String::from_str("全局")
}

/// One row of the rule list.
#[derive(Debug, Clone)]
pub struct RuleView {
    pub id: i64,
    pub target_label: String,
    pub rule_type: String,
    pub rule_type_label: String,
    pub threshold_summary: String,
    pub enabled: bool,
    pub status_class: String,
    pub status_label: String,
    pub cooldown_minutes: i64,
    pub last_triggered_at: String,
}

/// Whether the last trigger time of a rule can be shown.
pub open spec fn rule_times_shown(rule: MonitorRule) -> bool {
    rule.last_triggered_at matches Some(t) ==> shown_in_shanghai(t as int)
}

/// Whether a row shows the rule.
pub open spec fn shows_rule(view: RuleView, rule: MonitorRule, labels: Seq<(i64, Seq<char>)>) -> bool {
    &&& view.id == rule.id
    &&& view.target_label@ == target_label_text(rule, labels)
    &&& view.rule_type@ == rule.rule_type@
    &&& view.rule_type_label@ == rule_type_label_text(rule.rule_type@)
    &&& view.threshold_summary@ == threshold_summary_text(rule.threshold_config@)
    &&& view.enabled == rule.enabled
    &&& view.status_class@ == (if rule.enabled { "success"@ } else { "skipped"@ })
    &&& view.status_label@ == (if rule.enabled { "已启用"@ } else { "已停用"@ })
    &&& view.cooldown_minutes == rule.cooldown_minutes
    &&& view.last_triggered_at@ == match rule.last_triggered_at {
        Some(t) => shanghai_display(t as int),
        None => "-"@,
    }
}

/// The row of a rule.
pub fn map_rule_view(rule: &MonitorRule, fund_labels: &Vec<(i64, String)>) -> (res: RuleView)
    requires
        rule_times_shown(*rule),
    ensures
        shows_rule(res, *rule, label_views(fund_labels@)),
{
    RuleView {
        id: rule.id,
        target_label: target_label(rule, fund_labels),
        rule_type: rule.rule_type.clone(),
        rule_type_label: rule_type_label(rule.rule_type.as_str()),
        threshold_summary: threshold_summary(rule),
        enabled: rule.enabled,
        status_class: if rule.enabled {
            String::from_str("success")
        } else {
            String::from_str("skipped")
        },
        status_label: if rule.enabled {
            String::from_str("已启用")
        } else {
            String::from_str("已停用")
        },
        cooldown_minutes: rule.cooldown_minutes,
        last_triggered_at: match rule.last_triggered_at {
            Some(t) => display_offset_datetime(t),
            None => String::from_str("-"),
        },
    }
}

/// A fund in the target list of the form.
#[derive(Debug, Clone)]
pub struct FundOption {
    pub label: String,
    pub value: String,
}

/// The parts of the rule page drawn from the active funds and all rules.
#[derive(Debug, Clone)]
pub struct RulesPage {
    pub rules: Vec<RuleView>,
    pub funds: Vec<FundOption>,
    pub groups: Vec<String>,
}

/// Whether the fund belongs to group `g`.
pub open spec fn in_group(f: Fund, g: Seq<char>) -> bool {
    match f.group_name {
        Some(n) => n@ == g,
        None => false,
    }
}

/// Whether some fund belongs to group `g`.
pub open spec fn has_group(funds: Seq<Fund>, g: Seq<char>) -> bool {
    exists|i: int| 0 <= i < funds.len() && in_group(#[trigger] funds[i], g)
}

/// The rows, options and groups of the rule page: every rule with its target, each active fund
/// as an option, and the funds' groups sorted, each once.
pub fn build_rules_page(funds: &Vec<Fund>, rules: &Vec<MonitorRule>) -> (res: RulesPage)
    requires
        forall|i: int| 0 <= i < rules@.len() ==> rule_times_shown(#[trigger] rules@[i]),
    ensures
        res.funds@.len() == funds@.len(),
        forall|i: int| 0 <= i < funds@.len() ==> {
            &&& (#[trigger] res.funds@[i]).label@ == fund_label_text(funds@[i].name@, funds@[i].code@)
            &&& res.funds@[i].value@ == int_text(funds@[i].id as int)
        },
        res.rules@.len() == rules@.len(),
        forall|i: int| 0 <= i < rules@.len() ==> shows_rule(
            #[trigger] res.rules@[i],
            rules@[i],
            fund_label_views(funds@),
        ),
        strictly_sorted(views_of(res.groups@)),
        forall|g: Seq<char>| views_of(res.groups@).contains(g) <==> has_group(funds@, g),
{
    let mut options: Vec<FundOption> = Vec::new();
    let mut labels: Vec<(i64, String)> = Vec::new();
    let mut groups: Vec<String> = Vec::new();
    let mut i: usize = 0;
    while i < funds.len()
        invariant
            i <= funds@.len(),
            options@.len() == i,
            labels@.len() == i,
            forall|k: int| 0 <= k < i ==> {
                &&& (#[trigger] options@[k]).label@ == fund_label_text(funds@[k].name@, funds@[k].code@)
                &&& options@[k].value@ == int_text(funds@[k].id as int)
            },
            forall|k: int| 0 <= k < i ==> (#[trigger] labels@[k]).0 == funds@[k].id && labels@[k].1@
                == fund_label_text(funds@[k].name@, funds@[k].code@),
            strictly_sorted(views_of(groups@)),
            forall|g: Seq<char>| views_of(groups@).contains(g) <==> has_group(funds@.take(i as int), g),
        decreases funds.len() - i,
    {
        let label = fund_label(funds[i].name.as_str(), funds[i].code.as_str());
        options.push(FundOption { label: label.clone(), value: i64_text(funds[i].id) });
        labels.push((funds[i].id, label));
        let ghost before = groups@;
        if let Some(g) = &funds[i].group_name {
            insert_sorted(&mut groups, g.clone());
        }
        assert forall|g: Seq<char>| views_of(groups@).contains(g) <==> has_group(
            funds@.take(i + 1),
            g,
        ) by {
            if has_group(funds@.take(i + 1), g) {
                let k = choose|k: int| 0 <= k < funds@.take(i + 1).len() && in_group(#[trigger] funds@.take(
                    i + 1,
                )[k], g);
                if k < i {
                    assert(funds@.take(i as int)[k] == funds@.take(i + 1)[k]);
                    assert(has_group(funds@.take(i as int), g));
                }
            }
            if has_group(funds@.take(i as int), g) {
                let k = choose|k: int| 0 <= k < funds@.take(i as int).len() && in_group(#[trigger] funds@.take(
                    i as int,
                )[k], g);
                assert(funds@.take(i + 1)[k] == funds@.take(i as int)[k]);
            }
            if in_group(funds@[i as int], g) {
                assert(funds@.take(i + 1)[i as int] == funds@[i as int]);
            }
        }
        i = i + 1;
    }
    assert(funds@.take(funds@.len() as int) =~= funds@);
    assert(label_views(labels@) =~= fund_label_views(funds@));
    let mut views: Vec<RuleView> = Vec::new();
    let mut j: usize = 0;
    while j < rules.len()
        invariant
            j <= rules@.len(),
            views@.len() == j,
            labels@.len() == funds@.len(),
            label_views(labels@) == fund_label_views(funds@),
            forall|i: int| 0 <= i < rules@.len() ==> rule_times_shown(#[trigger] rules@[i]),
            forall|k: int| 0 <= k < j ==> shows_rule(#[trigger] views@[k], rules@[k], fund_label_views(funds@)),
        decreases rules.len() - j,
    {
        views.push(map_rule_view(&rules[j], &labels));
        j = j + 1;
    }
    RulesPage { rules: views, funds: options, groups }
}

} // verus!
