//! The fund list and detail pages and their forms.

use vstd::prelude::*;
use crate::domain::fund::{Fund, NewFund, UpdateFundMetadata};
use crate::domain::fund_quote::{FundQuote, Number};
use crate::web::layout::{display_datetime, clock_text, shown_in_shanghai};
use crate::text::{concat, i64_text, int_text, is_blank, trim, trim_seq, trim_start_seq, trim_end_seq, is_white_space};

verus! {

/// The fields of the form that adds a fund.
#[derive(Debug, Clone)]
pub struct FundFormInput {
    pub code: String,
    pub name: String,
    pub note: String,
    pub group_name: String,
    pub tags: String,
}

/// The fields of the form that edits a fund.
#[derive(Debug, Clone)]
pub struct FundMetadataFormInput {
    pub name: String,
    pub note: String,
    pub group_name: String,
    pub tags: String,
}

impl Default for FundFormInput {
    /// An empty form.
    fn default() -> (res: Self)
        ensures
            res.code@.len() == 0 && res.name@.len() == 0 && res.note@.len() == 0
                && res.group_name@.len() == 0 && res.tags@.len() == 0,
    {
        FundFormInput {
            code: String::new(),
            name: String::new(),
            note: String::new(),
            group_name: String::new(),
            tags: String::new(),
        }
    }
}

impl Default for FundMetadataFormInput {
    /// An empty form.
    fn default() -> (res: Self)
        ensures
            res.name@.len() == 0 && res.note@.len() == 0 && res.group_name@.len() == 0
                && res.tags@.len() == 0,
    {
        FundMetadataFormInput {
            name: String::new(),
            note: String::new(),
            group_name: String::new(),
            tags: String::new(),
        }
    }
}

/// An optional text field: absent when blank, else trimmed.
pub open spec fn optional_text(value: Seq<char>) -> Option<Seq<char>> {
    if trim_seq(value).len() == 0 {
        None
    } else {
        Some(trim_seq(value))
    }
}

/// The view of an optional string.
pub open spec fn opt_text(o: Option<String>) -> Option<Seq<char>> {
    match o {
        Some(s) => Some(s@),
        None => None,
    }
}

/// The text of an optional string, empty when absent.
pub open spec fn text_or_empty(o: Option<String>) -> Seq<char> {
    match o {
        Some(s) => s@,
        None => Seq::empty(),
    }
}

/// A form field as an optional value: `None` when blank, else the trimmed text.
pub fn empty_to_none(value: &str) -> (res: Option<String>)
    ensures
        opt_text(res) == optional_text(value@),
{
    if is_blank(value) {
        None
    } else {
        Some(trim(value))
    }
}

proof fn lemma_trim_start_shape(s: Seq<char>)
    ensures
        trim_start_seq(s).len() <= s.len(),
        trim_start_seq(s).len() == 0 || !is_white_space(trim_start_seq(s)[0]),
        trim_start_seq(s) == s.skip(s.len() - trim_start_seq(s).len()),
    decreases s.len(),
{
    if s.len() > 0 && is_white_space(s[0]) {
        lemma_trim_start_shape(s.drop_first());
        let r = s.drop_first();
        let l = trim_start_seq(r).len();
        assert(trim_start_seq(s) == trim_start_seq(r));
        assert(r.skip(r.len() - l) =~= s.skip(s.len() - l));
    } else {
        assert(s.skip(0) =~= s);
    }
}

proof fn lemma_trim_end_shape(s: Seq<char>)
    ensures
        trim_end_seq(s).len() <= s.len(),
        trim_end_seq(s).len() == 0 || !is_white_space(trim_end_seq(s).last()),
        trim_end_seq(s) == s.take(trim_end_seq(s).len() as int),
    decreases s.len(),
{
    if s.len() > 0 && is_white_space(s.last()) {
        lemma_trim_end_shape(s.drop_last());
        let r = s.drop_last();
        let l = trim_end_seq(r).len();
        assert(trim_end_seq(s) == trim_end_seq(r));
        assert(r.take(l as int) =~= s.take(l as int));
    } else {
        assert(s.take(s.len() as int) =~= s);
    }
}

/// Trimming twice is trimming once.
pub proof fn lemma_trim_idempotent(s: Seq<char>)
    ensures
        trim_seq(trim_seq(s)) == trim_seq(s),
{
    let a = trim_start_seq(s);
    let t = trim_end_seq(a);
    lemma_trim_start_shape(s);
    lemma_trim_end_shape(a);
    if t.len() > 0 {
        assert(t == a.take(t.len() as int));
        assert(t[0] == a.take(t.len() as int)[0]);
        assert(a.len() > 0);
        assert(t[0] == a[0]);
        assert(!is_white_space(t[0]));
        assert(trim_start_seq(t) == t);
        assert(trim_end_seq(t) == t);
    } else {
        assert(trim_start_seq(t) == t);
    }
}

/// Law: an optional field read back from its stored value reads the same.
pub proof fn law_optional_text_is_stable(value: Seq<char>)
    ensures
        optional_text(value) matches Some(t) ==> optional_text(t) == Some(t),
{
    lemma_trim_idempotent(value);
}

/// Why a fund form is refused.
#[derive(Debug, Clone, Copy, PartialEq, Eq, Structural)]
pub enum FundFormError {
    /// The code or the name is blank.
    CodeOrNameBlank,
    /// A fund with the code exists.
    DuplicateCode,
    /// The name is blank.
    NameBlank,
}

/// The message of a refused fund form.
pub open spec fn fund_form_message(e: FundFormError) -> Seq<char> {
    match e {
        FundFormError::CodeOrNameBlank => "基金代码和名称不能为空"@,
        FundFormError::DuplicateCode => "基金代码已存在"@,
        FundFormError::NameBlank => "基金名称不能为空"@,
    }
}

impl FundFormError {
    /// The message shown above the form.
    pub fn message(&self) -> (res: String)
        ensures
            res@ == fund_form_message(*self),
    {
        match self {
            FundFormError::CodeOrNameBlank => String::from_str("基金代码和名称不能为空"),
            FundFormError::DuplicateCode => String::from_str("基金代码已存在"),
            FundFormError::NameBlank => String::from_str("基金名称不能为空"),
        }
    }
}

/// The fund a valid add form describes: code and name trimmed, blank optional fields absent,
/// enabled. A blank code or name is refused.
pub fn prepare_new_fund(form: &FundFormInput) -> (res: Result<NewFund, FundFormError>)
    ensures
        match res {
            Ok(f) => {
                &&& f.code@ == trim_seq(form.code@) && f.code@.len() > 0
                &&& f.name@ == trim_seq(form.name@) && f.name@.len() > 0
                &&& opt_text(f.note) == optional_text(form.note@)
                &&& opt_text(f.group_name) == optional_text(form.group_name@)
                &&& opt_text(f.tags) == optional_text(form.tags@)
                &&& f.enabled
            },
            Err(e) => e == FundFormError::CodeOrNameBlank && (trim_seq(form.code@).len() == 0
                || trim_seq(form.name@).len() == 0),
        },
{
    let code = trim(form.code.as_str());
    let name = trim(form.name.as_str());
    let note = empty_to_none(form.note.as_str());
    let group_name = empty_to_none(form.group_name.as_str());
    let tags = empty_to_none(form.tags.as_str());
    if code.as_str().unicode_len() == 0 || name.as_str().unicode_len() == 0 {
        return Err(FundFormError::CodeOrNameBlank);
    }
    Ok(NewFund { code, name, note, group_name, tags, enabled: true })
}

/// What the add form asks for, given whether a fund with its trimmed code already exists: a
/// blank code or name is refused first, then a code in use, else the fund is added.
pub fn decide_new_fund(form: &FundFormInput, code_exists: bool) -> (res: Result<NewFund, FundFormError>)
    ensures
        trim_seq(form.code@).len() == 0 || trim_seq(form.name@).len() == 0 ==> res
            == Err::<NewFund, FundFormError>(FundFormError::CodeOrNameBlank),
        trim_seq(form.code@).len() > 0 && trim_seq(form.name@).len() > 0 && code_exists ==> res
            == Err::<NewFund, FundFormError>(FundFormError::DuplicateCode),
        res matches Ok(f) ==> {
            &&& !code_exists
            &&& f.code@ == trim_seq(form.code@) && f.code@.len() > 0
            &&& f.name@ == trim_seq(form.name@) && f.name@.len() > 0
            &&& opt_text(f.note) == optional_text(form.note@)
            &&& opt_text(f.group_name) == optional_text(form.group_name@)
            &&& opt_text(f.tags) == optional_text(form.tags@)
            &&& f.enabled
        },
        trim_seq(form.code@).len() > 0 && trim_seq(form.name@).len() > 0 && !code_exists ==> res is Ok,
{
    match prepare_new_fund(form) {
        Err(e) => Err(e),
        Ok(f) => if code_exists {
            Err(FundFormError::DuplicateCode)
        } else {
            Ok(f)
        },
    }
}

/// A fund as shown in the list.
#[derive(Debug, Clone)]
pub struct FundListItem {
    pub id: i64,
    pub code: String,
    pub name: String,
    pub note: String,
    pub group_name: String,
    pub tags: String,
}

/// A fund as shown on its page.
#[derive(Debug, Clone)]
pub struct FundDetailView {
    pub id: i64,
    pub code: String,
    pub name: String,
    pub note: String,
    pub group_name: String,
    pub tags: String,
}

fn text_or_empty_of(o: Option<String>) -> (res: String)
    ensures
        res@ == text_or_empty(o),
{
    match o {
        Some(s) => s,
        None => String::new(),
    }
}

fn text_or_empty_ref(o: &Option<String>) -> (res: String)
    ensures
        res@ == text_or_empty(*o),
{
    match o {
        Some(s) => s.clone(),
        None => String::new(),
    }
}

/// Whether a list item shows the fund.
pub open spec fn lists_fund(item: FundListItem, fund: Fund) -> bool {
    &&& item.id == fund.id
    &&& item.code@ == fund.code@
    &&& item.name@ == fund.name@
    &&& item.note@ == text_or_empty(fund.note)
    &&& item.group_name@ == text_or_empty(fund.group_name)
    &&& item.tags@ == text_or_empty(fund.tags)
}

/// The list items of the funds, in order.
pub fn map_fund_list(funds: Vec<Fund>) -> (res: Vec<FundListItem>)
    ensures
        res@.len() == funds@.len(),
        forall|i: int| 0 <= i < funds@.len() ==> lists_fund(#[trigger] res@[i], funds@[i]),
{
    let mut res: Vec<FundListItem> = Vec::new();
    let mut i: usize = 0;
    while i < funds.len()
        invariant
            i <= funds@.len(),
            res@.len() == i,
            forall|j: int| 0 <= j < i ==> lists_fund(#[trigger] res@[j], funds@[j]),
        decreases funds.len() - i,
    {
        let fund = funds[i].clone();
        let item = FundListItem {
            id: funds[i].id,
            code: funds[i].code.clone(),
            name: funds[i].name.clone(),
            note: text_or_empty_of(funds[i].note.clone()),
            group_name: text_or_empty_of(funds[i].group_name.clone()),
            tags: text_or_empty_of(funds[i].tags.clone()),
        };
        res.push(item);
        i = i + 1;
    }
    res
}

/// The detail view of a fund.
pub fn map_fund_detail(fund: Fund) -> (res: FundDetailView)
    ensures
        res.id == fund.id,
        res.code@ == fund.code@,
        res.name@ == fund.name@,
        res.note@ == text_or_empty(fund.note),
        res.group_name@ == text_or_empty(fund.group_name),
        res.tags@ == text_or_empty(fund.tags),
{
    FundDetailView {
        id: fund.id,
        code: fund.code,
        name: fund.name,
        note: text_or_empty_of(fund.note),
        group_name: text_or_empty_of(fund.group_name),
        tags: text_or_empty_of(fund.tags),
    }
}

/// What the edit form of `current` asks for: the new descriptive fields (name trimmed, blank
/// optional fields absent), or, for a blank name, the page to show again with what was typed.
pub fn prepare_fund_update(current: &Fund, form: FundMetadataFormInput) -> (res: Result<
    UpdateFundMetadata,
    (FundDetailView, FundFormError),
>)
    ensures
        match res {
            Ok(u) => {
                &&& u.name@ == trim_seq(form.name@) && u.name@.len() > 0
                &&& opt_text(u.note) == optional_text(form.note@)
                &&& opt_text(u.group_name) == optional_text(form.group_name@)
                &&& opt_text(u.tags) == optional_text(form.tags@)
            },
            Err((view, e)) => {
                &&& trim_seq(form.name@).len() == 0
                &&& e == FundFormError::NameBlank
                &&& view.id == current.id && view.code@ == current.code@
                &&& view.name@ == form.name@ && view.note@ == form.note@
                &&& view.group_name@ == form.group_name@ && view.tags@ == form.tags@
            },
        },
{
    let name = trim(form.name.as_str());
    if name.as_str().unicode_len() == 0 {
        return Err(
            (
                FundDetailView {
                    id: current.id,
                    code: current.code.clone(),
                    name: form.name,
                    note: form.note,
                    group_name: form.group_name,
                    tags: form.tags,
                },
                FundFormError::NameBlank,
            ),
        );
    }
    Ok(
        UpdateFundMetadata {
            name,
            note: empty_to_none(form.note.as_str()),
            group_name: empty_to_none(form.group_name.as_str()),
            tags: empty_to_none(form.tags.as_str()),
        },
    )
}

/// Path of a fund's page.
pub fn fund_detail_path(id: i64) -> (res: String)
    ensures
        res@ == "/funds/"@ + int_text(id as int),
{
    concat("/funds/", i64_text(id).as_str())
}

/// One stored quote as a row of a fund's history.
#[derive(Debug, Clone)]
pub struct FundHistoryRow {
    pub fetched_at: String,
    pub unit_nav: String,
    pub estimated_nav: String,
    pub change_rate: String,
    pub source: String,
}

/// The detail page of a fund: its fields, its history, whether the history is empty, and the
/// notice shown after a fetch.
#[derive(Debug, Clone)]
pub struct FundDetailPage {
    pub fund: FundDetailView,
    pub rows: Vec<FundHistoryRow>,
    pub is_empty: bool,
    pub notice: Option<String>,
}

/// A value with four decimals, or `-` when it is unknown.
pub open spec fn value4_text(v: Option<Number>) -> Seq<char> {
    match v {
        Some(n) => n.fixed4@,
        None => "-"@,
    }
}

/// A percentage with two decimals, or `-` when it is unknown.
pub open spec fn percent_text(v: Option<Number>) -> Seq<char> {
    match v {
        Some(n) => n.fixed2@ + "%"@,
        None => "-"@,
    }
}

/// Whether `row` shows `quote`: its time in UTC+8, its unit and estimated values, its change
/// rate and its source.
pub open spec fn row_shows(row: FundHistoryRow, quote: FundQuote) -> bool {
    &&& row.fetched_at@ == clock_text(quote.fetched_at as int)
    &&& row.unit_nav@ == value4_text(quote.unit_nav)
    &&& row.estimated_nav@ == value4_text(quote.estimated_nav)
    &&& row.change_rate@ == percent_text(quote.change_rate)
    &&& row.source@ == quote.source@
}

/// The notice shown after a fetch.
pub open spec fn fetched_notice() -> Seq<char> {
    "已完成最近一次基金数据抓取"@
}

fn value4_of(v: &Option<Number>) -> (res: String)
    ensures
        res@ == value4_text(*v),
{
    match v {
        Some(n) => n.fixed4.clone(),
        None => String::from_str("-"),
    }
}

fn percent_of(v: &Option<Number>) -> (res: String)
    ensures
        res@ == percent_text(*v),
{
    match v {
        Some(n) => concat(n.fixed2.as_str(), "%"),
        None => String::from_str("-"),
    }
}

/// The detail page of `fund` with its stored quotes, in the order given (the store lists the
/// newest first): one row per quote, the empty-history state exactly when there is none, and the
/// fetch notice exactly when the page follows a fetch.
pub fn build_fund_detail(fund: &Fund, quotes: &Vec<FundQuote>, fetched: bool) -> (res: FundDetailPage)
    requires
        forall|i: int| 0 <= i < quotes@.len() ==> shown_in_shanghai(#[trigger] quotes@[i].fetched_at as int),
    ensures
        res.fund.id == fund.id,
        res.fund.code@ == fund.code@,
        res.fund.name@ == fund.name@,
        res.fund.note@ == text_or_empty(fund.note),
        res.fund.group_name@ == text_or_empty(fund.group_name),
        res.fund.tags@ == text_or_empty(fund.tags),
        res.rows@.len() == quotes@.len(),
        forall|i: int| 0 <= i < quotes@.len() ==> row_shows(#[trigger] res.rows@[i], quotes@[i]),
        res.is_empty <==> quotes@.len() == 0,
        res.notice is Some <==> fetched,
        res.notice matches Some(n) ==> n@ == fetched_notice(),
{
    let mut rows: Vec<FundHistoryRow> = Vec::new();
    let mut i: usize = 0;
    while i < quotes.len()
        invariant
            i <= quotes@.len(),
            rows@.len() == i,
            forall|k: int| 0 <= k < quotes@.len() ==> shown_in_shanghai(#[trigger] quotes@[k].fetched_at as int),
            forall|k: int| 0 <= k < i ==> row_shows(#[trigger] rows@[k], quotes@[k]),
        decreases quotes.len() - i,
    {
        let q = &quotes[i];
        let row = FundHistoryRow {
            fetched_at: display_datetime(q.fetched_at),
            unit_nav: value4_of(&q.unit_nav),
            estimated_nav: value4_of(&q.estimated_nav),
            change_rate: percent_of(&q.change_rate),
            source: q.source.clone(),
        };
        rows.push(row);
        i = i + 1;
    }
    let notice = if fetched {
        Some(String::from_str("已完成最近一次基金数据抓取"))
    } else {
        None
    };
    FundDetailPage {
        fund: FundDetailView {
            id: fund.id,
            code: fund.code.clone(),
            name: fund.name.clone(),
            note: text_or_empty_ref(&fund.note),
            group_name: text_or_empty_ref(&fund.group_name),
            tags: text_or_empty_ref(&fund.tags),
        },
        is_empty: quotes.len() == 0,
        rows,
        notice,
    }
}

} // verus!
