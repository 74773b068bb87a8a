//! Addresses and error texts of the plain HTTP client used for the data sources.

use vstd::prelude::*;
use crate::text::{trim_end_char, trim_end_char_seq, trim_start_char, trim_start_char_seq, concat3};

verus! {

/// The base URL a client keeps: the given one without trailing `/`.
pub fn normalize_base_url(base_url: &str) -> (res: String)
    ensures
        res@ == trim_end_char_seq(base_url@, '/'),
{
    trim_end_char(base_url, '/')
}

/// A normalized base URL does not end with `/`, and normalizing it again changes nothing.
pub proof fn law_normalized_base_url_is_stable(base_url: Seq<char>)
    ensures
        trim_end_char_seq(base_url, '/').len() > 0 ==> trim_end_char_seq(base_url, '/').last() != '/',
        trim_end_char_seq(trim_end_char_seq(base_url, '/'), '/') == trim_end_char_seq(base_url, '/'),
    decreases base_url.len(),
{
    if base_url.len() > 0 && base_url.last() == '/' {
        law_normalized_base_url_is_stable(base_url.drop_last());
    }
}

/// The URL of `path` under `base_url`: joined by exactly the `/` that `path` may lack.
pub fn request_url(base_url: &str, path: &str) -> (res: String)
    ensures
        res@ == base_url@ + "/"@ + trim_start_char_seq(path@, '/'),
{
    concat3(base_url, "/", trim_start_char(path, '/').as_str())
}

/// Where fetching a text failed.
#[derive(Debug, Clone, Copy, PartialEq, Eq, Structural)]
pub enum FetchStage {
    /// The request could not be sent.
    Send,
    /// The server answered with an error status.
    Status,
    /// The body could not be read.
    Body,
}

/// The context a failure of `stage` gives for `url`.
pub open spec fn stage_context(stage: FetchStage, url: Seq<char>) -> Seq<char> {
    match stage {
        FetchStage::Send => "请求 "@ + url + " 失败"@,
        FetchStage::Status => "请求 "@ + url + " 返回错误状态"@,
        FetchStage::Body => "读取 "@ + url + " 响应失败"@,
    }
}

/// The full text of a failed fetch of `url`: the context of the stage, then `: ` and the
/// client's own words.
pub fn fetch_failure_text(stage: FetchStage, url: &str, cause: &str) -> (res: String)
    ensures
        res@ == stage_context(stage, url@) + ": "@ + cause@,
{
    let mut res = match stage {
        FetchStage::Send => concat3("请求 ", url, " 失败"),
        FetchStage::Status => concat3("请求 ", url, " 返回错误状态"),
        FetchStage::Body => concat3("读取 ", url, " 响应失败"),
    };
    res.append(": ");
    res.append(cause);
    res
}

} // verus!
