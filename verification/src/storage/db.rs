//! Where the SQLite database lives on disk.

use vstd::prelude::*;
use crate::text::{strip_prefix, starts_with, starts_with_seq, text_eq, opt_seq};

verus! {

/// The parent of a path as `std::path::Path::parent` computes it.
pub uninterp spec fn path_parent(path: Seq<char>) -> Option<Seq<char>>;

/// `Path::new(path).parent()`, as text.
#[verifier::external_body]
fn parent_of(path: &str) -> (res: Option<String>)
    ensures
        opt_seq(res) == path_parent(path@),
{
    match std::path::Path::new(path).parent() {
        Some(p) => match p.to_str() {
            Some(t) => Some(t.to_owned()),
            None => None,
        },
        None => None,
    }
}

/// The directory to create before opening `database_url`: the parent directory of the file
/// of a `sqlite://` URL, unless the URL names no file (empty, `:memory:`, a `file:` URI) or
/// the file has no parent, or an empty one.
pub open spec fn sqlite_parent_dir_of(database_url: Seq<char>) -> Option<Seq<char>> {
    if !starts_with_seq(database_url, "sqlite://"@) {
        None
    } else {
        let path = database_url.skip("sqlite://"@.len() as int);
        if path.len() == 0 || path == ":memory:"@ || starts_with_seq(path, "file:"@) {
            None
        } else {
            match path_parent(path) {
                Some(parent) => if parent.len() == 0 {
                    None
                } else {
                    Some(parent)
                },
                None => None,
            }
        }
    }
}

/// The directory to create before opening `database_url` (see `sqlite_parent_dir_of`).
pub fn sqlite_parent_dir(database_url: &str) -> (res: Option<String>)
    ensures
        opt_seq(res) == sqlite_parent_dir_of(database_url@),
{
    let path = match strip_prefix(database_url, "sqlite://") {
        Some(p) => p,
        None => return None,
    };
    if path.as_str().is_empty() || text_eq(path.as_str(), ":memory:") || starts_with(path.as_str(), "file:") {
        return None;
    }
    match parent_of(path.as_str()) {
        Some(parent) => if parent.as_str().is_empty() {
            None
        } else {
            Some(parent)
        },
        None => None,
    }
}

} // verus!
