use vstd::prelude::*;
use crate::text::{extension_of, file_extension};
use crate::resolve::text_eq;

verus! {

/// How a failed metadata read is classified.
#[derive(Clone, Copy, PartialEq, Eq, Structural)]
pub enum TiramisuErrorType {
    NotFound,
    PermissionDenied,
    CatchAll,
}

/// A classified filesystem error met during the walk.
#[derive(Clone, Copy, PartialEq, Eq, Structural)]
pub struct TiramisuError {
    pub error: TiramisuErrorType,
}

/// The kind of the I/O error beneath a walk error, as far as it matters here.
#[derive(Clone, Copy, PartialEq, Eq, Structural)]
pub enum IoErrorKind {
    NotFound,
    PermissionDenied,
    Other,
}

/// Classifies a walk error by the kind of its underlying I/O error (`None`
/// where it has none): a missing entry is `NotFound`, a refused one
/// `PermissionDenied`, anything else `CatchAll`.
pub fn jwalk_err_not_found(io_kind: Option<IoErrorKind>) -> (r: TiramisuError)
    ensures
        r.error == match io_kind {
            Some(IoErrorKind::NotFound) => TiramisuErrorType::NotFound,
            Some(IoErrorKind::PermissionDenied) => TiramisuErrorType::PermissionDenied,
            _ => TiramisuErrorType::CatchAll,
        },
{
    match io_kind {
        Some(IoErrorKind::NotFound) => TiramisuError { error: TiramisuErrorType::NotFound },
        Some(IoErrorKind::PermissionDenied) => TiramisuError { error: TiramisuErrorType::PermissionDenied },
        _ => TiramisuError { error: TiramisuErrorType::CatchAll },
    }
}

/// Whether an entry counts as a directory for filtering: only where its
/// metadata was read and says so; every error counts as "not a directory".
pub fn treated_as_dir(metadata: Result<bool, TiramisuError>) -> (r: bool)
    ensures
        r == (metadata matches Ok(true)),
{
    match metadata {
        Ok(is_dir) => is_dir,
        Err(e) => match e.error {
            TiramisuErrorType::NotFound => false,
            TiramisuErrorType::PermissionDenied => false,
            TiramisuErrorType::CatchAll => false,
        },
    }
}

/// Whether `path` is one of the blacklisted paths, by exact equality.
pub open spec fn listed(path: Seq<char>, blacklist: Seq<String>) -> bool {
    exists|i: int| 0 <= i < blacklist.len() && #[trigger] blacklist[i]@ == path
}

pub fn is_blacklisted(path: &str, blacklist: &Vec<String>) -> (r: bool)
    ensures
        r == listed(path@, blacklist@),
{
    let mut i: usize = 0;
    while i < blacklist.len()
        invariant
            i <= blacklist.len(),
            forall|j: int| 0 <= j < i ==> #[trigger] blacklist@[j]@ != path@,
        decreases blacklist.len() - i,
    {
        if text_eq(blacklist[i].as_str(), path) {
            return true;
        }
        i = i + 1;
    }
    false
}

/// Whether the walk must not read the children of an entry: it is a
/// directory and its path is blacklisted.
pub fn prune_children(path: &str, is_dir: bool, blacklist: &Vec<String>) -> (r: bool)
    ensures
        r == (is_dir && listed(path@, blacklist@)),
{
    is_dir && is_blacklisted(path, blacklist)
}

/// Whether an entry stays in the walk's stream: a directory unless its path
/// is blacklisted (so neither it nor anything below it is visited), any other
/// entry only where its name has an extension.
pub fn retain_entry(path: &str, name: &str, is_dir: bool, blacklist: &Vec<String>) -> (r: bool)
    ensures
        r == if is_dir { !listed(path@, blacklist@) } else { extension_of(name@).len() > 0 },
{
    if is_dir {
        return !is_blacklisted(path, blacklist);
    }
    let ext = file_extension(name);
    !ext.as_str().is_empty()
}

} // verus!
