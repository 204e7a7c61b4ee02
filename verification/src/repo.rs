//! The trusted boundary to the underlying repository engine.
//!
//! Every function here is a thin wrapper around one engine operation; its
//! body converts the engine's values to plain values of this crate and
//! nothing more. All rules of the core — error classification, filtering,
//! ordering, collision handling, binary fallback — live outside this module
//! and are verified.

use vstd::prelude::*;
use crate::error::GitError;
use crate::error::GitErrorKind;
use crate::model::Commit;
use crate::model::DeltaData;
use crate::model::DeltaSide;
use crate::model::HeadInfo;
use crate::model::BranchEntry;
use crate::model::Signature;
use crate::model::is_hex_oid;

verus! {

#[verifier::external_type_specification]
#[verifier::external_body]
pub struct ExRepository(git2::Repository);

#[verifier::external_type_specification]
#[verifier::external_body]
pub struct ExGitError(git2::Error);

/// Holds the engine's traversal state, opaque to the rest of the crate;
/// it is advanced one commit at a time through the wrappers below.
#[verifier::external_body]
pub struct WalkHandle<'r> {
    inner: git2::Revwalk<'r>,
}

#[verifier::external_type_specification]
#[verifier::external_body]
pub struct ExTree<'a>(git2::Tree<'a>);

/// Holds the engine's computed tree-to-tree delta list, opaque to the rest
/// of the crate; its deltas are read out through the wrappers below.
#[verifier::external_body]
pub(crate) struct TreeDiffHandle<'r> {
    inner: git2::Diff<'r>,
}

/// Holds the engine's branch iterator, opaque to the rest of the crate;
/// it is advanced one branch at a time through the wrappers below.
#[verifier::external_body]
pub(crate) struct BranchIterHandle<'r> {
    inner: git2::Branches<'r>,
}

#[verifier::external_type_specification]
#[verifier::external_body]
pub struct ExStringArray(git2::string_array::StringArray);

/// Relies on git2::Error::code and git2::Error::message: the failure's
/// category, reduced to the kinds this crate distinguishes, and its text.
#[verifier::external_body]
pub(crate) fn git_error_parts(e: git2::Error) -> GitError {
    let kind = match e.code() {
        git2::ErrorCode::NotFound => GitErrorKind::NotFound,
        git2::ErrorCode::InvalidSpec => GitErrorKind::Invalid,
        git2::ErrorCode::Invalid => GitErrorKind::Invalid,
        git2::ErrorCode::Exists => GitErrorKind::Exists,
        _ => GitErrorKind::Other,
    };
    GitError { kind, message: e.message().to_string() }
}

/// Relies on git2::Repository::revparse_single: the object the revision
/// string names, whose id prints as forty lower-case hex digits.
#[verifier::external_body]
pub(crate) fn revparse_oid(repo: &git2::Repository, spec: &str) -> (r: Result<String, GitError>)
    ensures
        r matches Ok(s) ==> is_hex_oid(s@),
{
    match repo.revparse_single(spec) {
        Ok(obj) => Ok(obj.id().to_string()),
        Err(e) => Err(git_error_parts(e)),
    }
}

/// Holds one of the engine's commit objects, opaque to the rest of the
/// crate; its fields are read out through the wrappers below.
#[verifier::external_body]
pub struct CommitHandle<'r> {
    inner: git2::Commit<'r>,
}

/// Relies on git2::Oid::from_str and git2::Repository::find_commit:
/// looking a commit up by its canonical id returns the commit with exactly
/// that id.
#[verifier::external_body]
pub(crate) fn find_commit_handle<'r>(repo: &'r git2::Repository, oid_hex: &str) -> Result<
    CommitHandle<'r>,
    GitError,
>
    requires
        is_hex_oid(oid_hex@),
{
    let oid = match git2::Oid::from_str(oid_hex) {
        Ok(o) => o,
        Err(e) => return Err(git_error_parts(e)),
    };
    match repo.find_commit(oid) {
        Ok(c) => Ok(CommitHandle { inner: c }),
        Err(e) => Err(git_error_parts(e)),
    }
}

/// Relies on git2::Commit::summary: the summary line, empty when the
/// commit has none or it does not decode.
#[verifier::external_body]
fn commit_summary_of(c: &CommitHandle<'_>) -> String {
    c.inner.summary().ok().flatten().unwrap_or("").to_string()
}

/// Relies on git2::Commit::body: the body text, empty when the commit has
/// none or it does not decode.
#[verifier::external_body]
fn commit_body_of(c: &CommitHandle<'_>) -> String {
    c.inner.body().ok().flatten().unwrap_or("").to_string()
}

/// Relies on git2::Commit::time and git2::Time::seconds: the authorship
/// time in seconds since the epoch.
#[verifier::external_body]
fn commit_time_of(c: &CommitHandle<'_>) -> i64 {
    c.inner.time().seconds()
}

/// Relies on git2::Commit::author and git2::Signature's accessors: name
/// and email, empty where unset or undecodable.
#[verifier::external_body]
fn commit_author_of(c: &CommitHandle<'_>) -> Signature {
    let s = c.inner.author();
    Signature {
        name: s.name().unwrap_or("").to_string(),
        email: s.email().unwrap_or("").to_string(),
    }
}

/// Relies on git2::Commit::committer and git2::Signature's accessors: name
/// and email, empty where unset or undecodable.
#[verifier::external_body]
fn commit_committer_of(c: &CommitHandle<'_>) -> Signature {
    let s = c.inner.committer();
    Signature {
        name: s.name().unwrap_or("").to_string(),
        email: s.email().unwrap_or("").to_string(),
    }
}

/// Look a commit up by its canonical id and snapshot it as plain values.
/// The snapshot's id is the requested id: the engine's lookup-by-id
/// returns the commit with exactly that id.
pub(crate) fn lookup_commit(repo: &git2::Repository, oid_hex: &str) -> (r: Result<
    Commit,
    GitError,
>)
    requires
        is_hex_oid(oid_hex@),
    ensures
        r matches Ok(c) ==> c.wf() && c.id@ == oid_hex@,
{
    let handle = match find_commit_handle(repo, oid_hex) {
        Ok(h) => h,
        Err(e) => return Err(e),
    };
    Ok(
        Commit {
            id: oid_hex.to_owned(),
            summary: commit_summary_of(&handle),
            body: commit_body_of(&handle),
            time: commit_time_of(&handle),
            author: commit_author_of(&handle),
            committer: commit_committer_of(&handle),
        },
    )
}

/// Relies on git2::Repository::revwalk: a fresh walker over the commit
/// graph, in the engine's default newest-to-oldest order.
#[verifier::external_body]
pub(crate) fn revwalk_new<'r>(repo: &'r git2::Repository) -> Result<WalkHandle<'r>, GitError> {
    match repo.revwalk() {
        Ok(w) => Ok(WalkHandle { inner: w }),
        Err(e) => Err(git_error_parts(e)),
    }
}

/// Relies on git2::Revwalk::push: marks the commit with this id as a root
/// of the traversal.
#[verifier::external_body]
pub(crate) fn revwalk_push(w: &mut WalkHandle<'_>, oid_hex: &str) -> Result<(), GitError>
    requires
        is_hex_oid(oid_hex@),
{
    let oid = match git2::Oid::from_str(oid_hex) {
        Ok(o) => o,
        Err(e) => return Err(git_error_parts(e)),
    };
    match w.inner.push(oid) {
        Ok(()) => Ok(()),
        Err(e) => Err(git_error_parts(e)),
    }
}

/// Relies on git2::Revwalk::push_range: marks the commit named second as a
/// root of the traversal and excludes everything reachable from the commit
/// named first.
#[verifier::external_body]
pub(crate) fn revwalk_push_range(
    w: &mut WalkHandle<'_>,
    base_hex: &str,
    head_hex: &str,
) -> Result<(), GitError>
    requires
        is_hex_oid(base_hex@),
        is_hex_oid(head_hex@),
{
    match w.inner.push_range(&format!("{}..{}", base_hex, head_hex)) {
        Ok(()) => Ok(()),
        Err(e) => Err(git_error_parts(e)),
    }
}

/// Relies on git2::Revwalk::next: the next commit id of the traversal,
/// printed as forty lower-case hex digits, or the end of the walk.
#[verifier::external_body]
pub(crate) fn revwalk_next(w: &mut WalkHandle<'_>) -> (r: Option<Result<String, GitError>>)
    ensures
        r matches Some(n) ==> (n matches Ok(o) ==> is_hex_oid(o@)),
{
    match w.inner.next() {
        None => None,
        Some(Ok(oid)) => Some(Ok(oid.to_string())),
        Some(Err(e)) => Some(Err(git_error_parts(e))),
    }
}

/// Relies on git2::Repository::find_commit and git2::Commit::tree: the tree
/// snapshot of the commit with this id.
#[verifier::external_body]
pub(crate) fn tree_of_commit<'r>(repo: &'r git2::Repository, oid_hex: &str) -> Result<
    git2::Tree<'r>,
    GitError,
>
    requires
        is_hex_oid(oid_hex@),
{
    let oid = match git2::Oid::from_str(oid_hex) {
        Ok(o) => o,
        Err(e) => return Err(git_error_parts(e)),
    };
    let c = match repo.find_commit(oid) {
        Ok(c) => c,
        Err(e) => return Err(git_error_parts(e)),
    };
    match c.tree() {
        Ok(t) => Ok(t),
        Err(e) => Err(git_error_parts(e)),
    }
}

/// Relies on git2::Repository::diff_tree_to_tree: the deltas from the old
/// tree (or the empty tree) to the new tree, in the engine's order.
#[verifier::external_body]
pub(crate) fn diff_trees<'r>(
    repo: &'r git2::Repository,
    old: Option<&git2::Tree<'r>>,
    new: &git2::Tree<'r>,
) -> Result<TreeDiffHandle<'r>, GitError> {
    match repo.diff_tree_to_tree(old, Some(new), None) {
        Ok(d) => Ok(TreeDiffHandle { inner: d }),
        Err(e) => Err(git_error_parts(e)),
    }
}

/// Relies on git2::Diff::deltas: how many deltas the diff holds.
#[verifier::external_body]
pub(crate) fn diff_delta_count(d: &TreeDiffHandle<'_>) -> usize {
    d.inner.deltas().len()
}

/// Relies on git2::Diff::get_delta, git2::DiffDelta::flags and
/// git2::DiffFlags::is_binary: whether the delta at this index is flagged
/// binary, or nothing past the end.
#[verifier::external_body]
fn delta_is_binary(d: &TreeDiffHandle<'_>, i: usize) -> Option<bool> {
    d.inner.get_delta(i).map(|delta| delta.flags().is_binary())
}

/// Relies on git2::Diff::get_delta, git2::DiffDelta::old_file and
/// git2::DiffFile's accessors: the delta's old side as plain values; the
/// blob id prints as forty lower-case hex digits.
#[verifier::external_body]
fn delta_old_side(d: &TreeDiffHandle<'_>, i: usize) -> (r: Option<DeltaSide>)
    ensures
        r matches Some(s) ==> is_hex_oid(s.oid_hex@),
{
    let f = d.inner.get_delta(i)?.old_file();
    Some(DeltaSide {
        oid_hex: f.id().to_string(),
        oid_is_zero: f.id().is_zero(),
        path: f.path().map(|p| p.to_str().unwrap_or("unknown").to_string()),
        not_binary: f.is_not_binary(),
    })
}

/// Relies on git2::Diff::get_delta, git2::DiffDelta::new_file and
/// git2::DiffFile's accessors: the delta's new side as plain values; the
/// blob id prints as forty lower-case hex digits.
#[verifier::external_body]
fn delta_new_side(d: &TreeDiffHandle<'_>, i: usize) -> (r: Option<DeltaSide>)
    ensures
        r matches Some(s) ==> is_hex_oid(s.oid_hex@),
{
    let f = d.inner.get_delta(i)?.new_file();
    Some(DeltaSide {
        oid_hex: f.id().to_string(),
        oid_is_zero: f.id().is_zero(),
        path: f.path().map(|p| p.to_str().unwrap_or("unknown").to_string()),
        not_binary: f.is_not_binary(),
    })
}

/// The delta at this index as plain values, or nothing past the end.
pub(crate) fn read_delta(d: &TreeDiffHandle<'_>, i: usize) -> (r: Option<DeltaData>)
    ensures
        r matches Some(dd) ==> is_hex_oid(dd.old.oid_hex@) && is_hex_oid(dd.new.oid_hex@),
{
    let is_binary = match delta_is_binary(d, i) {
        Some(b) => b,
        None => return None,
    };
    let old = match delta_old_side(d, i) {
        Some(s) => s,
        None => return None,
    };
    let new = match delta_new_side(d, i) {
        Some(s) => s,
        None => return None,
    };
    Some(DeltaData { is_binary, old, new })
}

/// Relies on git2::Patch::from_diff and git2::Patch::to_buf: the printed
/// patch for the delta at this index, or nothing when the engine reports
/// that no patch is constructible there.
#[verifier::external_body]
pub(crate) fn patch_text(d: &TreeDiffHandle<'_>, i: usize) -> Result<Option<String>, GitError> {
    match git2::Patch::from_diff(&d.inner, i) {
        Ok(Some(mut p)) => match p.to_buf() {
            Ok(buf) => Ok(Some(buf.as_str().unwrap_or("").to_string())),
            Err(e) => Err(git_error_parts(e)),
        },
        Ok(None) => Ok(None),
        Err(e) => Err(git_error_parts(e)),
    }
}

/// Relies on git2::Repository::find_blob and git2::Blob::content: the
/// blob's bytes decoded as text, or nothing when the blob cannot be found.
#[verifier::external_body]
pub(crate) fn find_blob_utf8(repo: &git2::Repository, oid_hex: &str) -> Option<String> {
    let oid = match git2::Oid::from_str(oid_hex) {
        Ok(o) => o,
        Err(_) => return None,
    };
    match repo.find_blob(oid) {
        Ok(blob) => Some(String::from_utf8_lossy(blob.content()).into_owned()),
        Err(_) => None,
    }
}

/// Relies on git2::Repository::tag_names: the names of all tags.
#[verifier::external_body]
pub(crate) fn tag_names_array(repo: &git2::Repository) -> Result<
    git2::string_array::StringArray,
    GitError,
> {
    match repo.tag_names(None) {
        Ok(a) => Ok(a),
        Err(e) => Err(git_error_parts(e)),
    }
}

/// Relies on git2::string_array::StringArray::len.
#[verifier::external_body]
pub(crate) fn string_array_len(a: &git2::string_array::StringArray) -> usize {
    a.len()
}

/// Relies on git2::string_array::StringArray::get: the entry at this index,
/// or nothing when it is out of bounds or does not decode as text.
#[verifier::external_body]
pub(crate) fn string_array_get(a: &git2::string_array::StringArray, i: usize) -> Option<String> {
    match a.get(i) {
        Ok(Some(s)) => Some(s.to_string()),
        _ => None,
    }
}

/// Relies on git2::Repository::branches: an iterator over the local
/// branches.
#[verifier::external_body]
pub(crate) fn local_branches<'r>(repo: &'r git2::Repository) -> Result<
    BranchIterHandle<'r>,
    GitError,
> {
    match repo.branches(Some(git2::BranchType::Local)) {
        Ok(b) => Ok(BranchIterHandle { inner: b }),
        Err(e) => Err(git_error_parts(e)),
    }
}

/// Relies on git2::Branches::next, git2::Branch::name and
/// git2::Reference::target: the next branch's short name and the id it
/// points at, as forty lower-case hex digits when present.
#[verifier::external_body]
pub(crate) fn branches_next(it: &mut BranchIterHandle<'_>) -> (r: Option<
    Result<BranchEntry, GitError>,
>)
    ensures
        r matches Some(n) ==> (n matches Ok(be) ==> (be.target_oid matches Some(t) ==> is_hex_oid(
            t@,
        ))),
{
    match it.inner.next() {
        None => None,
        Some(Err(e)) => Some(Err(git_error_parts(e))),
        Some(Ok((b, _))) => Some(Ok(BranchEntry {
            name: match b.name() {
                Ok(Some(n)) => Some(n.to_string()),
                _ => None,
            },
            target_oid: b.get().target().map(|o| o.to_string()),
        })),
    }
}

/// Relies on git2::Repository::find_reference: whether a reference with
/// this full name exists.
#[verifier::external_body]
pub(crate) fn ref_exists(repo: &git2::Repository, refname: &str) -> Result<bool, GitError> {
    match repo.find_reference(refname) {
        Ok(_) => Ok(true),
        Err(e) => {
            if e.code() == git2::ErrorCode::NotFound {
                Ok(false)
            } else {
                Err(git_error_parts(e))
            }
        },
    }
}

/// Relies on git2::Repository::find_object and ::tag_lightweight: creates a
/// lightweight tag at the object with this id, replacing an existing one
/// only when `force` is set.
#[verifier::external_body]
pub(crate) fn create_tag_ref(
    repo: &git2::Repository,
    name: &str,
    oid_hex: &str,
    force: bool,
) -> Result<(), GitError>
    requires
        is_hex_oid(oid_hex@),
{
    let oid = match git2::Oid::from_str(oid_hex) {
        Ok(o) => o,
        Err(e) => return Err(git_error_parts(e)),
    };
    let obj = match repo.find_object(oid, None) {
        Ok(o) => o,
        Err(e) => return Err(git_error_parts(e)),
    };
    match repo.tag_lightweight(name, &obj, force) {
        Ok(_) => Ok(()),
        Err(e) => Err(git_error_parts(e)),
    }
}

/// Relies on git2::Repository::find_commit and ::branch: creates a branch
/// at the commit with this id, replacing an existing one only when `force`
/// is set.
#[verifier::external_body]
pub(crate) fn create_branch_ref(
    repo: &git2::Repository,
    name: &str,
    oid_hex: &str,
    force: bool,
) -> Result<(), GitError>
    requires
        is_hex_oid(oid_hex@),
{
    let oid = match git2::Oid::from_str(oid_hex) {
        Ok(o) => o,
        Err(e) => return Err(git_error_parts(e)),
    };
    let c = match repo.find_commit(oid) {
        Ok(c) => c,
        Err(e) => return Err(git_error_parts(e)),
    };
    match repo.branch(name, &c, force) {
        Ok(_) => Ok(()),
        Err(e) => Err(git_error_parts(e)),
    }
}

/// Relies on git2::Repository::head, git2::Reference::is_branch,
/// ::shorthand and ::peel_to_commit: where HEAD points, as plain values;
/// the commit id prints as forty lower-case hex digits.
#[verifier::external_body]
pub(crate) fn head_info(repo: &git2::Repository) -> (r: Result<HeadInfo, GitError>)
    ensures
        r matches Ok(h) ==> is_hex_oid(h.oid_hex@),
{
    let head = match repo.head() {
        Ok(h) => h,
        Err(e) => return Err(git_error_parts(e)),
    };
    let is_branch = head.is_branch();
    let shorthand = match head.shorthand() {
        Ok(s) => Some(s.to_string()),
        Err(_) => None,
    };
    match head.peel_to_commit() {
        Ok(c) => Ok(HeadInfo { oid_hex: c.id().to_string(), is_branch, shorthand }),
        Err(e) => Err(git_error_parts(e)),
    }
}

/// Relies on git2::Repository::find_object and ::checkout_tree: updates the
/// working tree to the object with this id.
#[verifier::external_body]
pub(crate) fn checkout_tree_at(repo: &git2::Repository, oid_hex: &str) -> Result<(), GitError>
    requires
        is_hex_oid(oid_hex@),
{
    let oid = match git2::Oid::from_str(oid_hex) {
        Ok(o) => o,
        Err(e) => return Err(git_error_parts(e)),
    };
    let obj = match repo.find_object(oid, None) {
        Ok(o) => o,
        Err(e) => return Err(git_error_parts(e)),
    };
    match repo.checkout_tree(&obj, None) {
        Ok(()) => Ok(()),
        Err(e) => Err(git_error_parts(e)),
    }
}

/// Relies on git2::Repository::set_head: points HEAD at the reference with
/// this full name, staying attached.
#[verifier::external_body]
pub(crate) fn set_head_ref(repo: &git2::Repository, refname: &str) -> Result<(), GitError> {
    match repo.set_head(refname) {
        Ok(()) => Ok(()),
        Err(e) => Err(git_error_parts(e)),
    }
}

/// Relies on git2::Repository::set_head_detached: points HEAD directly at
/// the commit with this id.
#[verifier::external_body]
pub(crate) fn set_head_detached_at(repo: &git2::Repository, oid_hex: &str) -> Result<(), GitError>
    requires
        is_hex_oid(oid_hex@),
{
    let oid = match git2::Oid::from_str(oid_hex) {
        Ok(o) => o,
        Err(e) => return Err(git_error_parts(e)),
    };
    match repo.set_head_detached(oid) {
        Ok(()) => Ok(()),
        Err(e) => Err(git_error_parts(e)),
    }
}

} // verus!
