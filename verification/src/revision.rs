//! Revision resolution: from a human-supplied revision string — a full or
//! short id, a tag or branch name, the symbolic HEAD, or anything else the
//! engine accepts — to a commit snapshot, with the failure classified.

use vstd::prelude::*;
use vstd::string::StringExecFns;
use crate::error::ApiError;
use crate::error::classify_lookup_error;
use crate::error::internal_error;
use crate::model::Commit;
use crate::model::check_oid;
use crate::model::is_hex_oid;
use crate::repo;
use crate::text::describe_failure;

verus! {

/// Resolve a revision string to the canonical id of the object it names,
/// classifying a failure: missing is NotFound, unusable syntax is
/// BadRequest, anything else is an engine-side failure.
pub(crate) fn resolve_oid(gitrepo: &git2::Repository, revision: &str) -> (r: Result<
    String,
    ApiError,
>)
    ensures
        r matches Ok(s) ==> is_hex_oid(s@),
{
    match repo::revparse_oid(gitrepo, revision) {
        Ok(oid) => Ok(oid),
        Err(e) => Err(
            classify_lookup_error(
                e.kind,
                describe_failure("cannot resolve revision ", revision, e.message.as_str()),
            ),
        ),
    }
}

/// Resolve a revision string and return the commit it names.
pub fn get_revision(gitrepo: &git2::Repository, revision: &str) -> (r: Result<Commit, ApiError>)
    ensures
        r matches Ok(c) ==> c.wf(),
{
    let oid = match resolve_oid(gitrepo, revision) {
        Ok(o) => o,
        Err(e) => return Err(e),
    };
    match repo::lookup_commit(gitrepo, oid.as_str()) {
        Ok(c) => Ok(c),
        Err(e) => Err(
            classify_lookup_error(
                e.kind,
                describe_failure("cannot read commit for ", revision, e.message.as_str()),
            ),
        ),
    }
}

impl Commit {
    /// The commit a revision string names, or the classified failure.
    pub fn try_for_revision(gitrepo: &git2::Repository, rev: &str) -> (r: Result<Commit, ApiError>)
        ensures
            r matches Ok(c) ==> c.wf(),
    {
        get_revision(gitrepo, rev)
    }

    /// The commit with the given canonical hex id. An id that is not forty
    /// lower-case hex digits is rejected as BadRequest without asking the
    /// engine.
    pub fn try_for_oid(gitrepo: &git2::Repository, oid_hex: &str) -> (r: Result<Commit, ApiError>)
        ensures
            r matches Ok(c) ==> c.wf() && c.id@ == oid_hex@,
            !is_hex_oid(oid_hex@) ==> r is Err && r->Err_0 is BadRequest,
    {
        if !check_oid(oid_hex) {
            return Err(
                ApiError::BadRequest(
                    describe_failure("malformed object id ", oid_hex, "not a canonical hex id"),
                ),
            );
        }
        match repo::lookup_commit(gitrepo, oid_hex) {
            Ok(c) => Ok(c),
            Err(e) => Err(
                classify_lookup_error(
                    e.kind,
                    describe_failure("cannot read commit ", oid_hex, e.message.as_str()),
                ),
            ),
        }
    }
}

/// Resolve a revision string, move the working state to it, and return its
/// commit. When the revision is exactly the name of a local branch, HEAD
/// stays attached to that branch; otherwise HEAD is detached at the commit.
pub fn checkout_revision(gitrepo: &git2::Repository, revision: &str) -> (r: Result<
    Commit,
    ApiError,
>)
    ensures
        r matches Ok(c) ==> c.wf(),
{
    let oid = match resolve_oid(gitrepo, revision) {
        Ok(o) => o,
        Err(e) => return Err(e),
    };
    let commit = match repo::lookup_commit(gitrepo, oid.as_str()) {
        Ok(c) => c,
        Err(e) => return Err(
            classify_lookup_error(
                e.kind,
                describe_failure("cannot read commit for ", revision, e.message.as_str()),
            ),
        ),
    };
    if let Err(e) = repo::checkout_tree_at(gitrepo, oid.as_str()) {
        return Err(
            internal_error(describe_failure("cannot check out ", revision, e.message.as_str())),
        );
    }
    let branch_ref = String::from_str("refs/heads/").concat(revision);
    let on_branch = match repo::ref_exists(gitrepo, branch_ref.as_str()) {
        Ok(b) => b,
        Err(e) => return Err(
            internal_error(describe_failure("cannot inspect ", revision, e.message.as_str())),
        ),
    };
    let moved = if on_branch {
        repo::set_head_ref(gitrepo, branch_ref.as_str())
    } else {
        repo::set_head_detached_at(gitrepo, oid.as_str())
    };
    if let Err(e) = moved {
        return Err(
            internal_error(describe_failure("cannot move HEAD to ", revision, e.message.as_str())),
        );
    }
    Ok(commit)
}

} // verus!
