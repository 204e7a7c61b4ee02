//! Reference mutation and listing: lightweight tags and local branches at
//! a resolved revision, with collision semantics, and the status query.

use vstd::prelude::*;
use vstd::string::StringExecFns;
use crate::error::ApiError;
use crate::error::classify_lookup_error;
use crate::error::classify_ref_create_error;
use crate::error::internal_error;
use crate::model::Branch;
use crate::model::RepositoryStatus;
use crate::model::TaggedCommit;
use crate::repo;
use crate::revision::resolve_oid;
use crate::text::contains_seq;
use crate::text::describe_failure;
use crate::text::str_contains;

verus! {

/// The collision rule of reference creation: a creation is refused exactly
/// when a reference with that name already exists and the overwrite flag is
/// not set.
pub fn creation_blocked(exists: bool, force: bool) -> (b: bool)
    ensures
        b == (exists && !force),
{
    exists && !force
}

/// Create a lightweight tag named `name` at the commit `revision` resolves
/// to. An existing tag of that name is refused as BadRequest unless `force`
/// is set, in which case it is overwritten. The returned record carries the
/// requested name and the resolved target.
pub fn create_tag(gitrepo: &git2::Repository, name: &str, revision: &str, force: bool) -> (r:
    Result<TaggedCommit, ApiError>)
    ensures
        r matches Ok(t) ==> t.name@ == name@ && t.target.wf(),
{
    let oid = match resolve_oid(gitrepo, revision) {
        Ok(o) => o,
        Err(e) => return Err(e),
    };
    let target = match repo::lookup_commit(gitrepo, oid.as_str()) {
        Ok(c) => c,
        Err(e) => return Err(
            classify_lookup_error(
                e.kind,
                describe_failure("cannot read commit for ", revision, e.message.as_str()),
            ),
        ),
    };
    let refname = String::from_str("refs/tags/").concat(name);
    let exists = match repo::ref_exists(gitrepo, refname.as_str()) {
        Ok(b) => b,
        Err(e) => return Err(
            internal_error(describe_failure("cannot inspect tag ", name, e.message.as_str())),
        ),
    };
    if creation_blocked(exists, force) {
        return Err(
            ApiError::BadRequest(
                describe_failure("tag already exists ", name, "set force to overwrite"),
            ),
        );
    }
    if let Err(e) = repo::create_tag_ref(gitrepo, name, oid.as_str(), force) {
        return Err(
            classify_ref_create_error(
                e.kind,
                describe_failure("cannot create tag ", name, e.message.as_str()),
            ),
        );
    }
    Ok(TaggedCommit { name: String::from_str(name), target })
}

/// Create a local branch named `name` at the commit `revision` resolves to.
/// An existing branch of that name is refused as BadRequest unless `force`
/// is set, in which case it is overwritten. The returned record carries the
/// requested name and the resolved target.
pub fn create_branch(gitrepo: &git2::Repository, name: &str, revision: &str, force: bool) -> (r:
    Result<Branch, ApiError>)
    ensures
        r matches Ok(b) ==> b.name@ == name@ && b.target.wf(),
{
    let oid = match resolve_oid(gitrepo, revision) {
        Ok(o) => o,
        Err(e) => return Err(e),
    };
    let target = match repo::lookup_commit(gitrepo, oid.as_str()) {
        Ok(c) => c,
        Err(e) => return Err(
            classify_lookup_error(
                e.kind,
                describe_failure("cannot read commit for ", revision, e.message.as_str()),
            ),
        ),
    };
    let refname = String::from_str("refs/heads/").concat(name);
    let exists = match repo::ref_exists(gitrepo, refname.as_str()) {
        Ok(b) => b,
        Err(e) => return Err(
            internal_error(describe_failure("cannot inspect branch ", name, e.message.as_str())),
        ),
    };
    if creation_blocked(exists, force) {
        return Err(
            ApiError::BadRequest(
                describe_failure("branch already exists ", name, "set force to overwrite"),
            ),
        );
    }
    if let Err(e) = repo::create_branch_ref(gitrepo, name, oid.as_str(), force) {
        return Err(
            classify_ref_create_error(
                e.kind,
                describe_failure("cannot create branch ", name, e.message.as_str()),
            ),
        );
    }
    Ok(Branch { name: String::from_str(name), target })
}

/// List the repository's tags, each with its target commit, retaining only
/// those whose name contains the filter when one is given.
pub fn list_tags(gitrepo: &git2::Repository, filter: Option<String>) -> (r: Result<
    Vec<TaggedCommit>,
    ApiError,
>)
    ensures
        r matches Ok(v) ==> forall|i: int| 0 <= i < v@.len() ==> (#[trigger] v@[i]).target.wf(),
        r matches Ok(v) ==> (filter matches Some(f) ==> forall|i: int|
            0 <= i < v@.len() ==> contains_seq((#[trigger] v@[i]).name@, f@)),
        r matches Err(e) ==> e is InternalServerError,
{
    let arr = match repo::tag_names_array(gitrepo) {
        Ok(a) => a,
        Err(e) => return Err(
            internal_error(describe_failure("cannot list tags", "", e.message.as_str())),
        ),
    };
    let n = repo::string_array_len(&arr);
    let mut out: Vec<TaggedCommit> = Vec::new();
    let mut i: usize = 0;
    while i < n
        invariant
            forall|k: int| 0 <= k < out@.len() ==> (#[trigger] out@[k]).target.wf(),
            filter matches Some(f) ==> forall|k: int|
                0 <= k < out@.len() ==> contains_seq((#[trigger] out@[k]).name@, f@),
        decreases n - i,
    {
        if let Some(name) = repo::string_array_get(&arr, i) {
            let keep = match &filter {
                None => true,
                Some(f) => str_contains(name.as_str(), f.as_str()),
            };
            if keep {
                let refname = String::from_str("refs/tags/").concat(name.as_str());
                let oid = match repo::revparse_oid(gitrepo, refname.as_str()) {
                    Ok(o) => o,
                    Err(e) => return Err(
                        internal_error(
                            describe_failure("cannot resolve tag ", name.as_str(), e.message.as_str()),
                        ),
                    ),
                };
                let target = match repo::lookup_commit(gitrepo, oid.as_str()) {
                    Ok(c) => c,
                    Err(e) => return Err(
                        internal_error(
                            describe_failure("cannot read tag target ", name.as_str(), e.message.as_str()),
                        ),
                    ),
                };
                out.push(TaggedCommit { name, target });
            }
        }
        i = i + 1;
    }
    Ok(out)
}

/// List the repository's local branches, each with its target commit,
/// retaining only those whose name contains the filter when one is given.
/// A branch without a decodable name or without a target is skipped.
pub fn list_branches(gitrepo: &git2::Repository, filter: Option<String>) -> (r: Result<
    Vec<Branch>,
    ApiError,
>)
    ensures
        r matches Ok(v) ==> forall|i: int| 0 <= i < v@.len() ==> (#[trigger] v@[i]).target.wf(),
        r matches Ok(v) ==> (filter matches Some(f) ==> forall|i: int|
            0 <= i < v@.len() ==> contains_seq((#[trigger] v@[i]).name@, f@)),
        r matches Err(e) ==> e is InternalServerError,
{
    let mut it = match repo::local_branches(gitrepo) {
        Ok(b) => b,
        Err(e) => return Err(
            internal_error(describe_failure("cannot list branches", "", e.message.as_str())),
        ),
    };
    let mut out: Vec<Branch> = Vec::new();
    let mut steps: usize = 0;
    loop
        invariant
            forall|k: int| 0 <= k < out@.len() ==> (#[trigger] out@[k]).target.wf(),
            filter matches Some(f) ==> forall|k: int|
                0 <= k < out@.len() ==> contains_seq((#[trigger] out@[k]).name@, f@),
        decreases usize::MAX - steps,
    {
        if steps == usize::MAX {
            return Err(internal_error(String::from_str("branch listing did not finish")));
        }
        steps = steps + 1;
        match repo::branches_next(&mut it) {
            None => return Ok(out),
            Some(Err(e)) => return Err(
                internal_error(describe_failure("cannot walk branches", "", e.message.as_str())),
            ),
            Some(Ok(entry)) => {
                if let (Some(name), Some(oid)) = (entry.name, entry.target_oid) {
                    let keep = match &filter {
                        None => true,
                        Some(f) => str_contains(name.as_str(), f.as_str()),
                    };
                    if keep {
                        let target = match repo::lookup_commit(gitrepo, oid.as_str()) {
                            Ok(c) => c,
                            Err(e) => return Err(
                                internal_error(
                                    describe_failure(
                                        "cannot read branch target ",
                                        name.as_str(),
                                        e.message.as_str(),
                                    ),
                                ),
                            ),
                        };
                        out.push(Branch { name, target });
                    }
                }
            },
        }
    }
}

/// The branch field of the status: the HEAD reference's short name while
/// HEAD is attached to a branch, absent while it is detached.
pub fn branch_field(is_branch: bool, shorthand: Option<String>) -> (r: Option<String>)
    ensures
        r == (if is_branch {
            shorthand
        } else {
            Option::<String>::None
        }),
{
    if is_branch {
        shorthand
    } else {
        None
    }
}

/// Read the repository's current position: the HEAD commit and, while HEAD
/// is attached to a branch, that branch's short name. A pure read with no
/// side effect.
pub fn get_repository_status(gitrepo: &git2::Repository) -> (r: Result<RepositoryStatus, ApiError>)
    ensures
        r matches Ok(s) ==> s.head.wf(),
        r matches Err(e) ==> e is InternalServerError,
{
    let info = match repo::head_info(gitrepo) {
        Ok(h) => h,
        Err(e) => return Err(
            internal_error(describe_failure("cannot read HEAD", "", e.message.as_str())),
        ),
    };
    let head = match repo::lookup_commit(gitrepo, info.oid_hex.as_str()) {
        Ok(c) => c,
        Err(e) => return Err(
            internal_error(describe_failure("cannot read HEAD commit", "", e.message.as_str())),
        ),
    };
    Ok(RepositoryStatus { head, current_branch: branch_field(info.is_branch, info.shorthand) })
}

} // verus!
