//! Diff construction: the ordered file-level changes between two tree
//! snapshots, with line-level patches where the engine can print one and a
//! binary fallback where it cannot.

use vstd::prelude::*;
use crate::error::ApiError;
use crate::error::classify_lookup_error;
use crate::error::internal_error;
use crate::model::DeltaData;
use crate::model::DeltaSide;
use crate::model::Diff;
use crate::model::DiffFile;
use crate::model::DiffKind;
use crate::repo;
use crate::revision::resolve_oid;
use crate::text::describe_failure;

verus! {

/// Assemble one side of a diff from the delta's side data and the looked-up
/// blob content: an all-zero id means the side does not exist; a binary
/// side or a missing blob degrades the content to absent, never failing.
pub fn assemble_diff_file(side: DeltaSide, blob: Option<String>) -> (r: Option<DiffFile>)
    ensures
        r is Some <==> !side.oid_is_zero,
        r matches Some(df) ==> df.path == side.path,
        r matches Some(df) ==> df.content == (if side.not_binary {
            blob
        } else {
            Option::<String>::None
        }),
{
    if side.oid_is_zero {
        return None;
    }
    let content = if side.not_binary {
        blob
    } else {
        None
    };
    Some(DiffFile { path: side.path, content })
}

impl DiffFile {
    /// One side of a delta with its content blob looked up from the
    /// repository; a missing blob leaves the content absent.
    pub fn try_from_repo_and_diff_file(gitrepo: &git2::Repository, side: DeltaSide) -> (r: Option<
        DiffFile,
    >)
        ensures
            r is Some <==> !side.oid_is_zero,
            r matches Some(df) ==> df.path == side.path,
            r matches Some(df) ==> (df.content is Some ==> side.not_binary),
    {
        let blob = repo::find_blob_utf8(gitrepo, side.oid_hex.as_str());
        assemble_diff_file(side, blob)
    }
}

impl Diff {
    /// The record for a delta the engine printed a patch for. The kind
    /// comes from the delta's binary flag alone, and a binary delta
    /// carries an empty patch whatever was printed.
    pub fn from_repo_and_patch(gitrepo: &git2::Repository, delta: DeltaData, patch: String) -> (d:
        Diff)
        ensures
            d.kind == (if delta.is_binary {
                DiffKind::Binary
            } else {
                DiffKind::Text
            }),
            d.kind is Binary ==> d.patch@ == Seq::<char>::empty(),
            d.kind is Text ==> d.patch@ == patch@,
            d.old is Some <==> !delta.old.oid_is_zero,
            d.new is Some <==> !delta.new.oid_is_zero,
            d.old matches Some(df) ==> df.path == delta.old.path,
            d.new matches Some(df) ==> df.path == delta.new.path,
{
        let old = DiffFile::try_from_repo_and_diff_file(gitrepo, delta.old);
        let new = DiffFile::try_from_repo_and_diff_file(gitrepo, delta.new);
        if delta.is_binary {
            Diff { old, new, kind: DiffKind::Binary, patch: String::new() }
        } else {
            Diff { old, new, kind: DiffKind::Text, patch }
        }
    }

    /// The record for a delta with no constructible patch: a binary change
    /// with an empty patch text.
    pub fn binary_from_repo_and_delta(gitrepo: &git2::Repository, delta: DeltaData) -> (d: Diff)
        ensures
            d.kind is Binary,
            d.patch@ == Seq::<char>::empty(),
            d.old is Some <==> !delta.old.oid_is_zero,
            d.new is Some <==> !delta.new.oid_is_zero,
            d.old matches Some(df) ==> df.path == delta.old.path,
            d.new matches Some(df) ==> df.path == delta.new.path,
    {
        let old = DiffFile::try_from_repo_and_diff_file(gitrepo, delta.old);
        let new = DiffFile::try_from_repo_and_diff_file(gitrepo, delta.new);
        Diff { old, new, kind: DiffKind::Binary, patch: String::new() }
    }
}

/// Every diff record of a listing keeps the binary rule: a binary kind
/// carries an empty patch.
pub open spec fn binary_rule(d: Diff) -> bool {
    d.kind is Binary ==> d.patch@ == Seq::<char>::empty()
}

/// List the file-level changes from the base revision's tree (or the empty
/// tree when no base is given) to the head revision's tree (the current
/// HEAD when none is given), in the engine's delta order.
pub fn list_diffs(
    gitrepo: &git2::Repository,
    base_rev: Option<String>,
    head_rev: Option<String>,
) -> (r: Result<Vec<Diff>, ApiError>)
    ensures
        r matches Ok(v) ==> forall|i: int| 0 <= i < v@.len() ==> binary_rule(#[trigger] v@[i]),
{
    let head_oid = match &head_rev {
        Some(h) => resolve_oid(gitrepo, h.as_str()),
        None => resolve_oid(gitrepo, "HEAD"),
    };
    let head_oid = match head_oid {
        Ok(o) => o,
        Err(e) => return Err(e),
    };
    let head_tree = match repo::tree_of_commit(gitrepo, head_oid.as_str()) {
        Ok(t) => t,
        Err(e) => return Err(
            classify_lookup_error(
                e.kind,
                describe_failure("cannot read head tree", "", e.message.as_str()),
            ),
        ),
    };
    let base_tree = match &base_rev {
        Some(b) => {
            let base_oid = match resolve_oid(gitrepo, b.as_str()) {
                Ok(o) => o,
                Err(e) => return Err(e),
            };
            match repo::tree_of_commit(gitrepo, base_oid.as_str()) {
                Ok(t) => Some(t),
                Err(e) => return Err(
                    classify_lookup_error(
                        e.kind,
                        describe_failure("cannot read base tree", "", e.message.as_str()),
                    ),
                ),
            }
        },
        None => None,
    };
    let handle = match &base_tree {
        Some(t) => repo::diff_trees(gitrepo, Some(t), &head_tree),
        None => repo::diff_trees(gitrepo, None, &head_tree),
    };
    let handle = match handle {
        Ok(h) => h,
        Err(e) => return Err(
            internal_error(describe_failure("cannot diff trees", "", e.message.as_str())),
        ),
    };
    let n = repo::diff_delta_count(&handle);
    let mut out: Vec<Diff> = Vec::new();
    let mut i: usize = 0;
    while i < n
        invariant
            forall|k: int| 0 <= k < out@.len() ==> binary_rule(#[trigger] out@[k]),
        decreases n - i,
    {
        // Printing the patch first also lets the engine settle the delta's
        // binary flags and content ids before the delta is read out.
        let patch = match repo::patch_text(&handle, i) {
            Err(e) => return Err(
                internal_error(describe_failure("cannot print patch", "", e.message.as_str())),
            ),
            Ok(p) => p,
        };
        if let Some(delta) = repo::read_delta(&handle, i) {
            match patch {
                Some(patch) => {
                    out.push(Diff::from_repo_and_patch(gitrepo, delta, patch));
                },
                None => {
                    out.push(Diff::binary_from_repo_and_delta(gitrepo, delta));
                },
            }
        }
        i = i + 1;
    }
    Ok(out)
}

} // verus!
