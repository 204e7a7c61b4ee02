//! Range walking: the commits reachable from a head revision, excluding
//! everything reachable from a base revision, newest first in the engine's
//! traversal order, with an optional verified text filter.

use vstd::prelude::*;
use vstd::string::StringExecFns;
use crate::error::ApiError;
use crate::error::GitError;
use crate::error::internal_error;
use crate::model::Commit;
use crate::model::commit_matches;
use crate::model::filter_matching;
use crate::model::filter_view;
use crate::model::filtered_commits;
use crate::model::is_hex_oid;
use crate::model::lemma_filter_matching_push;
use crate::repo;
use crate::repo::WalkHandle;
use crate::revision::resolve_oid;
use crate::text::describe_failure;
use crate::text::str_contains;

verus! {

/// The base and head revision strings of a commit range. An absent head
/// means the repository's current HEAD; an absent base means no lower
/// bound, walking to the root.
pub struct CommitRangeQuery {
    pub base_rev: Option<String>,
    pub head_rev: Option<String>,
}

impl CommitRangeQuery {
    /// Resolve the ends of the range and position a traversal over it:
    /// rooted at the head, excluding everything reachable from the base
    /// when one is given. The traversal is finite, forward-only and not
    /// restartable; a resolution failure aborts the whole walk.
    pub fn revwalk<'r>(&self, gitrepo: &'r git2::Repository) -> (r: Result<WalkHandle<'r>, ApiError>)
    {
        let head_oid = match &self.head_rev {
            Some(h) => resolve_oid(gitrepo, h.as_str()),
            None => resolve_oid(gitrepo, "HEAD"),
        };
        let head_oid = match head_oid {
            Ok(o) => o,
            Err(e) => return Err(e),
        };
        let mut walk = match repo::revwalk_new(gitrepo) {
            Ok(w) => w,
            Err(e) => return Err(
                internal_error(
                    describe_failure("cannot start traversal", "", e.message.as_str()),
                ),
            ),
        };
        let positioned = match &self.base_rev {
            Some(b) => {
                let base_oid = match resolve_oid(gitrepo, b.as_str()) {
                    Ok(o) => o,
                    Err(e) => return Err(e),
                };
                repo::revwalk_push_range(&mut walk, base_oid.as_str(), head_oid.as_str())
            },
            None => repo::revwalk_push(&mut walk, head_oid.as_str()),
        };
        match positioned {
            Ok(()) => Ok(walk),
            Err(e) => Err(
                internal_error(
                    describe_failure("cannot position traversal", "", e.message.as_str()),
                ),
            ),
        }
    }
}

impl WalkHandle<'_> {
    /// Drain the traversal into the canonical ids it yields, in the
    /// engine's newest-to-oldest order. The traversal is spent afterwards.
    pub fn collect_oids(&mut self) -> (r: Result<Vec<String>, ApiError>)
        ensures
            r matches Ok(v) ==> forall|i: int| 0 <= i < v@.len() ==> is_hex_oid(#[trigger] v@[i]@),
            r matches Err(e) ==> e is InternalServerError,
    {
        let mut out: Vec<String> = Vec::new();
        loop
            invariant
                forall|i: int| 0 <= i < out@.len() ==> is_hex_oid(#[trigger] out@[i]@),
            decreases usize::MAX - out@.len(),
        {
            if out.len() == usize::MAX {
                return Err(internal_error(String::from_str("traversal did not finish")));
            }
            match repo::revwalk_next(self) {
                None => return Ok(out),
                Some(Err(e)) => return Err(
                    internal_error(describe_failure("traversal failed", "", e.message.as_str())),
                ),
                Some(Ok(oid)) => out.push(oid),
            }
        }
    }
}

/// Look up the snapshot of every walked commit, keeping the walk's order:
/// the i-th snapshot carries the i-th walked id.
fn fetch_commits(gitrepo: &git2::Repository, oids: &Vec<String>) -> (r: Result<
    Vec<Commit>,
    GitError,
>)
    requires
        forall|i: int| 0 <= i < oids@.len() ==> is_hex_oid(#[trigger] oids@[i]@),
    ensures
        r matches Ok(v) ==> v@.len() == oids@.len() && forall|i: int|
            0 <= i < v@.len() ==> (#[trigger] v@[i]).wf() && v@[i].id@ == oids@[i]@,
{
    let mut out: Vec<Commit> = Vec::new();
    let n = oids.len();
    let mut i: usize = 0;
    while i < n
        invariant
            n == oids@.len(),
            i <= n,
            out@.len() == i,
            forall|k: int| 0 <= k < oids@.len() ==> is_hex_oid(#[trigger] oids@[k]@),
            forall|k: int|
                0 <= k < i ==> (#[trigger] out@[k]).wf() && out@[k].id@ == oids@[k]@,
        decreases n - i,
    {
        match repo::lookup_commit(gitrepo, oids[i].as_str()) {
            Ok(c) => out.push(c),
            Err(e) => return Err(e),
        }
        i = i + 1;
    }
    Ok(out)
}

/// Whether a commit is retained by the filter: its id or its summary
/// contains the filter as a substring. Matching is case-sensitive, the
/// engine's default.
pub fn matches_filter(c: &Commit, f: &str) -> (r: bool)
    ensures
        r == commit_matches(*c, f@),
{
    str_contains(c.id.as_str(), f) || str_contains(c.summary.as_str(), f)
}

/// Keep exactly the commits the filter retains, in their given order; with
/// no filter, keep everything unchanged. Every kept commit comes from the
/// input and matches the filter.
pub fn apply_filter(commits: Vec<Commit>, filter: &Option<String>) -> (r: Vec<Commit>)
    ensures
        r@ == filtered_commits(commits@, filter_view(*filter)),
        forall|i: int| 0 <= i < r@.len() ==> commits@.contains(#[trigger] r@[i]),
        filter matches Some(f) ==> forall|i: int|
            0 <= i < r@.len() ==> commit_matches(#[trigger] r@[i], f@),
{
    let f = match filter {
        None => {
            proof {
                assert(forall|i: int|
                    0 <= i < commits@.len() ==> commits@.contains(#[trigger] commits@[i]));
            }
            return commits;
        },
        Some(f) => f,
    };
    let ghost orig = commits@;
    let mut rest = commits;
    let mut out: Vec<Commit> = Vec::new();
    proof {
        assert(orig.take(0) =~= Seq::<Commit>::empty());
        assert(filter_matching(orig.take(0), f@) =~= Seq::<Commit>::empty());
    }
    while rest.len() > 0
        invariant
            rest@.len() <= orig.len(),
            rest@ =~= orig.skip(orig.len() - rest@.len()),
            out@ == filter_matching(orig.take(orig.len() - rest@.len()), f@),
            forall|i: int| 0 <= i < out@.len() ==> orig.contains(#[trigger] out@[i]),
            forall|i: int| 0 <= i < out@.len() ==> commit_matches(#[trigger] out@[i], f@),
        decreases rest@.len(),
    {
        let ghost k = orig.len() - rest@.len();
        let c = rest.remove(0);
        proof {
            assert(c == orig[k]);
            assert(rest@ =~= orig.skip(k + 1));
            assert(orig.take(k + 1) =~= orig.take(k).push(orig[k]));
            lemma_filter_matching_push(orig.take(k), c, f@);
        }
        if matches_filter(&c, f.as_str()) {
            out.push(c);
            proof {
                assert(orig.contains(orig[k]));
            }
        }
    }
    proof {
        assert(orig.take(orig.len() as int) =~= orig);
    }
    out
}

/// List the commits of a range, newest first in the engine's traversal
/// order, retaining only those the filter matches when one is given. A
/// failure to resolve either end aborts the walk; every returned snapshot
/// is well formed.
pub fn list_commits(
    gitrepo: &git2::Repository,
    base_rev: Option<String>,
    head_rev: Option<String>,
    filter: Option<String>,
) -> (r: Result<Vec<Commit>, ApiError>)
    ensures
        r matches Ok(v) ==> forall|i: int| 0 <= i < v@.len() ==> (#[trigger] v@[i]).wf(),
        r matches Ok(v) ==> (filter matches Some(f) ==> forall|i: int|
            0 <= i < v@.len() ==> commit_matches(#[trigger] v@[i], f@)),
{
    let query = CommitRangeQuery { base_rev, head_rev };
    let mut walk = match query.revwalk(gitrepo) {
        Ok(w) => w,
        Err(e) => return Err(e),
    };
    let oids = match walk.collect_oids() {
        Ok(v) => v,
        Err(e) => return Err(e),
    };
    let commits = match fetch_commits(gitrepo, &oids) {
        Ok(v) => v,
        Err(e) => return Err(
            internal_error(describe_failure("cannot read walked commit", "", e.message.as_str())),
        ),
    };
    let ghost walked = commits@;
    let r = apply_filter(commits, &filter);
    proof {
        assert forall|i: int| 0 <= i < r@.len() implies (#[trigger] r@[i]).wf() by {
            assert(walked.contains(r@[i]));
            let j = choose|j: int| 0 <= j < walked.len() && walked[j] == r@[i];
            assert(walked[j].wf());
        }
    }
    Ok(r)
}

/// Unfiltered, the listing is exactly the walked sequence: same commits,
/// same newest-to-oldest traversal order, same length — so its length is
/// the number of commits the engine reports reachable from the head and
/// not from the base.
pub proof fn lemma_listing_preserves_walk(walked: Seq<Commit>)
    ensures
        filtered_commits(walked, Option::None) == walked,
{
}

/// For every revision that resolves to a commit: the snapshot returned for
/// the revision alone, and the head of an unfiltered range walk rooted at
/// the same resolved id, carry the same commit id.
pub proof fn lemma_revision_matches_range_head(
    g: Commit,
    walked: Seq<Commit>,
    oids: Seq<Seq<char>>,
)
    requires
        oids.len() > 0,
        walked.len() == oids.len(),
        forall|i: int| 0 <= i < walked.len() ==> (#[trigger] walked[i]).id@ == oids[i],
        g.id@ == oids[0],
    ensures
        filtered_commits(walked, Option::None)[0].id@ == g.id@,
{
}

} // verus!
