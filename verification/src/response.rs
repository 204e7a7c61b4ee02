//! The combined range response: the commits of a range together with its
//! file-level changes, built from per-element results where any failure
//! fails the whole response.

use vstd::prelude::*;
use crate::error::ApiError;
use crate::model::Commit;
use crate::model::Diff;

verus! {

/// Every element succeeded.
pub open spec fn all_ok<T>(items: Seq<Result<T, ApiError>>) -> bool {
    forall|i: int| 0 <= i < items.len() ==> (#[trigger] items[i]) is Ok
}

/// Turn per-element results into one result: the unwrapped elements in
/// their given order, or the first failure.
fn collect_results<T>(items: Vec<Result<T, ApiError>>) -> (r: Result<Vec<T>, ApiError>)
    ensures
        r matches Ok(v) ==> all_ok(items@) && v@.len() == items@.len() && forall|i: int|
            0 <= i < items@.len() ==> ((#[trigger] items@[i]) matches Ok(x) && v@[i] == x),
        r is Err ==> !all_ok(items@),
{
    let ghost orig = items@;
    let mut rest = items;
    let mut out: Vec<T> = Vec::new();
    while rest.len() > 0
        invariant
            items@ == orig,
            rest@.len() <= orig.len(),
            rest@ =~= orig.skip(orig.len() - rest@.len()),
            out@.len() == orig.len() - rest@.len(),
            forall|i: int|
                0 <= i < out@.len() ==> ((#[trigger] orig[i]) matches Ok(x) && out@[i] == x),
        decreases rest@.len(),
    {
        let ghost k = orig.len() - rest@.len();
        let item = rest.remove(0);
        proof {
            assert(item == orig[k]);
            assert(rest@ =~= orig.skip(k + 1));
        }
        match item {
            Ok(x) => out.push(x),
            Err(e) => {
                proof {
                    assert(!(orig[k] is Ok));
                    assert(!all_ok(orig)) by {
                        assert(0 <= k < orig.len() && !(orig[k] is Ok));
                    }
                }
                return Err(e);
            },
        }
    }
    Ok(out)
}

/// The commits of a range together with its diffs, both newest-first in
/// their engines' orders.
pub struct ListCommitsResponse {
    pub commits: Vec<Commit>,
    pub diffs: Vec<Diff>,
}

impl ListCommitsResponse {
    /// Combine per-commit and per-diff results into one response: all the
    /// elements in their given order, or the first failure among them.
    pub fn from_commits_and_diffs(
        commits: Vec<Result<Commit, ApiError>>,
        diffs: Vec<Result<Diff, ApiError>>,
    ) -> (r: Result<ListCommitsResponse, ApiError>)
        ensures
            r matches Ok(resp) ==> all_ok(commits@) && all_ok(diffs@) && resp.commits@.len()
                == commits@.len() && resp.diffs@.len() == diffs@.len() && (forall|i: int|
                0 <= i < commits@.len() ==> ((#[trigger] commits@[i]) matches Ok(c)
                    && resp.commits@[i] == c)) && (forall|i: int|
                0 <= i < diffs@.len() ==> ((#[trigger] diffs@[i]) matches Ok(d) && resp.diffs@[i]
                    == d)),
            r is Err ==> !all_ok(commits@) || !all_ok(diffs@),
    {
        let commits = match collect_results(commits) {
            Ok(v) => v,
            Err(e) => return Err(e),
        };
        let diffs = match collect_results(diffs) {
            Ok(v) => v,
            Err(e) => return Err(e),
        };
        Ok(ListCommitsResponse { commits, diffs })
    }
}

} // verus!
