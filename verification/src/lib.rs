//! A serialized front end over a local version-control repository.
//!
//! The crate models the read and mutation operations of a repository —
//! revision resolution, range walking, diff construction, tag and branch
//! creation, and a status query — as typed messages handled one at a time
//! by a single owner of the repository handle. The repository engine itself
//! is consumed as a black box through a small trusted layer; everything the
//! crate decides (error classification, filtering, ordering, collision
//! handling, binary fallback) is verified.

mod actor;
mod diffs;
mod error;
mod model;
mod refs;
mod repo;
mod response;
mod revision;
mod text;
mod walker;

pub use actor::GitMessage;
pub use actor::GitResponse;
pub use actor::Mailbox;
pub use actor::handle_message;
pub use actor::response_matches;
pub use actor::response_wf;
pub use actor::run_pending;
pub use diffs::assemble_diff_file;
pub use diffs::binary_rule;
pub use diffs::list_diffs;
pub use refs::branch_field;
pub use refs::create_branch;
pub use refs::create_tag;
pub use refs::creation_blocked;
pub use refs::get_repository_status;
pub use refs::list_branches;
pub use refs::list_tags;

pub use model::check_oid;
pub use model::commit_matches;
pub use model::filter_matching;
pub use model::filter_view;
pub use model::filtered_commits;
pub use model::is_hex_oid;
pub use model::lemma_filter_matching_push;
pub use repo::WalkHandle;
pub use response::ListCommitsResponse;
pub use response::all_ok;
pub use revision::checkout_revision;
pub use revision::get_revision;
pub use walker::CommitRangeQuery;
pub use walker::apply_filter;
pub use walker::lemma_listing_preserves_walk;
pub use walker::lemma_revision_matches_range_head;
pub use walker::list_commits;
pub use walker::matches_filter;

pub use model::Branch;
pub use model::BranchEntry;
pub use model::HeadInfo;
pub use model::Commit;
pub use model::DeltaData;
pub use model::DeltaSide;
pub use model::Diff;
pub use model::DiffFile;
pub use model::DiffKind;
pub use model::RepositoryStatus;
pub use model::Signature;
pub use model::TaggedCommit;
pub use error::ApiError;
pub use error::GitError;
pub use error::GitErrorKind;
pub use text::contains_seq;
pub use text::str_contains;
