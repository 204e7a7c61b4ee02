//! The serializing core: typed messages, one per supported operation, are
//! queued in submission order and executed one at a time against the
//! repository handle, which has exactly one owner. The mailbox is
//! unbounded: submission never rejects a message, so callers distinguish
//! only domain errors, never backpressure. Once a message is taken up its
//! operation runs to completion; a caller that went away merely loses the
//! reply.

use vstd::prelude::*;
use crate::diffs::binary_rule;
use crate::diffs::list_diffs;
use crate::error::ApiError;
use crate::model::Branch;
use crate::model::Commit;
use crate::model::Diff;
use crate::model::RepositoryStatus;
use crate::model::TaggedCommit;
use crate::model::commit_matches;
use crate::refs::create_branch;
use crate::refs::create_tag;
use crate::refs::get_repository_status;
use crate::refs::list_branches;
use crate::refs::list_tags;
use crate::revision::checkout_revision;
use crate::revision::get_revision;
use crate::text::contains_seq;
use crate::walker::list_commits;

verus! {

/// One request to the core, one variant per supported operation.
pub enum GitMessage {
    /// Resolve a revision and return its commit.
    GetRevision { revision: String },
    /// Resolve a revision, move the working state to it, return its commit.
    CheckoutRevision { revision: String },
    /// List the commits of a range, newest first, optionally filtered.
    ListCommits { base_rev: Option<String>, head_rev: Option<String>, filter: Option<String> },
    /// List the file-level changes of a range.
    ListDiffs { base_rev: Option<String>, head_rev: Option<String> },
    /// List tags, optionally filtered by name.
    ListTags { filter: Option<String> },
    /// Create a lightweight tag at a revision.
    CreateTag { name: String, revision: String, force: bool },
    /// List local branches, optionally filtered by name.
    ListBranches { filter: Option<String> },
    /// Create a branch at a revision.
    CreateBranch { name: String, revision: String, force: bool },
    /// Read the current HEAD commit and branch.
    GetRepositoryStatus,
}

/// One typed reply, mirroring the request variants.
pub enum GitResponse {
    Commit(Commit),
    Commits(Vec<Commit>),
    Diffs(Vec<Diff>),
    Tags(Vec<TaggedCommit>),
    Tag(TaggedCommit),
    Branches(Vec<Branch>),
    Branch(Branch),
    Status(RepositoryStatus),
}

/// Every payload of a successful reply is well formed: canonical ids
/// everywhere, and the binary rule on every diff.
pub open spec fn response_wf(resp: GitResponse) -> bool {
    match resp {
        GitResponse::Commit(c) => c.wf(),
        GitResponse::Commits(v) => forall|i: int| 0 <= i < v@.len() ==> (#[trigger] v@[i]).wf(),
        GitResponse::Diffs(v) => forall|i: int| 0 <= i < v@.len() ==> binary_rule(#[trigger] v@[i]),
        GitResponse::Tags(v) => forall|i: int|
            0 <= i < v@.len() ==> (#[trigger] v@[i]).target.wf(),
        GitResponse::Tag(t) => t.target.wf(),
        GitResponse::Branches(v) => forall|i: int|
            0 <= i < v@.len() ==> (#[trigger] v@[i]).target.wf(),
        GitResponse::Branch(b) => b.target.wf(),
        GitResponse::Status(s) => s.head.wf(),
    }
}

/// A successful reply answers its request: the variant mirrors the
/// message's, a created reference carries the requested name, and a
/// filtered listing contains only matches.
pub open spec fn response_matches(msg: GitMessage, resp: GitResponse) -> bool {
    match msg {
        GitMessage::GetRevision { .. } => resp is Commit,
        GitMessage::CheckoutRevision { .. } => resp is Commit,
        GitMessage::ListCommits { filter, .. } => resp matches GitResponse::Commits(v) && (filter
            matches Some(f) ==> forall|i: int|
            0 <= i < v@.len() ==> commit_matches(#[trigger] v@[i], f@)),
        GitMessage::ListDiffs { .. } => resp is Diffs,
        GitMessage::ListTags { filter } => resp matches GitResponse::Tags(v) && (filter matches Some(
            f,
        ) ==> forall|i: int| 0 <= i < v@.len() ==> contains_seq((#[trigger] v@[i]).name@, f@)),
        GitMessage::CreateTag { name, .. } => resp matches GitResponse::Tag(t) && t.name@ == name@,
        GitMessage::ListBranches { filter } => resp matches GitResponse::Branches(v) && (filter
            matches Some(f) ==> forall|i: int|
            0 <= i < v@.len() ==> contains_seq((#[trigger] v@[i]).name@, f@)),
        GitMessage::CreateBranch { name, .. } => resp matches GitResponse::Branch(b) && b.name@
            == name@,
        GitMessage::GetRepositoryStatus => resp is Status,
    }
}

/// Execute one message to completion against the repository handle and
/// produce its reply: the typed result of the operation, or the classified
/// failure. Never panics on any caller-supplied message.
pub fn handle_message(gitrepo: &git2::Repository, msg: GitMessage) -> (r: Result<
    GitResponse,
    ApiError,
>)
    ensures
        r matches Ok(resp) ==> response_matches(msg, resp) && response_wf(resp),
        r matches Err(e) ==> ((msg is ListTags || msg is ListBranches
            || msg is GetRepositoryStatus) ==> e is InternalServerError),
{
    match msg {
        GitMessage::GetRevision { revision } => {
            match get_revision(gitrepo, revision.as_str()) {
                Ok(c) => Ok(GitResponse::Commit(c)),
                Err(e) => Err(e),
            }
        },
        GitMessage::CheckoutRevision { revision } => {
            match checkout_revision(gitrepo, revision.as_str()) {
                Ok(c) => Ok(GitResponse::Commit(c)),
                Err(e) => Err(e),
            }
        },
        GitMessage::ListCommits { base_rev, head_rev, filter } => {
            match list_commits(gitrepo, base_rev, head_rev, filter) {
                Ok(v) => Ok(GitResponse::Commits(v)),
                Err(e) => Err(e),
            }
        },
        GitMessage::ListDiffs { base_rev, head_rev } => {
            match list_diffs(gitrepo, base_rev, head_rev) {
                Ok(v) => Ok(GitResponse::Diffs(v)),
                Err(e) => Err(e),
            }
        },
        GitMessage::ListTags { filter } => {
            match list_tags(gitrepo, filter) {
                Ok(v) => Ok(GitResponse::Tags(v)),
                Err(e) => Err(e),
            }
        },
        GitMessage::CreateTag { name, revision, force } => {
            match create_tag(gitrepo, name.as_str(), revision.as_str(), force) {
                Ok(t) => Ok(GitResponse::Tag(t)),
                Err(e) => Err(e),
            }
        },
        GitMessage::ListBranches { filter } => {
            match list_branches(gitrepo, filter) {
                Ok(v) => Ok(GitResponse::Branches(v)),
                Err(e) => Err(e),
            }
        },
        GitMessage::CreateBranch { name, revision, force } => {
            match create_branch(gitrepo, name.as_str(), revision.as_str(), force) {
                Ok(b) => Ok(GitResponse::Branch(b)),
                Err(e) => Err(e),
            }
        },
        GitMessage::GetRepositoryStatus => {
            match get_repository_status(gitrepo) {
                Ok(s) => Ok(GitResponse::Status(s)),
                Err(e) => Err(e),
            }
        },
    }
}

/// The actor's mailbox: messages wait here in submission order and leave
/// strictly first-in, first-out. It is unbounded, so submission never
/// fails.
pub struct Mailbox {
    queue: Vec<GitMessage>,
}

impl View for Mailbox {
    type V = Seq<GitMessage>;

    closed spec fn view(&self) -> Seq<GitMessage> {
        self.queue@
    }
}

impl Mailbox {
    /// An empty mailbox.
    pub fn new() -> (m: Mailbox)
        ensures
            m@ == Seq::<GitMessage>::empty(),
    {
        Mailbox { queue: Vec::new() }
    }

    /// How many messages wait.
    pub fn len(&self) -> (n: usize)
        ensures
            n == self@.len(),
    {
        self.queue.len()
    }

    /// Queue a message behind everything already waiting. Never rejects.
    pub fn submit(&mut self, msg: GitMessage)
        ensures
            final(self)@ == old(self)@.push(msg),
    {
        self.queue.push(msg);
    }

    /// Take the message that has waited longest; the rest keep their
    /// order.
    pub fn take_next(&mut self) -> (r: Option<GitMessage>)
        ensures
            old(self)@.len() == 0 ==> r is None && final(self)@ == old(self)@,
            old(self)@.len() > 0 ==> r == Some(old(self)@[0]) && final(self)@ == old(
                self,
            )@.drop_first(),
    {
        if self.queue.len() == 0 {
            None
        } else {
            let m = self.queue.remove(0);
            proof {
                assert(self.queue@ =~= old(self)@.drop_first());
            }
            Some(m)
        }
    }
}

/// Serve every queued message strictly in submission order, one at a time
/// against the repository handle: the i-th reply answers the i-th queued
/// message, no operation interleaves with another, and each message gets
/// exactly one reply. Against an unchanging repository this serialized
/// schedule is the sequential execution of the submitted operations.
pub fn run_pending(gitrepo: &git2::Repository, m: &mut Mailbox) -> (rs: Vec<
    Result<GitResponse, ApiError>,
>)
    ensures
        final(m)@.len() == 0,
        rs@.len() == old(m)@.len(),
        forall|i: int|
            0 <= i < rs@.len() ==> ((#[trigger] rs@[i]) matches Ok(resp) ==> response_matches(
                old(m)@[i],
                resp,
            ) && response_wf(resp)),
{
    let ghost msgs = old(m)@;
    let mut rs: Vec<Result<GitResponse, ApiError>> = Vec::new();
    while m.len() > 0
        invariant
            rs@.len() <= msgs.len(),
            m@ =~= msgs.skip(rs@.len() as int),
            forall|i: int|
                0 <= i < rs@.len() ==> ((#[trigger] rs@[i]) matches Ok(resp) ==> response_matches(
                    msgs[i],
                    resp,
                ) && response_wf(resp)),
        decreases m@.len(),
    {
        let ghost k = rs@.len();
        let next = m.take_next();
        match next {
            Some(msg) => {
                proof {
                    assert(msg == msgs.skip(k as int)[0]);
                    assert(msgs.skip(k as int)[0] == msgs[k as int]);
                    assert(m@ =~= msgs.skip(k as int).drop_first());
                    assert(msgs.skip(k as int).drop_first() =~= msgs.skip(k as int + 1));
                }
                rs.push(handle_message(gitrepo, msg));
            },
            None => {
                proof {
                    assert(false);
                }
                return rs;
            },
        }
    }
    proof {
        assert(m@ =~= msgs.skip(rs@.len() as int));
        assert(rs@.len() == msgs.len());
    }
    rs
}

} // verus!
