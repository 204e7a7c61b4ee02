use vstd::prelude::*;
use vstd::string::StrSliceExecFns;
use crate::text::contains_seq;

verus! {

/// A hexadecimal digit as the engine prints object ids: lower case.
pub open spec fn is_hex_digit(c: char) -> bool {
    (('0' as u32) <= (c as u32) && (c as u32) <= ('9' as u32)) || (('a' as u32) <= (c as u32) && (c
        as u32) <= ('f' as u32))
}

/// A canonical object id: exactly forty lower-case hexadecimal digits,
/// never truncated.
pub open spec fn is_hex_oid(s: Seq<char>) -> bool {
    &&& s.len() == 40
    &&& forall|i: int| 0 <= i < s.len() ==> is_hex_digit(#[trigger] s[i])
}

/// Whether a string is a canonical object id as this crate's invariants
/// demand it: forty lower-case hexadecimal digits.
pub fn check_oid(s: &str) -> (b: bool)
    ensures
        b == is_hex_oid(s@),
{
    let n = s.unicode_len();
    if n != 40 {
        return false;
    }
    let mut i: usize = 0;
    while i < n
        invariant
            n == s@.len(),
            i <= n,
            forall|k: int| 0 <= k < i ==> is_hex_digit(#[trigger] s@[k]),
        decreases n - i,
    {
        let u = s.get_char(i) as u32;
        if !((48 <= u && u <= 57) || (97 <= u && u <= 102)) {
            assert(!is_hex_digit(s@[i as int]));
            return false;
        }
        assert(is_hex_digit(s@[i as int]));
        i = i + 1;
    }
    true
}

/// Who wrote or committed a change. Either field defaults to the empty
/// string when the underlying object has no value set.
#[derive(Debug)]
pub struct Signature {
    pub name: String,
    pub email: String,
}

/// An immutable snapshot of one commit, taken from the repository at read
/// time and never mutated afterwards.
#[derive(Debug)]
pub struct Commit {
    /// Canonical hex object id.
    pub id: String,
    /// Summary line; empty when the underlying object has none.
    pub summary: String,
    /// Body text; empty when the underlying object has none.
    pub body: String,
    /// Authorship time, in seconds since the epoch.
    pub time: i64,
    /// The author of the change.
    pub author: Signature,
    /// The committer of the change.
    pub committer: Signature,
}

impl Commit {
    /// A well-formed snapshot carries a canonical, untruncated object id.
    pub open spec fn wf(&self) -> bool {
        is_hex_oid(self.id@)
    }

    /// The commit's canonical hex object id.
    pub fn id(&self) -> (r: &str)
        ensures
            r@ == self.id@,
    {
        self.id.as_str()
    }

    /// The commit's summary line.
    pub fn summary(&self) -> (r: &str)
        ensures
            r@ == self.summary@,
    {
        self.summary.as_str()
    }
}

/// Whether a delta carries binary content (no line-level patch) or text.
#[derive(Clone, Copy, PartialEq, Eq, Structural, Debug)]
pub enum DiffKind {
    Binary,
    Text,
}

/// One side of a file-level change: its path and, when available, its
/// textual content.
#[derive(Debug)]
pub struct DiffFile {
    /// Path of the file on this side.
    pub path: Option<String>,
    /// Content of this side; absent for binary files or when the content
    /// blob cannot be located.
    pub content: Option<String>,
}

/// One file-level change between two tree snapshots.
#[derive(Debug)]
pub struct Diff {
    /// Old side; absent when the file did not exist there.
    pub old: Option<DiffFile>,
    /// New side; absent when the file does not exist there.
    pub new: Option<DiffFile>,
    /// Derived from the delta's binary flag, not from content sniffing.
    pub kind: DiffKind,
    /// Line-level patch text; empty for binary deltas.
    pub patch: String,
}

/// A lightweight tag: its name and the commit it points at.
#[derive(Debug)]
pub struct TaggedCommit {
    pub name: String,
    pub target: Commit,
}

/// A local branch: its short name and the commit at its head.
#[derive(Debug)]
pub struct Branch {
    pub name: String,
    pub target: Commit,
}

/// The repository's current position: the HEAD commit and, unless HEAD is
/// detached, the current branch's short name.
#[derive(Debug)]
pub struct RepositoryStatus {
    pub head: Commit,
    pub current_branch: Option<String>,
}

/// One side of a delta, read off the underlying engine as plain values.
#[derive(Debug)]
pub struct DeltaSide {
    /// Canonical hex id of this side's content blob.
    pub oid_hex: String,
    /// The id is all zeros: this side does not exist.
    pub oid_is_zero: bool,
    /// Path of this side, when the engine reports one.
    pub path: Option<String>,
    /// The engine's flag that this side's content is not binary.
    pub not_binary: bool,
}

/// A file-level delta between two trees, read off the underlying engine as
/// plain values.
#[derive(Debug)]
pub struct DeltaData {
    /// The engine flagged the delta as binary.
    pub is_binary: bool,
    pub old: DeltaSide,
    pub new: DeltaSide,
}

/// Where HEAD points, read off the underlying engine as plain values.
#[derive(Debug)]
pub struct HeadInfo {
    /// Canonical hex id of the commit HEAD peels to.
    pub oid_hex: String,
    /// HEAD is a symbolic reference to a branch (not detached).
    pub is_branch: bool,
    /// The reference's short name, when it decodes as text.
    pub shorthand: Option<String>,
}

/// One local branch, read off the underlying engine as plain values.
#[derive(Debug)]
pub struct BranchEntry {
    /// The branch's short name, when it decodes as text.
    pub name: Option<String>,
    /// Canonical hex id the branch points at; absent for an unborn branch.
    pub target_oid: Option<String>,
}

/// A commit is retained by a text filter when its id or its summary
/// contains the filter as a substring.
pub open spec fn commit_matches(c: Commit, f: Seq<char>) -> bool {
    contains_seq(c.id@, f) || contains_seq(c.summary@, f)
}

/// Exactly the commits the filter retains, in their given order.
pub open spec fn filter_matching(s: Seq<Commit>, fs: Seq<char>) -> Seq<Commit>
    decreases s.len(),
{
    if s.len() == 0 {
        Seq::empty()
    } else {
        let rest = filter_matching(s.drop_last(), fs);
        if commit_matches(s.last(), fs) {
            rest.push(s.last())
        } else {
            rest
        }
    }
}

/// Appending one commit to the input appends it to the filtered output
/// exactly when it matches.
pub proof fn lemma_filter_matching_push(s: Seq<Commit>, c: Commit, fs: Seq<char>)
    ensures
        filter_matching(s.push(c), fs) == if commit_matches(c, fs) {
            filter_matching(s, fs).push(c)
        } else {
            filter_matching(s, fs)
        },
{
    assert(s.push(c).drop_last() =~= s);
    assert(s.push(c).last() == c);
}

/// The commits a walk yields after an optional text filter: all of them in
/// walk order, or exactly those that match, still in walk order.
pub open spec fn filtered_commits(s: Seq<Commit>, f: Option<Seq<char>>) -> Seq<Commit> {
    match f {
        Option::None => s,
        Option::Some(fs) => filter_matching(s, fs),
    }
}

/// The view of an optional filter string.
pub open spec fn filter_view(f: Option<String>) -> Option<Seq<char>> {
    match f {
        Option::None => Option::None,
        Option::Some(s) => Option::Some(s@),
    }
}

} // verus!
