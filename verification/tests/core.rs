use gitox::ApiError;
use gitox::GitMessage;
use gitox::GitResponse;
use gitox::Mailbox;
use gitox::DiffKind;

fn unique_dir(name: &str) -> String {
    let t = std::time::SystemTime::now()
        .duration_since(std::time::UNIX_EPOCH)
        .unwrap()
        .as_nanos();
    format!("/tmp/gitox_test_{}_{}", name, t)
}

fn test_signature(secs: i64) -> git2::Signature<'static> {
    git2::Signature::new("Tester", "tester@example.com", &git2::Time::new(secs, 0)).unwrap()
}

/// Write a commit whose tree holds exactly the given files, advancing HEAD.
fn commit_files(
    repo: &git2::Repository,
    parents: &[&git2::Commit],
    files: &[(&str, &[u8])],
    message: &str,
    secs: i64,
) -> git2::Oid {
    let mut builder = repo.treebuilder(None).unwrap();
    for (name, content) in files {
        let blob = repo.blob(content).unwrap();
        builder.insert(*name, blob, 0o100644).unwrap();
    }
    let tree_oid = builder.write().unwrap();
    let tree = repo.find_tree(tree_oid).unwrap();
    let sig = test_signature(secs);
    repo.commit(Some("HEAD"), &sig, &sig, message, &tree, parents)
        .unwrap()
}

/// A repository with commits first -> second -> third (HEAD).
fn three_commit_repo(name: &str) -> (git2::Repository, String, String, String) {
    let dir = unique_dir(name);
    let repo = git2::Repository::init(&dir).unwrap();
    let c1 = commit_files(&repo, &[], &[("a.txt", b"one\n")], "first commit", 1000);
    let p1 = repo.find_commit(c1).unwrap();
    let c2 = commit_files(
        &repo,
        &[&p1],
        &[("a.txt", b"one\ntwo\n")],
        "second commit",
        2000,
    );
    let p2 = repo.find_commit(c2).unwrap();
    let c3 = commit_files(
        &repo,
        &[&p2],
        &[("a.txt", b"one\ntwo\nthree\n")],
        "third commit",
        3000,
    );
    drop(p1);
    drop(p2);
    (repo, c1.to_string(), c2.to_string(), c3.to_string())
}

fn ids_of(commits: &[gitox::Commit]) -> Vec<String> {
    commits.iter().map(|c| c.id().to_string()).collect()
}

#[test]
fn get_revision_resolves_head() {
    let (repo, _c1, _c2, c3) = three_commit_repo("get_head");
    let c = gitox::get_revision(&repo, "HEAD").unwrap();
    assert_eq!(c.id(), c3);
    assert_eq!(c.summary(), "third commit");
    assert_eq!(c.time, 3000);
    assert_eq!(c.author.name, "Tester");
    assert_eq!(c.author.email, "tester@example.com");
}

#[test]
fn get_revision_reads_summary_and_body() {
    let dir = unique_dir("body");
    let repo = git2::Repository::init(&dir).unwrap();
    let c1 = commit_files(
        &repo,
        &[],
        &[("a.txt", b"one\n")],
        "subject line\n\nlonger body text\nwith two lines",
        1000,
    );
    let c = gitox::get_revision(&repo, &c1.to_string()).unwrap();
    assert_eq!(c.summary(), "subject line");
    assert_eq!(c.body, "longer body text\nwith two lines");
}

#[test]
fn get_revision_by_full_and_short_id() {
    let (repo, c1, _c2, _c3) = three_commit_repo("get_ids");
    let full = gitox::get_revision(&repo, &c1).unwrap();
    assert_eq!(full.id(), c1);
    let short = gitox::get_revision(&repo, &c1[..7]).unwrap();
    assert_eq!(short.id(), c1);
    assert_eq!(short.id().len(), 40);
}

#[test]
fn get_revision_missing_is_not_found() {
    let (repo, _c1, _c2, _c3) = three_commit_repo("get_missing");
    let e = gitox::get_revision(&repo, "no-such-ref").unwrap_err();
    assert!(e.is_not_found());
}

#[test]
fn try_for_oid_rejects_malformed_id() {
    let (repo, _c1, _c2, _c3) = three_commit_repo("bad_oid");
    let e = gitox::Commit::try_for_oid(&repo, "not-a-hex-id").unwrap_err();
    assert!(e.is_bad_request());
}

#[test]
fn try_for_oid_finds_commit() {
    let (repo, c1, _c2, _c3) = three_commit_repo("good_oid");
    let c = gitox::Commit::try_for_oid(&repo, &c1).unwrap();
    assert_eq!(c.id(), c1);
}

#[test]
fn list_commits_full_range_newest_first() {
    let (repo, c1, c2, c3) = three_commit_repo("list_full");
    let commits = gitox::list_commits(&repo, None, None, None).unwrap();
    assert_eq!(ids_of(&commits), vec![c3, c2, c1]);
}

#[test]
fn list_commits_with_base_excludes_reachable() {
    let (repo, c1, c2, c3) = three_commit_repo("list_base");
    let commits = gitox::list_commits(&repo, Some(c1.clone()), None, None).unwrap();
    assert_eq!(ids_of(&commits), vec![c3.clone(), c2.clone()]);
    let from_second = gitox::list_commits(&repo, Some(c2), None, None).unwrap();
    assert_eq!(ids_of(&from_second), vec![c3.clone()]);
    let empty = gitox::list_commits(&repo, Some(c3.clone()), Some(c3), None).unwrap();
    assert_eq!(empty.len(), 0);
}

#[test]
fn revwalk_collects_range_oids() {
    let (repo, c1, c2, c3) = three_commit_repo("revwalk_direct");
    let query = gitox::CommitRangeQuery {
        base_rev: Some(c1),
        head_rev: Some(c3.clone()),
    };
    let mut walk = query.revwalk(&repo).unwrap();
    let oids = walk.collect_oids().unwrap();
    assert_eq!(oids, vec![c3, c2]);
}

#[test]
fn list_commits_head_matches_get_revision() {
    let (repo, _c1, c2, _c3) = three_commit_repo("head_match");
    let single = gitox::get_revision(&repo, &c2).unwrap();
    let ranged = gitox::list_commits(&repo, None, Some(c2.clone()), None).unwrap();
    assert!(!ranged.is_empty());
    assert_eq!(ranged[0].id(), single.id());
}

#[test]
fn list_commits_filter_by_summary_and_id() {
    let (repo, c1, _c2, _c3) = three_commit_repo("list_filter");
    let by_summary =
        gitox::list_commits(&repo, None, None, Some("second".to_string())).unwrap();
    assert_eq!(by_summary.len(), 1);
    assert_eq!(by_summary[0].summary(), "second commit");
    let by_id = gitox::list_commits(&repo, None, None, Some(c1[..10].to_string())).unwrap();
    assert_eq!(by_id.len(), 1);
    assert_eq!(by_id[0].id(), c1);
    let none = gitox::list_commits(&repo, None, None, Some("zzz-no-match".to_string())).unwrap();
    assert_eq!(none.len(), 0);
    let case_sensitive =
        gitox::list_commits(&repo, None, None, Some("Second".to_string())).unwrap();
    assert_eq!(case_sensitive.len(), 0);
}

#[test]
fn list_commits_bad_base_aborts_walk() {
    let (repo, _c1, _c2, _c3) = three_commit_repo("list_bad_base");
    let e = gitox::list_commits(&repo, Some("missing-base".to_string()), None, None).unwrap_err();
    assert!(e.is_not_found());
}

#[test]
fn str_contains_cases() {
    assert!(gitox::str_contains("hello world", "o w"));
    assert!(gitox::str_contains("hello", ""));
    assert!(gitox::str_contains("hello", "hello"));
    assert!(gitox::str_contains("hello", "lo"));
    assert!(!gitox::str_contains("hello", "world"));
    assert!(!gitox::str_contains("he", "hello"));
    assert!(gitox::str_contains("größer", "öß"));
    assert!(!gitox::str_contains("Hello", "hello"));
}

#[test]
fn check_oid_cases() {
    assert!(gitox::check_oid(
        "0123456789abcdef0123456789abcdef01234567"
    ));
    assert!(!gitox::check_oid("0123456789abcdef"));
    assert!(!gitox::check_oid(
        "0123456789ABCDEF0123456789ABCDEF01234567"
    ));
    assert!(!gitox::check_oid(
        "0123456789abcdef0123456789abcdef0123456g"
    ));
    assert!(!gitox::check_oid(""));
}

#[test]
fn create_tag_round_trip() {
    let (repo, _c1, c2, _c3) = three_commit_repo("tag_round");
    let tag = gitox::create_tag(&repo, "v1", &c2, false).unwrap();
    assert_eq!(tag.name, "v1");
    assert_eq!(tag.target.id(), c2);
    let resolved = gitox::get_revision(&repo, "v1").unwrap();
    assert_eq!(resolved.id(), c2);
}

#[test]
fn create_tag_collision_and_force() {
    let (repo, _c1, c2, c3) = three_commit_repo("tag_force");
    gitox::create_tag(&repo, "pin", &c2, true).unwrap();
    let e = gitox::create_tag(&repo, "pin", &c3, false).unwrap_err();
    assert!(e.is_bad_request());
    let still = gitox::get_revision(&repo, "pin").unwrap();
    assert_eq!(still.id(), c2);
    let forced = gitox::create_tag(&repo, "pin", &c3, true).unwrap();
    assert_eq!(forced.target.id(), c3);
    let moved = gitox::get_revision(&repo, "pin").unwrap();
    assert_eq!(moved.id(), c3);
}

#[test]
fn create_tag_missing_revision_is_not_found() {
    let (repo, _c1, _c2, _c3) = three_commit_repo("tag_missing");
    let e = gitox::create_tag(&repo, "v1", "absent-revision", false).unwrap_err();
    assert!(e.is_not_found());
}

#[test]
fn list_tags_with_filter() {
    let (repo, c1, c2, _c3) = three_commit_repo("tag_list");
    gitox::create_tag(&repo, "alpha", &c1, false).unwrap();
    gitox::create_tag(&repo, "beta", &c2, false).unwrap();
    let all = gitox::list_tags(&repo, None).unwrap();
    assert_eq!(all.len(), 2);
    let filtered = gitox::list_tags(&repo, Some("al".to_string())).unwrap();
    assert_eq!(filtered.len(), 1);
    assert_eq!(filtered[0].name, "alpha");
    assert_eq!(filtered[0].target.id(), c1);
}

#[test]
fn create_branch_and_list() {
    let (repo, _c1, c2, _c3) = three_commit_repo("branch_make");
    let b = gitox::create_branch(&repo, "feature", &c2, false).unwrap();
    assert_eq!(b.name, "feature");
    assert_eq!(b.target.id(), c2);
    let e = gitox::create_branch(&repo, "feature", &c2, false).unwrap_err();
    assert!(e.is_bad_request());
    let filtered = gitox::list_branches(&repo, Some("feat".to_string())).unwrap();
    assert_eq!(filtered.len(), 1);
    assert_eq!(filtered[0].name, "feature");
    assert_eq!(filtered[0].target.id(), c2);
}

#[test]
fn checkout_branch_attaches_head() {
    let (repo, _c1, c2, _c3) = three_commit_repo("checkout_branch");
    gitox::create_branch(&repo, "feature", &c2, false).unwrap();
    let c = gitox::checkout_revision(&repo, "feature").unwrap();
    assert_eq!(c.id(), c2);
    let status = gitox::get_repository_status(&repo).unwrap();
    assert_eq!(status.current_branch.as_deref(), Some("feature"));
    assert_eq!(status.head.id(), c2);
}

#[test]
fn checkout_commit_detaches_head() {
    let (repo, c1, _c2, _c3) = three_commit_repo("checkout_detach");
    let c = gitox::checkout_revision(&repo, &c1).unwrap();
    assert_eq!(c.id(), c1);
    let status = gitox::get_repository_status(&repo).unwrap();
    assert!(status.current_branch.is_none());
    assert_eq!(status.head.id(), c1);
}

#[test]
fn status_on_fresh_repo_reports_head() {
    let (repo, _c1, _c2, c3) = three_commit_repo("status_head");
    let status = gitox::get_repository_status(&repo).unwrap();
    assert_eq!(status.head.id(), c3);
    assert!(status.current_branch.is_some());
}

#[test]
fn checkout_on_bare_repo_is_internal_error() {
    let dir = unique_dir("bare");
    let repo = git2::Repository::init_bare(&dir).unwrap();
    let oid = commit_files(&repo, &[], &[("a.txt", b"x\n")], "only commit", 1000);
    let e = gitox::checkout_revision(&repo, &oid.to_string()).unwrap_err();
    assert!(e.is_internal_server_error());
}

#[test]
fn actor_handles_messages_in_order() {
    let (repo, c1, _c2, c3) = three_commit_repo("actor_order");
    let mut mailbox = Mailbox::new();
    mailbox.submit(GitMessage::GetRevision {
        revision: "HEAD".to_string(),
    });
    mailbox.submit(GitMessage::ListCommits {
        base_rev: None,
        head_rev: None,
        filter: None,
    });
    mailbox.submit(GitMessage::GetRepositoryStatus);
    let replies = gitox::run_pending(&repo, &mut mailbox);
    assert_eq!(replies.len(), 3);
    assert_eq!(mailbox.len(), 0);
    match &replies[0] {
        Ok(GitResponse::Commit(c)) => assert_eq!(c.id(), c3),
        _ => panic!("first reply should be the HEAD commit"),
    }
    match &replies[1] {
        Ok(GitResponse::Commits(v)) => {
            assert_eq!(v.len(), 3);
            assert_eq!(v[2].id(), c1);
        }
        _ => panic!("second reply should be the commit list"),
    }
    match &replies[2] {
        Ok(GitResponse::Status(s)) => assert_eq!(s.head.id(), c3),
        _ => panic!("third reply should be the status"),
    }
}

#[test]
fn actor_fifo_later_messages_see_earlier_effects() {
    let (repo, c1, _c2, _c3) = three_commit_repo("actor_fifo");
    let mut mailbox = Mailbox::new();
    mailbox.submit(GitMessage::CreateTag {
        name: "stamp".to_string(),
        revision: c1.clone(),
        force: false,
    });
    mailbox.submit(GitMessage::GetRevision {
        revision: "stamp".to_string(),
    });
    let replies = gitox::run_pending(&repo, &mut mailbox);
    assert_eq!(replies.len(), 2);
    assert!(matches!(replies[0], Ok(GitResponse::Tag(_))));
    match &replies[1] {
        Ok(GitResponse::Commit(c)) => assert_eq!(c.id(), c1),
        _ => panic!("the later message should see the tag the earlier one created"),
    }
}

#[test]
fn try_for_revision_matches_get_revision() {
    let (repo, _c1, c2, _c3) = three_commit_repo("try_rev");
    let a = gitox::Commit::try_for_revision(&repo, &c2).unwrap();
    let b = gitox::get_revision(&repo, &c2).unwrap();
    assert_eq!(a.id(), b.id());
    assert_eq!(a.summary(), b.summary());
}

#[test]
fn repeated_reads_of_static_repository_agree() {
    let (repo, _c1, _c2, _c3) = three_commit_repo("actor_repeat");
    let first = gitox::list_commits(&repo, None, None, None).unwrap();
    for _ in 0..5 {
        let again = gitox::list_commits(&repo, None, None, None).unwrap();
        assert_eq!(ids_of(&again), ids_of(&first));
    }
    let s1 = gitox::get_repository_status(&repo).unwrap();
    let s2 = gitox::get_repository_status(&repo).unwrap();
    assert_eq!(s1.head.id(), s2.head.id());
}

#[test]
fn handle_message_create_tag_carries_name() {
    let (repo, c1, _c2, _c3) = three_commit_repo("actor_tag");
    let reply = gitox::handle_message(
        &repo,
        GitMessage::CreateTag {
            name: "marker".to_string(),
            revision: c1.clone(),
            force: false,
        },
    );
    match reply {
        Ok(GitResponse::Tag(t)) => {
            assert_eq!(t.name, "marker");
            assert_eq!(t.target.id(), c1);
        }
        _ => panic!("expected a tag reply"),
    }
}

#[test]
fn error_detail_is_preserved() {
    let (repo, _c1, _c2, _c3) = three_commit_repo("err_detail");
    match gitox::get_revision(&repo, "absent-thing") {
        Err(e) => {
            assert!(e.is_not_found());
            assert!(e.detail_str().contains("absent-thing"));
        }
        Ok(_) => panic!("resolution should fail"),
    }
}

#[test]
fn diff_kind_is_comparable() {
    assert_eq!(DiffKind::Binary, DiffKind::Binary);
    assert_ne!(DiffKind::Binary, DiffKind::Text);
}

#[test]
fn from_commits_and_diffs_collects_or_fails() {
    let (repo, _c1, _c2, c3) = three_commit_repo("collector");
    let c = gitox::get_revision(&repo, &c3).unwrap();
    let ok = gitox::ListCommitsResponse::from_commits_and_diffs(vec![Ok(c)], vec![]).unwrap();
    assert_eq!(ok.commits.len(), 1);
    assert_eq!(ok.diffs.len(), 0);
    let failed = gitox::ListCommitsResponse::from_commits_and_diffs(
        vec![Err(ApiError::NotFound("gone".to_string()))],
        vec![],
    );
    assert!(failed.is_err());
}
