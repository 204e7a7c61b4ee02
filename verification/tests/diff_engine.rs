use gitox::DiffKind;

fn unique_dir_d(name: &str) -> String {
    let t = std::time::SystemTime::now()
        .duration_since(std::time::UNIX_EPOCH)
        .unwrap()
        .as_nanos();
    format!("/tmp/gitox_diff_test_{}_{}", name, t)
}

fn signature_d(secs: i64) -> git2::Signature<'static> {
    git2::Signature::new("Tester", "tester@example.com", &git2::Time::new(secs, 0)).unwrap()
}

fn commit_files_d(
    repo: &git2::Repository,
    parents: &[&git2::Commit],
    files: &[(&str, &[u8])],
    message: &str,
    secs: i64,
) -> git2::Oid {
    let mut builder = repo.treebuilder(None).unwrap();
    for (name, content) in files {
        let blob = repo.blob(content).unwrap();
        builder.insert(*name, blob, 0o100644).unwrap();
    }
    let tree_oid = builder.write().unwrap();
    let tree = repo.find_tree(tree_oid).unwrap();
    let sig = signature_d(secs);
    repo.commit(Some("HEAD"), &sig, &sig, message, &tree, parents)
        .unwrap()
}

#[test]
fn text_delta_yields_text_kind_and_patch() {
    let dir = unique_dir_d("text");
    let repo = git2::Repository::init(&dir).unwrap();
    let c1 = commit_files_d(&repo, &[], &[("a.txt", b"one\n")], "base", 1000);
    let p1 = repo.find_commit(c1).unwrap();
    let c2 = commit_files_d(&repo, &[&p1], &[("a.txt", b"one\ntwo\n")], "change", 2000);
    let diffs =
        gitox::list_diffs(&repo, Some(c1.to_string()), Some(c2.to_string())).unwrap();
    assert_eq!(diffs.len(), 1);
    let d = &diffs[0];
    assert_eq!(d.kind, DiffKind::Text);
    assert!(!d.patch.is_empty());
    assert!(d.patch.contains("+two"));
    let old = d.old.as_ref().unwrap();
    let new = d.new.as_ref().unwrap();
    assert_eq!(old.path.as_deref(), Some("a.txt"));
    assert_eq!(new.path.as_deref(), Some("a.txt"));
    assert_eq!(old.content.as_deref(), Some("one\n"));
    assert_eq!(new.content.as_deref(), Some("one\ntwo\n"));
}

#[test]
fn binary_delta_yields_binary_kind_and_empty_patch() {
    let dir = unique_dir_d("binary");
    let repo = git2::Repository::init(&dir).unwrap();
    let c1 = commit_files_d(
        &repo,
        &[],
        &[("blob.bin", b"\x00\x01\x02\x03binary-one\x00")],
        "base",
        1000,
    );
    let p1 = repo.find_commit(c1).unwrap();
    let c2 = commit_files_d(
        &repo,
        &[&p1],
        &[("blob.bin", b"\x00\x04\x05\x06binary-two\x00")],
        "change",
        2000,
    );
    let diffs =
        gitox::list_diffs(&repo, Some(c1.to_string()), Some(c2.to_string())).unwrap();
    assert_eq!(diffs.len(), 1);
    let d = &diffs[0];
    assert_eq!(d.kind, DiffKind::Binary);
    assert!(d.patch.is_empty());
    let old = d.old.as_ref().unwrap();
    assert!(old.content.is_none());
}

#[test]
fn added_file_has_no_old_side() {
    let dir = unique_dir_d("added");
    let repo = git2::Repository::init(&dir).unwrap();
    let c1 = commit_files_d(&repo, &[], &[("a.txt", b"one\n")], "base", 1000);
    let p1 = repo.find_commit(c1).unwrap();
    let c2 = commit_files_d(
        &repo,
        &[&p1],
        &[("a.txt", b"one\n"), ("b.txt", b"fresh\n")],
        "add file",
        2000,
    );
    let diffs =
        gitox::list_diffs(&repo, Some(c1.to_string()), Some(c2.to_string())).unwrap();
    assert_eq!(diffs.len(), 1);
    let d = &diffs[0];
    assert!(d.old.is_none());
    let new = d.new.as_ref().unwrap();
    assert_eq!(new.path.as_deref(), Some("b.txt"));
    assert_eq!(new.content.as_deref(), Some("fresh\n"));
}

#[test]
fn diff_without_base_spans_whole_tree() {
    let dir = unique_dir_d("nobase");
    let repo = git2::Repository::init(&dir).unwrap();
    let c1 = commit_files_d(&repo, &[], &[("a.txt", b"one\n")], "base", 1000);
    let p1 = repo.find_commit(c1).unwrap();
    let _c2 = commit_files_d(
        &repo,
        &[&p1],
        &[("a.txt", b"one\n"), ("b.txt", b"fresh\n")],
        "add file",
        2000,
    );
    let diffs = gitox::list_diffs(&repo, None, None).unwrap();
    assert_eq!(diffs.len(), 2);
    for d in &diffs {
        assert!(d.old.is_none());
        assert!(d.new.is_some());
        assert_eq!(d.kind, DiffKind::Text);
        assert!(!d.patch.is_empty());
    }
}

#[test]
fn diff_missing_head_revision_fails() {
    let dir = unique_dir_d("badhead");
    let repo = git2::Repository::init(&dir).unwrap();
    let _c1 = commit_files_d(&repo, &[], &[("a.txt", b"one\n")], "base", 1000);
    let e = gitox::list_diffs(&repo, None, Some("missing".to_string())).unwrap_err();
    assert!(e.is_not_found());
}
