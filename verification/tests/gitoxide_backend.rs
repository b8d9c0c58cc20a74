use gitmeta::git::{
    backend_error, description_outcome, get_repo_head, tracked_flags, Answers, DescribeFacts,
};
use gitmeta::gitoxide::{
    branch_of, dirty_outcome, get_repo_info, info_outcome, is_dirty, Gitoxide, HeadCommit,
};
use gitmeta::resolve::resolve;
use gitmeta::{Backend, BackendError, Description, Head, RepoInfo};
use std::io::Write;
use std::path;

/// The backend on libgit2, as a caller of the library puts it together: it
/// asks libgit2 the questions of the describe query and lets the library
/// decide.
struct Primary;

fn primary_described(repo: &git2::Repository) -> Result<DescribeFacts, git2::Error> {
    let mut desc_opt = git2::DescribeOptions::new();
    desc_opt.describe_tags().show_commit_oid_as_fallback(true);
    let tag = repo.describe(&desc_opt).and_then(|desc| desc.format(None))?;
    let flags = tracked_flags(repo)?;
    Ok(DescribeFacts { tag, flags })
}

impl Backend for Primary {
    fn head(&self, path: &path::Path) -> Result<Option<Head>, BackendError> {
        get_repo_head(path)
    }

    fn describe(&self, path: &path::Path) -> Result<Option<Description>, BackendError> {
        let answers = match git2::Repository::discover(path) {
            Ok(repo) => match primary_described(&repo) {
                Ok(facts) => Answers::Found(facts),
                Err(e) => Answers::Failed(backend_error(&e)),
            },
            Err(e) => Answers::NotOpened(backend_error(&e)),
        };
        description_outcome(answers)
    }
}

/// Writes `contents` to the file `name` in `dir`, replacing what is there.
fn put_file(dir: &path::Path, name: &str, contents: &str) -> path::PathBuf {
    let mut file = tempfile::NamedTempFile::new_in(dir).unwrap();
    file.write_all(contents.as_bytes()).unwrap();
    file.flush().unwrap();
    let target = dir.join(name);
    file.persist(&target).unwrap();
    target
}

/// Makes the directory `name` in `dir`.
fn put_dir(dir: &path::Path, name: &str) -> path::PathBuf {
    tempfile::Builder::new()
        .prefix(name)
        .rand_bytes(0)
        .tempdir_in(dir)
        .unwrap()
        .keep()
}

fn init(root: &path::Path) -> git2::Repository {
    git2::Repository::init_opts(
        root,
        git2::RepositoryInitOptions::new()
            .external_template(false)
            .mkdir(false)
            .no_reinit(true)
            .mkpath(false),
    )
    .unwrap()
}

fn text(s: &str) -> Option<String> {
    Some(s.to_string())
}

#[test]
fn gix_parse_git_repo() {
    let repo_root = tempfile::tempdir().unwrap();
    assert_eq!(get_repo_info(repo_root.as_ref()), None);

    let repo = init(repo_root.path());

    let cruft_file = put_file(repo_root.path(), "cruftfile", "Who? Me?");
    assert_eq!(cruft_file, repo_root.path().join("cruftfile"));

    let project_root = put_dir(repo_root.path(), "project_root");
    assert_eq!(project_root, repo_root.path().join("project_root"));

    let sig = git2::Signature::now("foo", "bar").unwrap();
    let mut idx = repo.index().unwrap();
    idx.add_path(path::Path::new("cruftfile")).unwrap();
    idx.write().unwrap();
    let commit_oid = repo
        .commit(
            Some("HEAD"),
            &sig,
            &sig,
            "Testing testing 1 2 3",
            &repo.find_tree(idx.write_tree().unwrap()).unwrap(),
            &[],
        )
        .unwrap();

    let binding = repo
        .find_commit(commit_oid)
        .unwrap()
        .into_object()
        .short_id()
        .unwrap();

    let commit_oid_short = binding.as_str().unwrap();

    let commit_hash = format!("{}", commit_oid);
    let commit_hash_short = commit_oid_short.to_string();

    assert!(commit_hash.starts_with(&commit_hash_short));

    // The commit, the commit-id is something and the repo is not dirty
    let repo_info = get_repo_info(&project_root).unwrap();
    assert!(!repo_info.tag.unwrap().is_empty());
    assert_eq!(repo_info.dirty, Some(false));

    // Tag the commit, it should be retrieved
    repo.tag(
        "foobar",
        &repo
            .find_object(commit_oid, Some(git2::ObjectType::Commit))
            .unwrap(),
        &sig,
        "Tagged foobar",
        false,
    )
    .unwrap();

    let repo_info = get_repo_info(&project_root).unwrap();
    assert_eq!(repo_info.tag, Some(String::from("foobar")));
    assert_eq!(repo_info.dirty, Some(false));

    // Make some dirt
    put_file(repo_root.path(), "cruftfile", "now dirty");
    let repo_info = get_repo_info(&project_root).unwrap();
    assert_eq!(repo_info.tag, Some(String::from("foobar")));
    assert_eq!(repo_info.dirty, Some(true));

    let branch_short_name = "baz";
    let branch_name = "refs/heads/baz";
    let commit = repo.find_commit(commit_oid).unwrap();
    repo.branch(branch_short_name, &commit, true).unwrap();
    repo.set_head(branch_name).unwrap();

    let repo_info = get_repo_info(&project_root).unwrap();
    assert_eq!(repo_info.branch, Some(branch_name.to_owned()));
    assert_eq!(repo_info.commit_id, Some(commit_hash));
    assert_eq!(repo_info.commit_id_short, Some(commit_hash_short));
}

#[test]
fn from_head_with_a_commit() {
    let commit = HeadCommit {
        id: "0123456789abcdef0123456789abcdef01234567".to_string(),
        short: text("0123456"),
        tag: text("v1"),
        dirty: Some(false),
    };
    assert_eq!(
        RepoInfo::from_head(text("refs/heads/main"), Some(commit)),
        RepoInfo {
            branch: text("refs/heads/main"),
            tag: text("v1"),
            dirty: Some(false),
            commit_id: text("0123456789abcdef0123456789abcdef01234567"),
            commit_id_short: text("0123456"),
        }
    );
}

#[test]
fn from_head_with_what_could_not_be_learned() {
    let commit = HeadCommit { id: "0123".to_string(), short: None, tag: None, dirty: None };
    assert_eq!(
        RepoInfo::from_head(None, Some(commit)),
        RepoInfo { branch: None, tag: None, dirty: None, commit_id: text("0123"), commit_id_short: None }
    );
}

#[test]
fn from_head_without_a_commit() {
    assert_eq!(
        RepoInfo::from_head(text("refs/heads/main"), None),
        RepoInfo {
            branch: text("refs/heads/main"),
            tag: None,
            dirty: None,
            commit_id: None,
            commit_id_short: None,
        }
    );
    assert_eq!(RepoInfo::from_head(None, None), RepoInfo::default());
}

#[test]
fn head_answer_of_a_record() {
    let info = RepoInfo {
        branch: text("refs/heads/main"),
        tag: None,
        dirty: None,
        commit_id: text("0123456789"),
        commit_id_short: text("0123"),
    };
    assert_eq!(
        info.into_head(),
        Some((text("refs/heads/main"), "0123456789".to_string(), "0123".to_string()))
    );
    let info = RepoInfo {
        branch: None,
        tag: text("v1"),
        dirty: Some(true),
        commit_id: text("0123456789"),
        commit_id_short: text("0123"),
    };
    assert_eq!(info.into_head(), Some((None, "0123456789".to_string(), "0123".to_string())));
}

#[test]
fn head_answer_needs_the_full_hash() {
    let mut info = RepoInfo::default();
    info.branch = text("refs/heads/main");
    assert_eq!(info.into_head(), None);
    let mut info = RepoInfo::default();
    info.commit_id_short = text("0123");
    assert_eq!(info.into_head(), None);
    assert_eq!(RepoInfo::default().into_head(), None);
}

#[test]
fn head_answer_abbreviates_the_hash_where_the_record_does_not() {
    let mut info = RepoInfo::default();
    info.commit_id = text("0123456789abcdef");
    assert_eq!(
        info.into_head(),
        Some((None, "0123456789abcdef".to_string(), "01234567".to_string()))
    );
    let mut info = RepoInfo::default();
    info.commit_id = text("0123");
    info.branch = text("refs/heads/main");
    assert_eq!(
        info.into_head(),
        Some((text("refs/heads/main"), "0123".to_string(), "0123".to_string()))
    );
}

#[test]
fn describe_answer_of_a_record() {
    let mut info = RepoInfo::default();
    info.tag = text("v1");
    info.dirty = Some(true);
    assert_eq!(info.into_description(), Some(("v1".to_string(), true)));
}

#[test]
fn describe_answer_needs_tag_and_dirtiness() {
    let mut info = RepoInfo::default();
    info.tag = text("v1");
    assert_eq!(info.into_description(), None);
    let mut info = RepoInfo::default();
    info.dirty = Some(false);
    assert_eq!(info.into_description(), None);
    assert_eq!(RepoInfo::default().into_description(), None);
}

#[test]
fn gitoxide_without_a_repository() {
    let dir = tempfile::tempdir().unwrap();
    assert_eq!(get_repo_info(dir.path()), None);
    assert_eq!(is_dirty(dir.path()), None);
    assert_eq!(Gitoxide.head(dir.path()), Ok(None));
    assert_eq!(Gitoxide.describe(dir.path()), Ok(None));
    assert_eq!(resolve(&Gitoxide, dir.path(), RepoInfo::default()), RepoInfo::default());
}

#[test]
fn gitoxide_on_a_branch_without_a_commit() {
    let dir = tempfile::tempdir().unwrap();
    let repo = init(dir.path());
    repo.set_head("refs/heads/unborn").unwrap();
    assert_eq!(
        get_repo_info(dir.path()),
        Some(RepoInfo {
            branch: text("refs/heads/unborn"),
            tag: None,
            dirty: None,
            commit_id: None,
            commit_id_short: None,
        })
    );
    assert_eq!(Gitoxide.head(dir.path()), Ok(None));
    assert_eq!(Gitoxide.describe(dir.path()), Ok(None));
}

#[test]
fn both_backends_resolve_the_same_record() {
    let dir = tempfile::tempdir().unwrap();
    let repo = init(dir.path());
    put_file(dir.path(), "tracked", "one");
    let sig = git2::Signature::now("foo", "bar").unwrap();
    let mut idx = repo.index().unwrap();
    idx.add_path(path::Path::new("tracked")).unwrap();
    idx.write().unwrap();
    let oid = repo
        .commit(
            Some("HEAD"),
            &sig,
            &sig,
            "first",
            &repo.find_tree(idx.write_tree().unwrap()).unwrap(),
            &[],
        )
        .unwrap();
    repo.tag(
        "v0.1.0",
        &repo.find_object(oid, Some(git2::ObjectType::Commit)).unwrap(),
        &sig,
        "first release",
        false,
    )
    .unwrap();
    put_file(dir.path(), "tracked", "a second version");

    let primary = resolve(&Primary, dir.path(), RepoInfo::default());
    let alternative = resolve(&Gitoxide, dir.path(), RepoInfo::default());
    assert_eq!(primary.tag, text("v0.1.0"));
    assert_eq!(primary.dirty, Some(true));
    assert_eq!(primary.commit_id, Some(oid.to_string()));
    assert!(primary.branch.is_some());
    assert_eq!(primary.branch, alternative.branch);
    assert_eq!(primary.tag, alternative.tag);
    assert_eq!(primary.dirty, alternative.dirty);
    assert_eq!(primary.commit_id, alternative.commit_id);
    let full = oid.to_string();
    assert!(full.starts_with(primary.commit_id_short.as_ref().unwrap().as_str()));
    assert!(full.starts_with(alternative.commit_id_short.as_ref().unwrap().as_str()));
    assert!(!alternative.commit_id_short.unwrap().is_empty());

    let mut overrides = RepoInfo::default();
    overrides.dirty = Some(false);
    overrides.branch = text("refs/heads/elsewhere");
    let resolved = resolve(&Gitoxide, dir.path(), overrides);
    assert_eq!(resolved.dirty, Some(false));
    assert_eq!(resolved.branch, text("refs/heads/elsewhere"));
    assert_eq!(resolved.tag, text("v0.1.0"));
    assert_eq!(resolved.commit_id, Some(full));
}

#[test]
fn gitoxide_abbreviated_hash_starts_the_full_hash() {
    let dir = tempfile::tempdir().unwrap();
    let repo = init(dir.path());
    put_file(dir.path(), "tracked", "one");
    let sig = git2::Signature::now("foo", "bar").unwrap();
    let mut idx = repo.index().unwrap();
    idx.add_path(path::Path::new("tracked")).unwrap();
    idx.write().unwrap();
    let oid = repo
        .commit(
            Some("HEAD"),
            &sig,
            &sig,
            "first",
            &repo.find_tree(idx.write_tree().unwrap()).unwrap(),
            &[],
        )
        .unwrap();
    let info = get_repo_info(dir.path()).unwrap();
    let full = info.commit_id.unwrap();
    let short = info.commit_id_short.unwrap();
    assert_eq!(full, oid.to_string());
    assert_eq!(full.len(), 40);
    assert!(full.chars().all(|c| c.is_ascii_digit() || ('a'..='f').contains(&c)));
    assert!(short.len() >= 4);
    assert!(short.len() < full.len());
    assert!(full.starts_with(&short));
    let (_, full, short) = Gitoxide.head(dir.path()).unwrap().unwrap();
    assert_eq!(full, oid.to_string());
    assert!(full.starts_with(&short));
}

#[test]
fn gitoxide_branch_whose_name_is_no_text_is_absent() {
    let dir = tempfile::tempdir().unwrap();
    let repo = init(dir.path());
    repo.set_head_bytes(b"refs/heads/caf\xe9").unwrap();
    put_file(dir.path(), "tracked", "one");
    let sig = git2::Signature::now("foo", "bar").unwrap();
    let mut idx = repo.index().unwrap();
    idx.add_path(path::Path::new("tracked")).unwrap();
    idx.write().unwrap();
    let oid = repo
        .commit(
            Some("HEAD"),
            &sig,
            &sig,
            "first",
            &repo.find_tree(idx.write_tree().unwrap()).unwrap(),
            &[],
        )
        .unwrap();
    let info = get_repo_info(dir.path()).unwrap();
    assert_eq!(info.branch, None);
    assert_eq!(info.commit_id, Some(oid.to_string()));
    let (branch, full, _) = Gitoxide.head(dir.path()).unwrap().unwrap();
    assert_eq!(branch, None);
    assert_eq!(full, oid.to_string());
}

#[test]
fn branch_of_a_name() {
    assert_eq!(branch_of(None), None);
    assert_eq!(
        branch_of(Some(b"refs/heads/main".to_vec())),
        Some("refs/heads/main".to_string())
    );
    assert_eq!(
        branch_of(Some("refs/heads/caf\u{e9}".as_bytes().to_vec())),
        Some("refs/heads/caf\u{e9}".to_string())
    );
    assert_eq!(branch_of(Some(Vec::new())), Some(String::new()));
}

#[test]
fn branch_of_a_name_that_is_no_text() {
    assert_eq!(branch_of(Some(b"refs/heads/caf\xe9".to_vec())), None);
    assert_eq!(branch_of(Some(vec![0xff])), None);
    assert_eq!(branch_of(Some(vec![0xc3])), None);
}

#[test]
fn dirty_outcome_answers_where_there_are_flags() {
    assert_eq!(dirty_outcome(None), None);
    assert_eq!(dirty_outcome(Some(vec![])), Some(false));
    assert_eq!(dirty_outcome(Some(vec![0, 0])), Some(false));
    assert_eq!(dirty_outcome(Some(vec![0, 256])), Some(true));
}

#[test]
fn info_outcome_answers_where_gitoxide_answered() {
    assert_eq!(info_outcome(None), None);
    assert_eq!(info_outcome(Some((None, None))), Some(RepoInfo::default()));
    assert_eq!(
        info_outcome(Some((text("refs/heads/main"), None))),
        Some(RepoInfo {
            branch: text("refs/heads/main"),
            tag: None,
            dirty: None,
            commit_id: None,
            commit_id_short: None,
        })
    );
    let commit = HeadCommit {
        id: "0123456789abcdef0123456789abcdef01234567".to_string(),
        short: text("0123456"),
        tag: text("v1"),
        dirty: Some(true),
    };
    assert_eq!(
        info_outcome(Some((None, Some(commit)))),
        Some(RepoInfo {
            branch: None,
            tag: text("v1"),
            dirty: Some(true),
            commit_id: text("0123456789abcdef0123456789abcdef01234567"),
            commit_id_short: text("0123456"),
        })
    );
}

#[test]
fn is_dirty_looks_at_tracked_files_only() {
    let dir = tempfile::tempdir().unwrap();
    let repo = init(dir.path());
    put_file(dir.path(), ".gitignore", "ignored\n");
    let sig = git2::Signature::now("foo", "bar").unwrap();
    let mut idx = repo.index().unwrap();
    idx.add_path(path::Path::new(".gitignore")).unwrap();
    idx.write().unwrap();
    repo.commit(
        Some("HEAD"),
        &sig,
        &sig,
        "first",
        &repo.find_tree(idx.write_tree().unwrap()).unwrap(),
        &[],
    )
    .unwrap();
    assert_eq!(is_dirty(dir.path()), Some(false));
    put_file(dir.path(), "untracked", "new");
    put_file(dir.path(), "ignored", "new");
    assert_eq!(is_dirty(dir.path()), Some(false));
    let sub = put_dir(dir.path(), "sub");
    assert_eq!(is_dirty(&sub), Some(false));
    put_file(dir.path(), ".gitignore", "ignored\nmore\n");
    assert_eq!(is_dirty(dir.path()), Some(true));
    assert_eq!(is_dirty(&sub), Some(true));
}
