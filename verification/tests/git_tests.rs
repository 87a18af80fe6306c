use project_workspaces::git::cloning::CloneRepository;
use project_workspaces::git::command::{
    decode_git_path_output, GitArg, GitCommand, GitOutcome, GitReply, GitRequest, Step,
};
use project_workspaces::git::creation::{LocalCreation, RemoteCreation};
use project_workspaces::git::generation::reflog_generation;
use project_workspaces::git::naming::{
    repository_name_from_parsed, repository_name_from_url, validate_clone_directory_name,
    workspace_dir_name,
};
use project_workspaces::git::refs::{parse_branch_ref, parse_branch_ref_records};
use project_workspaces::git::removal::{Preflight, Removal};
use project_workspaces::git::repository::{DefaultBranchRead, RefListing, Validation};
use project_workspaces::git::types::{BranchRef, GitWorkspaceError, ValidatedRepository, WorktreeInfo};
use project_workspaces::git::worktrees::WorktreeListing;

/// One directory Git can be run in, as the fake answers for it.
#[derive(Clone)]
struct Dir {
    path: Vec<u8>,
    toplevel: Vec<u8>,
    git_dir: Vec<u8>,
    common_dir: Vec<u8>,
}

/// A repository world that answers the library's requests the way Git and
/// the filesystem would.
struct FakeGit {
    canonical: Vec<(Vec<u8>, Vec<u8>)>,
    dirs: Vec<Dir>,
    remotes: Vec<(String, String)>,
    heads: Vec<(String, String)>,
    local_branches: Vec<(String, String)>,
    remote_branches: Vec<(String, String, String)>,
    direct_refs: Vec<String>,
    server: Vec<(String, String, String)>,
    worktree_output: Vec<u8>,
    existing: Vec<Vec<u8>>,
    clone_fails: bool,
    removal_fails: bool,
    add_fails: bool,
    failed_add_leaves_branch: bool,
    failed_add_registers: bool,
    upstreams: Vec<(String, String)>,
    reflogs: Vec<(String, Vec<u8>)>,
    missing: Vec<Vec<u8>>,
    pending_delete: Option<(String, String)>,
    recreate_on_prepare: bool,
    rewind_merge_target_on_prepare: bool,
    commit_fails: bool,
    claim_replaced: bool,
    seen: Vec<GitRequest>,
}

const MAIN_OID: &str = "1111111111111111111111111111111111111111";
const ROOT: &[u8] = b"/tmp/fixture/repo with 'quote";
const REMOTE_URL: &str = "/tmp/fixture/remote repository.git";

fn texts(command: &GitCommand) -> Vec<String> {
    command
        .args
        .iter()
        .map(|a| match a {
            GitArg::Text(t) => t.clone(),
            GitArg::Path(p) => String::from_utf8_lossy(p).into_owned(),
        })
        .collect()
}

fn ok(stdout: &str) -> GitReply {
    GitReply::Ran { outcome: GitOutcome::Exited { code: Some(0), stdout: stdout.as_bytes().to_vec(), stderr: vec![] } }
}

fn ok_bytes(stdout: Vec<u8>) -> GitReply {
    GitReply::Ran { outcome: GitOutcome::Exited { code: Some(0), stdout, stderr: vec![] } }
}

fn exit(code: i32, stderr: &str) -> GitReply {
    GitReply::Ran { outcome: GitOutcome::Exited { code: Some(code), stdout: vec![], stderr: stderr.as_bytes().to_vec() } }
}

impl FakeGit {
    /// The repository the fixture makes: `main` pushed to `origin`, whose HEAD is set.
    fn fixture() -> FakeGit {
        FakeGit {
            canonical: vec![],
            dirs: vec![Dir {
                path: ROOT.to_vec(),
                toplevel: ROOT.to_vec(),
                git_dir: [ROOT, b"/.git"].concat(),
                common_dir: [ROOT, b"/.git"].concat(),
            }],
            remotes: vec![("origin".to_string(), REMOTE_URL.to_string())],
            heads: vec![("origin".to_string(), "main".to_string())],
            local_branches: vec![("main".to_string(), MAIN_OID.to_string())],
            remote_branches: vec![("origin".to_string(), "main".to_string(), MAIN_OID.to_string())],
            direct_refs: vec![],
            server: vec![("origin".to_string(), "main".to_string(), MAIN_OID.to_string())],
            worktree_output: [b"worktree ", ROOT, b"\0HEAD ", MAIN_OID.as_bytes(), b"\0branch refs/heads/main\0\0"].concat(),
            existing: vec![],
            clone_fails: false,
            removal_fails: false,
            add_fails: true,
            failed_add_leaves_branch: true,
            failed_add_registers: false,
            upstreams: vec![],
            reflogs: vec![],
            missing: vec![],
            pending_delete: None,
            recreate_on_prepare: false,
            rewind_merge_target_on_prepare: false,
            commit_fails: false,
            claim_replaced: false,
            seen: vec![],
        }
    }

    fn add_linked_worktree(&mut self, path: &[u8], branch: &str) {
        self.dirs.push(Dir {
            path: path.to_vec(),
            toplevel: path.to_vec(),
            git_dir: [ROOT, b"/.git/worktrees/", branch.replace('/', "-").as_bytes()].concat(),
            common_dir: [ROOT, b"/.git"].concat(),
        });
        self.local_branches.push((branch.to_string(), MAIN_OID.to_string()));
        self.reflogs.push((branch.to_string(), format!("{MAIN_OID} created {branch}\n").into_bytes()));
        self.worktree_output.extend_from_slice(&[b"worktree ", path, b"\0HEAD ", MAIN_OID.as_bytes(), b"\0branch refs/heads/", branch.as_bytes(), b"\0\0"].concat());
    }

    fn dir(&self, path: &[u8]) -> Option<Dir> {
        self.dirs.iter().find(|d| d.path == path).cloned()
    }

    fn canonical_of(&self, path: &[u8]) -> Vec<u8> {
        self.canonical.iter().find(|(p, _)| p == path).map(|(_, c)| c.clone()).unwrap_or_else(|| path.to_vec())
    }

    fn refs_listing(&self) -> String {
        let mut out = String::new();
        for (b, _) in &self.local_branches {
            out.push_str(&format!("refs/heads/{b}\t\n"));
        }
        for (r, n, _) in &self.remote_branches {
            out.push_str(&format!("refs/remotes/{r}/{n}\t\n"));
        }
        for (r, n) in &self.heads {
            out.push_str(&format!("refs/remotes/{r}/HEAD\trefs/remotes/{r}/{n}\n"));
        }
        for full in &self.direct_refs {
            out.push_str(&format!("{full}\t\n"));
        }
        out
    }

    fn oid_of(&self, full_ref: &str) -> Option<String> {
        if let Some(b) = full_ref.strip_prefix("refs/heads/") {
            return self.local_branches.iter().find(|(n, _)| n == b).map(|(_, o)| o.clone());
        }
        self.remote_branches
            .iter()
            .find(|(r, n, _)| format!("refs/remotes/{r}/{n}") == full_ref)
            .map(|(_, _, o)| o.clone())
    }

    fn run(&mut self, command: &GitCommand) -> GitReply {
        let args = texts(command);
        let a: Vec<&str> = args.iter().map(|s| s.as_str()).collect();
        match a.as_slice() {
            ["-c", "core.quotePath=false", "rev-parse", "--show-toplevel"] => match self.dir(&command.repo) {
                Some(d) => ok_bytes([d.toplevel.as_slice(), b"\n"].concat()),
                None => exit(128, "fatal: not a git repository"),
            },
            ["-c", "core.quotePath=false", "rev-parse", "--absolute-git-dir"] => {
                let d = self.dir(&command.repo).unwrap();
                ok_bytes([d.git_dir.as_slice(), b"\n"].concat())
            },
            ["-c", "core.quotePath=false", "rev-parse", "--path-format=absolute", "--git-common-dir"] => {
                let d = self.dir(&command.repo).unwrap();
                ok_bytes([d.common_dir.as_slice(), b"\n"].concat())
            },
            ["remote"] => {
                let mut names: Vec<String> = self.remotes.iter().map(|(n, _)| n.clone()).collect();
                names.sort();
                ok(&format!("{}\n", names.join("\n")))
            },
            ["remote", "get-url", name] => match self.remotes.iter().find(|(n, _)| n == name) {
                Some((_, url)) => ok(&format!("{url}\n")),
                None => exit(2, "error: No such remote"),
            },
            ["symbolic-ref", target] => {
                let found = self.heads.iter().find(|(r, _)| format!("refs/remotes/{r}/HEAD") == *target);
                match found {
                    Some((r, n)) => ok(&format!("refs/remotes/{r}/{n}\n")),
                    None => exit(128, &format!("fatal: ref {target} is not a symbolic ref")),
                }
            },
            ["symbolic-ref", "--quiet", target] => {
                let found = self.heads.iter().find(|(r, _)| format!("refs/remotes/{r}/HEAD") == *target);
                match found {
                    Some((r, n)) => ok(&format!("refs/remotes/{r}/{n}\n")),
                    None => exit(1, ""),
                }
            },
            ["fetch", "--prune", "--quiet", "--no-tags", remote] => {
                let fetched: Vec<(String, String, String)> = self.server.iter().filter(|(r, _, _)| r == remote).cloned().collect();
                for entry in fetched {
                    if !self.remote_branches.contains(&entry) {
                        self.remote_branches.push(entry);
                    }
                }
                ok("")
            },
            ["for-each-ref", "--format=%(refname)%09%(symref)", "refs/heads", "refs/remotes"] => ok(&self.refs_listing()),
            ["for-each-ref", "--format=%(refname)%09%(objectname)", full] => match self.oid_of(full) {
                Some(oid) => ok(&format!("{full}\t{oid}\n")),
                None => ok(""),
            },
            ["for-each-ref", "--format=%(upstream)", full] => match self.upstreams.iter().find(|(b, _)| b == full) {
                Some((_, u)) => ok(&format!("{u}\n")),
                None => ok("\n"),
            },
            ["worktree", "list", "--porcelain", "-z"] => ok_bytes(self.worktree_output.clone()),
            ["status", "--porcelain", "--untracked-files=all"] => ok(""),
            ["merge-base", "--is-ancestor", oid, target] => {
                if oid == target || self.remote_branches.iter().any(|(_, _, o)| o == target) && *target == MAIN_OID {
                    exit(0, "")
                } else {
                    exit(1, "")
                }
            },
            ["-c", "core.quotePath=false", "rev-parse", "--path-format=absolute", "--git-path", log] => {
                ok_bytes([ROOT, b"/.git/", log.as_bytes(), b"\n"].concat())
            },
            ["show-ref", "--verify", "--quiet", full] => {
                if self.oid_of(full).is_some() {
                    exit(0, "")
                } else {
                    exit(1, "")
                }
            },
            ["rev-parse", "--verify", target] => {
                let full = target.strip_suffix("^{commit}").unwrap();
                ok(&format!("{}\n", self.oid_of(full).unwrap()))
            },
            ["check-ref-format", "--branch", _] => exit(0, ""),
            ["update-ref", "--no-deref", "-d", full, oid] => {
                let b = full.strip_prefix("refs/heads/").unwrap().to_string();
                let before = self.local_branches.len();
                self.local_branches.retain(|(n, o)| !(n == &b && o == oid));
                if self.local_branches.len() < before {
                    exit(0, "")
                } else {
                    exit(1, "error: cannot lock ref")
                }
            },
            ["update-ref", "--no-deref", full, oid, _zeros] => {
                let b = full.strip_prefix("refs/heads/").unwrap();
                self.local_branches.push((b.to_string(), oid.to_string()));
                exit(0, "")
            },
            ["worktree", "add", _, _] => exit(128, "fatal: could not create work tree dir"),
            ["worktree", "add", "--no-track", "-b", branch, _, start] => {
                let path = match &command.args[5] {
                    GitArg::Path(p) => p.clone(),
                    GitArg::Text(_) => panic!("the worktree path is a path argument"),
                };
                let oid = self.oid_of(start).unwrap();
                let record = [b"worktree ", path.as_slice(), b"\0HEAD ", oid.as_bytes(), b"\0branch refs/heads/", branch.as_bytes(), b"\0\0"].concat();
                if self.add_fails {
                    if self.failed_add_leaves_branch {
                        self.local_branches.push((branch.to_string(), oid));
                    }
                    if self.failed_add_registers {
                        self.worktree_output.extend_from_slice(&record);
                    }
                    exit(128, "fatal: could not create work tree dir")
                } else {
                    self.local_branches.push((branch.to_string(), oid));
                    self.worktree_output.extend_from_slice(&record);
                    ok("")
                }
            },
            ["worktree", "remove", _] => {
                if self.removal_fails {
                    exit(128, "fatal: cannot remove worktree")
                } else {
                    ok("")
                }
            },
            ["clone", "--", _, "."] => {
                if self.clone_fails {
                    exit(128, "fatal: repository does not exist")
                } else {
                    let target = command.repo.clone();
                    self.dirs.push(Dir {
                        path: target.clone(),
                        toplevel: target.clone(),
                        git_dir: [target.as_slice(), b"/.git"].concat(),
                        common_dir: [target.as_slice(), b"/.git"].concat(),
                    });
                    ok("")
                }
            },
            other => panic!("unexpected git command {other:?}"),
        }
    }

    fn answer(&mut self, q: &GitRequest) -> GitReply {
        self.seen.push(q.clone());
        match q {
            GitRequest::Canonicalize { path } => GitReply::Canonical { path: self.canonical_of(path) },
            GitRequest::ResolveWorktreePath { path } => {
                if self.missing.contains(path) {
                    GitReply::PathMissing { message: "No such file or directory (os error 2)".to_string() }
                } else {
                    GitReply::Canonical { path: self.canonical_of(path) }
                }
            },
            GitRequest::Run { command } => self.run(command),
            GitRequest::InspectTarget { path } => {
                if self.existing.contains(path) {
                    GitReply::TargetPresent
                } else {
                    GitReply::TargetMissing
                }
            },
            GitRequest::CheckExists { path } => GitReply::Exists { exists: self.existing.contains(path) },
            GitRequest::CheckDirectory { path } => GitReply::IsDirectory {
                directory: self.existing.contains(path) && !self.claim_replaced,
            },
            GitRequest::CreateDirectory { path } => {
                self.existing.push(path.clone());
                GitReply::DirectoryDone
            },
            GitRequest::RemoveDirectoryTree { path } => {
                self.existing.retain(|p| p != path);
                GitReply::DirectoryDone
            },
            GitRequest::ClaimDirectory { path } => {
                if self.existing.contains(path) {
                    GitReply::DirectoryExists
                } else {
                    self.existing.push(path.clone());
                    GitReply::DirectoryDone
                }
            },
            GitRequest::RemoveEmptyDirectory { path } => {
                self.existing.retain(|p| p != path);
                GitReply::DirectoryDone
            },
            GitRequest::ReadFile { path } => {
                let text = String::from_utf8_lossy(path).into_owned();
                let prefix = format!("{}/.git/logs/refs/heads/", String::from_utf8_lossy(ROOT));
                let branch = text.strip_prefix(&prefix).unwrap_or("");
                match self.reflogs.iter().find(|(b, _)| b == branch) {
                    Some((_, bytes)) => GitReply::FileRead { bytes: bytes.clone() },
                    None => GitReply::FileFailed { message: "No such file or directory (os error 2)".to_string() },
                }
            },
            GitRequest::PrepareRefTransaction { instructions, .. } => self.prepare(instructions),
            GitRequest::CommitRefTransaction => {
                if self.commit_fails {
                    self.pending_delete = None;
                    return GitReply::TransactionFailed { message: "fatal: update-ref: broken pipe".to_string() };
                }
                if let Some((full, oid)) = self.pending_delete.take() {
                    let b = full.strip_prefix("refs/heads/").unwrap().to_string();
                    self.local_branches.retain(|(n, o)| !(n == &b && o == &oid));
                    self.reflogs.retain(|(n, _)| n != &b);
                }
                GitReply::TransactionDone
            },
            GitRequest::AbortRefTransaction => {
                self.pending_delete = None;
                GitReply::TransactionDone
            },
        }
    }

    /// A delete and re-creation of `branch` at the same commit: its reflog starts over.
    fn recreate(&mut self, branch: &str) {
        for (b, bytes) in self.reflogs.iter_mut() {
            if b == branch {
                *bytes = format!("{MAIN_OID} recreated {branch}\n").into_bytes();
            }
        }
    }

    fn prepare(&mut self, instructions: &[String]) -> GitReply {
        let delete = instructions.last().unwrap().strip_prefix("delete ").unwrap();
        let (full, oid) = delete.split_once(' ').unwrap();
        if self.recreate_on_prepare {
            self.recreate(full.strip_prefix("refs/heads/").unwrap());
        }
        if self.rewind_merge_target_on_prepare {
            for (_, _, o) in self.remote_branches.iter_mut() {
                *o = "2222222222222222222222222222222222222222".to_string();
            }
        }
        for instruction in instructions {
            if let Some(verify) = instruction.strip_prefix("verify ") {
                let (r, o) = verify.split_once(' ').unwrap();
                if self.oid_of(r).as_deref() != Some(o) {
                    return GitReply::TransactionFailed { message: format!("fatal: cannot lock ref '{r}': is at another value") };
                }
            }
        }
        self.pending_delete = Some((full.to_string(), oid.to_string()));
        GitReply::TransactionPrepared
    }
}

fn drive<M, T>(fake: &mut FakeGit, start: (M, GitRequest), mut step: impl FnMut(M, GitReply) -> Step<M, T>) -> Result<T, GitWorkspaceError> {
    let (mut m, mut q) = start;
    loop {
        let reply = fake.answer(&q);
        assert!(reply.answers(&q));
        match step(m, reply) {
            Step::Ask(next, request) => {
                m = next;
                q = request;
            },
            Step::Done(result) => return result,
        }
    }
}

fn validate(fake: &mut FakeGit, path: &[u8]) -> Result<ValidatedRepository, GitWorkspaceError> {
    drive(fake, Validation::start(&path.to_vec()), |m, r| m.step(r))
}

fn list_refs(fake: &mut FakeGit) -> Result<Vec<BranchRef>, GitWorkspaceError> {
    drive(fake, RefListing::start_listing(&ROOT.to_vec()), |m, r| m.step(r))
}

fn fetch_refs(fake: &mut FakeGit) -> Result<Vec<BranchRef>, GitWorkspaceError> {
    drive(fake, RefListing::start_fetching(&ROOT.to_vec()), |m, r| m.step(r))
}

fn list_worktrees(fake: &mut FakeGit) -> Result<Vec<WorktreeInfo>, GitWorkspaceError> {
    drive(fake, WorktreeListing::start(&ROOT.to_vec()), |m, r| m.step(r))
}

#[test]
fn rejects_linked_worktree_as_repository() {
    let mut fake = FakeGit::fixture();
    let worktree_path = b"/tmp/fixture/worktree feature-a 'quoted'".to_vec();
    fake.add_linked_worktree(&worktree_path, "feature/a");

    let error = validate(&mut fake, &worktree_path).unwrap_err();

    assert!(matches!(error, GitWorkspaceError::LinkedWorktree { .. }));
}

#[test]
fn rejects_directory_below_repository_root() {
    let mut fake = FakeGit::fixture();
    let nested = [ROOT, b"/nested"].concat();
    fake.dirs.push(Dir { path: nested.clone(), toplevel: ROOT.to_vec(), git_dir: vec![], common_dir: vec![] });

    let error = validate(&mut fake, &nested).unwrap_err();

    assert!(matches!(error, GitWorkspaceError::NotRepositoryRoot { .. }));
}

#[test]
fn validates_repository_and_reads_remote_metadata() {
    let mut fake = FakeGit::fixture();

    let repository = validate(&mut fake, ROOT).unwrap();

    assert_eq!(repository.root, ROOT.to_vec());
    assert_eq!(repository.remote, "origin");
    assert_eq!(repository.remote_url, REMOTE_URL);
    assert!(matches!(
        repository.default_branch,
        BranchRef::Remote { remote, name, full_ref }
            if remote == "origin" && name == "main" && full_ref == "refs/remotes/origin/main"
    ));
}

#[test]
fn validation_reports_the_canonical_root_through_symlinks() {
    let mut fake = FakeGit::fixture();
    let link = b"/tmp/link-to-repo".to_vec();
    fake.canonical.push((link.clone(), ROOT.to_vec()));

    let repository = validate(&mut fake, &link).unwrap();

    assert_eq!(repository.root, ROOT.to_vec());
}

#[test]
fn rejects_repository_without_remote() {
    let mut fake = FakeGit::fixture();
    fake.remotes.clear();

    let error = validate(&mut fake, ROOT).unwrap_err();

    assert!(matches!(error, GitWorkspaceError::RemoteNotFound { .. }));
}

#[test]
fn rejects_repository_without_remote_default_branch() {
    let mut fake = FakeGit::fixture();
    fake.heads.clear();

    let error = validate(&mut fake, ROOT).unwrap_err();

    assert!(matches!(
        error,
        GitWorkspaceError::DefaultBranchNotFound { remote, .. } if remote == "origin"
    ));
}

#[test]
fn selects_first_remote_when_origin_is_absent() {
    let mut fake = FakeGit::fixture();
    fake.remotes = vec![
        ("a".to_string(), REMOTE_URL.to_string()),
        ("zzzz-longer-remote".to_string(), REMOTE_URL.to_string()),
    ];
    fake.heads = vec![("a".to_string(), "main".to_string())];

    let repository = validate(&mut fake, ROOT).unwrap();

    assert_eq!(repository.remote, "a");
    assert!(matches!(
        repository.default_branch,
        BranchRef::Remote { remote, name, .. } if remote == "a" && name == "main"
    ));
}

#[test]
fn classifies_local_and_remote_refs_without_prefix_guessing() {
    let mut fake = FakeGit::fixture();
    fake.local_branches.push(("origin/foo".to_string(), MAIN_OID.to_string()));
    fake.remote_branches.push(("origin".to_string(), "team/remote-branch".to_string(), MAIN_OID.to_string()));

    let refs = list_refs(&mut fake).unwrap();

    assert!(refs.iter().any(|branch_ref| matches!(
        branch_ref,
        BranchRef::Local { name, full_ref } if name == "origin/foo" && full_ref == "refs/heads/origin/foo"
    )));
    assert!(refs.iter().any(|branch_ref| matches!(
        branch_ref,
        BranchRef::Remote { remote, name, full_ref }
            if remote == "origin" && name == "team/remote-branch" && full_ref == "refs/remotes/origin/team/remote-branch"
    )));
}

#[test]
fn rejects_ambiguous_overlapping_remote_ref() {
    let remotes = vec!["foo".to_string(), "foo/bar".to_string()];

    let error = parse_branch_ref("refs/remotes/foo/bar/main", &remotes).unwrap_err();

    assert!(matches!(
        error,
        GitWorkspaceError::AmbiguousRemoteRef { full_ref, remotes: candidates }
            if full_ref == "refs/remotes/foo/bar/main" && candidates == remotes
    ));
}

#[test]
fn rejects_direct_head_ref_ambiguous_between_overlapping_remotes() {
    let mut fake = FakeGit::fixture();
    fake.remotes.push(("foo".to_string(), REMOTE_URL.to_string()));
    fake.remotes.push(("foo/bar".to_string(), REMOTE_URL.to_string()));
    fake.direct_refs.push("refs/remotes/foo/bar/HEAD".to_string());

    let error = list_refs(&mut fake).unwrap_err();

    assert!(matches!(
        error,
        GitWorkspaceError::AmbiguousRemoteRef { full_ref, remotes }
            if full_ref == "refs/remotes/foo/bar/HEAD" && remotes == ["foo".to_string(), "foo/bar".to_string()]
    ));
}

#[test]
fn rejects_malformed_branch_ref_record() {
    let error = parse_branch_ref_records("refs/heads/main\n", &[]).unwrap_err();

    assert!(matches!(
        error,
        GitWorkspaceError::InvalidBranchRefRecord { record } if record == "refs/heads/main"
    ));
}

#[test]
fn fetches_remote_refs_before_listing_them() {
    let mut fake = FakeGit::fixture();
    fake.server.push(("origin".to_string(), "created-after-clone".to_string(), MAIN_OID.to_string()));

    let refs = fetch_refs(&mut fake).unwrap();

    assert!(refs.iter().any(|branch_ref| matches!(
        branch_ref,
        BranchRef::Remote { remote, name, .. } if remote == "origin" && name == "created-after-clone"
    )));
}

#[test]
fn fetches_primary_remote_when_branch_has_no_upstream() {
    let mut fake = FakeGit::fixture();
    fake.remotes = vec![
        ("zz-secondary".to_string(), "/tmp/fixture/secondary.git".to_string()),
        ("a-primary".to_string(), REMOTE_URL.to_string()),
    ];
    fake.heads.clear();
    fake.remote_branches.clear();
    fake.server = vec![
        ("a-primary".to_string(), "primary-only".to_string(), MAIN_OID.to_string()),
        ("zz-secondary".to_string(), "main".to_string(), MAIN_OID.to_string()),
    ];

    let refs = fetch_refs(&mut fake).unwrap();

    assert!(refs.iter().any(|branch_ref| matches!(
        branch_ref,
        BranchRef::Remote { remote, name, .. } if remote == "a-primary" && name == "primary-only"
    )));
}

#[test]
fn omits_symbolic_remote_head_from_ref_lists() {
    let mut fake = FakeGit::fixture();

    let listed_refs = list_refs(&mut fake).unwrap();
    let fetched_refs = fetch_refs(&mut fake).unwrap();

    for refs in [listed_refs, fetched_refs] {
        assert!(!refs.iter().any(|branch_ref| matches!(
            branch_ref,
            BranchRef::Remote { name, full_ref, .. } if name == "HEAD" || full_ref == "refs/remotes/origin/HEAD"
        )));
    }
}

#[test]
fn parses_worktree_paths_and_full_branch_refs() {
    let mut fake = FakeGit::fixture();
    let linked_path = b"/tmp/fixture/worktree feature-worktree 'quoted'".to_vec();
    fake.add_linked_worktree(&linked_path, "feature/worktree");

    let worktrees = list_worktrees(&mut fake).unwrap();

    assert!(worktrees.iter().any(|w| w.path == ROOT.to_vec() && w.branch.as_deref() == Some("refs/heads/main")));
    assert!(worktrees.iter().any(|w| w.path == linked_path && w.branch.as_deref() == Some("refs/heads/feature/worktree")));
}

#[test]
fn preserves_prunable_worktree_when_its_path_no_longer_exists() {
    let mut fake = FakeGit::fixture();
    let linked_path = b"/tmp/fixture/worktree feature-prunable 'quoted'".to_vec();
    fake.add_linked_worktree(&linked_path, "feature/prunable");
    fake.worktree_output.truncate(fake.worktree_output.len() - 1);
    fake.worktree_output.extend_from_slice(b"prunable gitdir file points to non-existent location\0\0");
    let expected_path = b"/private/tmp/fixture/worktree feature-prunable 'quoted'".to_vec();
    fake.missing.push(linked_path.clone());
    fake.existing.push(b"/tmp/fixture".to_vec());
    fake.canonical.push((b"/tmp/fixture".to_vec(), b"/private/tmp/fixture".to_vec()));

    let worktrees = list_worktrees(&mut fake).unwrap();

    assert!(worktrees.iter().any(|w| w.path == expected_path
        && w.branch.as_deref() == Some("refs/heads/feature/prunable")
        && w.is_prunable));
    assert!(fake.seen.iter().any(|q| matches!(q, GitRequest::ResolveWorktreePath { path } if *path == linked_path)));
    assert!(fake.seen.iter().any(|q| matches!(q, GitRequest::CheckExists { path } if path == b"/tmp/fixture")));
}

#[test]
fn preserves_newline_worktree_path() {
    let mut fake = FakeGit::fixture();
    let linked_path = b"/tmp/fixture/worktree\nnewline".to_vec();
    fake.add_linked_worktree(&linked_path, "feature/newline");

    let worktrees = list_worktrees(&mut fake).unwrap();

    assert!(worktrees.iter().any(|w| w.path == linked_path));
}

#[test]
fn preserves_non_utf8_worktree_path() {
    let linked_path = b"/tmp/fixture/worktree-\xff".to_vec();
    let mut output = b"worktree ".to_vec();
    output.extend(&linked_path);
    output.extend_from_slice(b"\0HEAD 0123456789abcdef\0branch refs/heads/feature/non-utf8\0prunable missing\0\0");
    let expected_path = b"/private/tmp/fixture/worktree-\xff".to_vec();
    let mut fake = FakeGit::fixture();
    fake.worktree_output = output;
    fake.canonical.push((linked_path, expected_path.clone()));

    let worktrees = list_worktrees(&mut fake).unwrap();

    assert_eq!(worktrees[0].path, expected_path);
    assert_eq!(worktrees[0].head.as_deref(), Some("0123456789abcdef"));
    assert_eq!(worktrees[0].prunable_reason.as_deref(), Some("missing"));
}

#[test]
fn rejects_unknown_worktree_field_after_earlier_records() {
    let mut fake = FakeGit::fixture();
    fake.worktree_output.extend_from_slice(b"bogus\0\0");

    let error = list_worktrees(&mut fake).unwrap_err();

    assert!(matches!(error, GitWorkspaceError::InvalidWorktreeRecord { record } if record == "[98, 111, 103, 117, 115]"));
    assert!(fake.seen.iter().any(|q| matches!(q, GitRequest::ResolveWorktreePath { .. })));
}

#[test]
fn rejects_non_utf8_worktree_text_field() {
    let mut fake = FakeGit::fixture();
    fake.worktree_output = b"worktree /tmp/x\0branch \xff\0\0".to_vec();

    let error = list_worktrees(&mut fake).unwrap_err();

    assert!(matches!(error, GitWorkspaceError::InvalidWorktreeRecord { record } if record == "non-UTF-8 text field [255]"));
}

#[test]
fn rejects_worktree_record_without_path() {
    let mut fake = FakeGit::fixture();
    fake.worktree_output = b"bare\0\0".to_vec();

    let error = list_worktrees(&mut fake).unwrap_err();

    assert!(matches!(error, GitWorkspaceError::InvalidWorktreeRecord { record } if record == "missing worktree path"));
}

#[test]
fn decodes_non_utf8_git_path_output_without_loss() {
    let expected = b"/tmp/repository-\xff ".to_vec();
    let mut output = expected.clone();
    output.push(b'\n');

    let decoded = decode_git_path_output(&output, "decode test path").unwrap();

    assert_eq!(decoded, expected);
}

#[test]
fn preserves_trailing_carriage_return_in_git_path_output() {
    let expected = b"/tmp/repository-with-trailing-cr\r".to_vec();
    let mut output = expected.clone();
    output.push(b'\n');

    let decoded = decode_git_path_output(&output, "decode test path").unwrap();

    assert_eq!(decoded, expected);
}

fn clone_into(fake: &mut FakeGit, url: &str, target: Option<Vec<u8>>) -> Result<ValidatedRepository, GitWorkspaceError> {
    let start = CloneRepository::clone_repository(url, target)?;
    drive(fake, start, |m, r| m.step(r))
}

#[test]
fn clones_repository_into_path_with_spaces_and_quotes() {
    let mut fake = FakeGit::fixture();
    let target = b"/tmp/fixture/clone path with 'quote".to_vec();

    let repository = clone_into(&mut fake, REMOTE_URL, Some(target.clone())).unwrap();

    assert_eq!(repository.root, target);
    assert_eq!(repository.remote_url, REMOTE_URL);
}

#[test]
fn clone_uses_repository_name_when_target_is_not_provided() {
    let mut fake = FakeGit::fixture();
    let parent = b"/tmp/fixture/clone parent".to_vec();

    let start = CloneRepository::clone_repository_into(REMOTE_URL, &parent, None).unwrap();
    let repository = drive(&mut fake, start, |m, r| m.step(r)).unwrap();

    assert_eq!(repository.root, b"/tmp/fixture/clone parent/remote repository".to_vec());
}

#[test]
fn clone_into_rejects_invalid_directory_names_without_escaping_parent() {
    let parent = b"/tmp/fixture/clone parent".to_vec();
    let invalid_names = ["../escaped", "/tmp/fixture/absolute-target", "nested/name", ".", ""];

    for directory_name in invalid_names {
        let error = CloneRepository::clone_repository_into(REMOTE_URL, &parent, Some(directory_name)).err().unwrap();
        assert!(matches!(
            error,
            GitWorkspaceError::InvalidCloneDirectoryName { name } if name == directory_name
        ));
    }
}

#[test]
fn clone_into_accepts_single_normal_directory_name() {
    let mut fake = FakeGit::fixture();
    let parent = b"/tmp/fixture/custom clone parent".to_vec();

    let start = CloneRepository::clone_repository_into(REMOTE_URL, &parent, Some("custom clone")).unwrap();
    let repository = drive(&mut fake, start, |m, r| m.step(r)).unwrap();

    assert_eq!(repository.root, b"/tmp/fixture/custom clone parent/custom clone".to_vec());
    assert!(validate_clone_directory_name("custom clone").is_ok());
    assert!(validate_clone_directory_name("..").is_err());
}

#[test]
fn clone_failure_removes_target_created_by_the_operation() {
    let mut fake = FakeGit::fixture();
    fake.clone_fails = true;
    let target = b"/tmp/fixture/new target".to_vec();

    let error = clone_into(&mut fake, "/tmp/fixture/missing repository.git", Some(target.clone())).unwrap_err();

    assert!(matches!(
        error,
        GitWorkspaceError::CommandFailed { ref operation, ref args, ref stderr }
            if operation == "clone repository"
                && args.first().is_some_and(|arg| arg == "clone")
                && !stderr.is_empty()
    ));
    assert!(!fake.existing.contains(&target));
}

#[test]
fn clone_never_deletes_preexisting_target() {
    let mut fake = FakeGit::fixture();
    let target = b"/tmp/fixture/existing target".to_vec();
    fake.existing.push(target.clone());

    let error = clone_into(&mut fake, REMOTE_URL, Some(target.clone())).unwrap_err();

    assert!(matches!(error, GitWorkspaceError::TargetExists { .. }));
    assert!(fake.existing.contains(&target));
    assert!(!fake.seen.iter().any(|q| matches!(q, GitRequest::RemoveDirectoryTree { .. })));
}

#[test]
fn cleanup_failure_displays_clone_and_cleanup_errors() {
    let error = GitWorkspaceError::CleanupFailed {
        path: b"clone-target".to_vec(),
        cleanup_source: "cleanup permission denied".to_string(),
        clone_error: Box::new(GitWorkspaceError::CommandFailed {
            operation: "clone repository".to_string(),
            args: vec!["clone".to_string()],
            stderr: "fatal: source repository missing".to_string(),
        }),
    };

    let message = error.message();

    assert!(message.contains("fatal: source repository missing"));
    assert!(message.contains("cleanup permission denied"));
    assert_eq!(
        message,
        "clone failed: git failed to clone repository with arguments [\"clone\"]: fatal: source repository missing; target `clone-target` could not be cleaned up: cleanup permission denied"
    );
}

#[test]
fn parses_repository_names_from_supported_git_urls() {
    assert_eq!(repository_name_from_url("https://github.com/acme/widgets.git").unwrap(), "widgets");
    assert_eq!(repository_name_from_url("git@github.com:acme/widgets.git").unwrap(), "widgets");
    assert_eq!(repository_name_from_url("ssh://git@example.com/acme/widgets/").unwrap(), "widgets");
    assert_eq!(repository_name_from_url("/tmp/repositories/local-widgets.git").unwrap(), "local-widgets");
}

#[test]
fn rejects_git_url_without_repository_name() {
    let error = repository_name_from_url("ssh://git@example.com/").unwrap_err();

    assert!(matches!(error, GitWorkspaceError::RepositoryNameMissing { .. }));
}

#[test]
fn parses_repository_name_from_windows_drive_path() {
    assert_eq!(repository_name_from_url(r"C:\repositories\windows-widgets.git").unwrap(), "windows-widgets");
}

#[test]
fn repository_name_of_bare_git_suffix_is_missing() {
    assert!(repository_name_from_url("  /tmp/.git  ").is_err());
    assert!(repository_name_from_url("host:repo").is_err());
    assert_eq!(repository_name_from_url("  git@host:team/repo.git  ").unwrap(), "repo");
}

#[test]
fn creates_filesystem_safe_workspace_directory_names() {
    assert_eq!(workspace_dir_name("feature/a b", "12345678"), "feature-a-b-12345678");
    assert_eq!(workspace_dir_name("  feature\\a::b///c  ", "abcdef12-extra"), "feature-a-b-c-abcdef12");
    assert_eq!(workspace_dir_name("///:::   ", "fedcba98"), "workspace-fedcba98");
    assert_eq!(workspace_dir_name("-x-", ""), "x");
}

#[test]
fn default_branch_read_rejects_a_head_outside_the_remote() {
    let start = DefaultBranchRead::start(&ROOT.to_vec(), "origin");
    let (m, _) = start;
    let error = match m.step(ok("refs/remotes/other/main\n")) {
        Step::Done(r) => r.unwrap_err(),
        Step::Ask(..) => panic!("one request only"),
    };
    assert!(matches!(
        error,
        GitWorkspaceError::DefaultBranchNotFound { stderr, .. } if stderr == "unexpected symbolic ref `refs/remotes/other/main`"
    ));
}

fn removal(fake: &mut FakeGit, path: &[u8], branch: &str, delete_branch: bool, force: bool) -> Result<(), GitWorkspaceError> {
    drive(fake, Removal::start(&ROOT.to_vec(), &path.to_vec(), branch, delete_branch, force), |m, r| m.step(r))
}

#[test]
fn removes_a_clean_worktree_and_its_branch_in_a_checked_transaction() {
    let mut fake = FakeGit::fixture();
    let path = b"/tmp/fixture/worktree feature-gone".to_vec();
    fake.add_linked_worktree(&path, "feature/gone");

    removal(&mut fake, &path, "feature/gone", true, false).unwrap();

    assert!(!fake.local_branches.iter().any(|(n, _)| n == "feature/gone"));
    let prepared = fake.seen.iter().find_map(|q| match q {
        GitRequest::PrepareRefTransaction { instructions, .. } => Some(instructions.clone()),
        _ => None,
    });
    assert_eq!(
        prepared.unwrap(),
        vec![
            format!("verify refs/heads/feature/gone {MAIN_OID}"),
            format!("verify refs/remotes/origin/main {MAIN_OID}"),
            format!("delete refs/heads/feature/gone {MAIN_OID}"),
        ]
    );
    let remove = fake.seen.iter().position(|q| matches!(q, GitRequest::Run { command } if texts(command).starts_with(&["worktree".to_string(), "remove".to_string()]))).unwrap();
    let commit = fake.seen.iter().position(|q| matches!(q, GitRequest::CommitRefTransaction)).unwrap();
    assert!(remove < commit);
    assert!(!fake.seen.iter().any(|q| matches!(q, GitRequest::Run { command } if texts(command)[0] == "update-ref")));
}

#[test]
fn removal_reports_a_branch_deletion_that_did_not_commit() {
    let mut fake = FakeGit::fixture();
    fake.commit_fails = true;
    let path = b"/tmp/fixture/worktree feature-stuck".to_vec();
    fake.add_linked_worktree(&path, "feature/stuck");

    let error = removal(&mut fake, &path, "feature/stuck", true, false).unwrap_err();

    match error {
        GitWorkspaceError::BranchDeleteTransactionFailed {
            worktree_path,
            worktree_removed,
            branch_ref,
            expected_oid,
            merge_target,
            merge_target_oid,
            actual_oid,
            actual_symbolic_target,
            transaction_error,
            inspection_error,
        } => {
            assert_eq!(worktree_path, path);
            assert!(worktree_removed);
            assert_eq!(branch_ref, "refs/heads/feature/stuck");
            assert_eq!(expected_oid, MAIN_OID);
            assert_eq!(merge_target, "refs/remotes/origin/main");
            assert_eq!(merge_target_oid, MAIN_OID);
            assert_eq!(actual_oid.as_deref(), Some(MAIN_OID));
            assert_eq!(actual_symbolic_target, None);
            assert!(matches!(*transaction_error, GitWorkspaceError::RefTransactionFailed { ref stage, ref message } if stage == "commit" && message == "fatal: update-ref: broken pipe"));
            assert!(inspection_error.is_none());
        },
        other => panic!("unexpected error {other:?}"),
    }
    assert!(fake.local_branches.contains(&("feature/stuck".to_string(), MAIN_OID.to_string())));
}

#[test]
fn removal_refuses_a_branch_recreated_at_the_same_commit() {
    let mut fake = FakeGit::fixture();
    fake.recreate_on_prepare = true;
    let path = b"/tmp/fixture/worktree feature-again".to_vec();
    fake.add_linked_worktree(&path, "feature/again");

    let error = removal(&mut fake, &path, "feature/again", true, false).unwrap_err();

    assert!(matches!(error, GitWorkspaceError::BranchGenerationChanged { ref branch } if branch == "feature/again"));
    assert!(fake.local_branches.contains(&("feature/again".to_string(), MAIN_OID.to_string())));
    assert!(!fake.seen.iter().any(|q| matches!(q, GitRequest::Run { command } if texts(command)[0] == "worktree" && texts(command)[1] == "remove")));
    assert!(fake.seen.iter().any(|q| matches!(q, GitRequest::AbortRefTransaction)));
    assert!(!fake.seen.iter().any(|q| matches!(q, GitRequest::CommitRefTransaction)));
}

#[test]
fn removal_refuses_when_the_merge_target_moved_back() {
    let mut fake = FakeGit::fixture();
    fake.rewind_merge_target_on_prepare = true;
    let path = b"/tmp/fixture/worktree feature-merged".to_vec();
    fake.add_linked_worktree(&path, "feature/merged");

    let error = removal(&mut fake, &path, "feature/merged", true, false).unwrap_err();

    assert!(matches!(error, GitWorkspaceError::RefTransactionFailed { ref stage, .. } if stage == "prepare"));
    assert!(fake.local_branches.contains(&("feature/merged".to_string(), MAIN_OID.to_string())));
    assert!(!fake.seen.iter().any(|q| matches!(q, GitRequest::Run { command } if texts(command)[0] == "worktree" && texts(command)[1] == "remove")));
}

#[test]
fn forced_removal_does_not_verify_the_merge_target() {
    let mut fake = FakeGit::fixture();
    fake.rewind_merge_target_on_prepare = true;
    let path = b"/tmp/fixture/worktree feature-forced".to_vec();
    fake.add_linked_worktree(&path, "feature/forced");

    removal(&mut fake, &path, "feature/forced", true, true).unwrap();

    assert!(!fake.local_branches.iter().any(|(n, _)| n == "feature/forced"));
}

#[test]
fn preflight_for_branch_deletion_needs_the_reflog() {
    let mut fake = FakeGit::fixture();
    let path = b"/tmp/fixture/worktree feature-nolog".to_vec();
    fake.add_linked_worktree(&path, "feature/nolog");
    fake.reflogs.clear();

    let error = drive(&mut fake, Preflight::start(&ROOT.to_vec(), &path, true), |m, r| m.step(r)).unwrap_err();
    assert!(matches!(error, GitWorkspaceError::ReflogUnavailable { ref branch, .. } if branch == "feature/nolog"));

    let kept = drive(&mut fake, Preflight::start(&ROOT.to_vec(), &path, false), |m, r| m.step(r)).unwrap();
    assert!(kept.is_merged && kept.merge_target.is_empty() && kept.generation.is_empty());
}

#[test]
fn preflight_fixes_the_merge_target_commit() {
    let mut fake = FakeGit::fixture();
    let path = b"/tmp/fixture/worktree feature-fixed".to_vec();
    fake.add_linked_worktree(&path, "feature/fixed");

    let pf = drive(&mut fake, Preflight::start(&ROOT.to_vec(), &path, true), |m, r| m.step(r)).unwrap();

    assert_eq!(pf.merge_target, "refs/remotes/origin/main");
    assert_eq!(pf.merge_target_oid, MAIN_OID);
    assert!(pf.is_merged);
    let reflog = format!("{MAIN_OID} created feature/fixed\n").into_bytes();
    assert_eq!(pf.generation, <sha2::Sha256 as sha2::Digest>::digest(&reflog).to_vec());
    assert_eq!(pf.generation, reflog_generation(&reflog));
    assert_ne!(pf.generation, reflog);
    assert!(fake.seen.iter().any(|q| matches!(q, GitRequest::Run { command } if texts(command) == ["merge-base", "--is-ancestor", MAIN_OID, MAIN_OID])));
}

#[test]
fn removal_keeps_the_branch_when_not_asked_to_delete_it() {
    let mut fake = FakeGit::fixture();
    let path = b"/tmp/fixture/worktree feature-kept".to_vec();
    fake.add_linked_worktree(&path, "feature/kept");

    removal(&mut fake, &path, "feature/kept", false, false).unwrap();

    assert!(fake.local_branches.iter().any(|(n, _)| n == "feature/kept"));
    assert!(!fake.seen.iter().any(|q| matches!(q, GitRequest::Run { command } if texts(command)[0] == "update-ref")));
}

#[test]
fn removal_rejects_another_branch_before_changing_anything() {
    let mut fake = FakeGit::fixture();
    let path = b"/tmp/fixture/worktree feature-x".to_vec();
    fake.add_linked_worktree(&path, "feature/x");

    let error = removal(&mut fake, &path, "feature/y", true, true).unwrap_err();

    assert!(matches!(error, GitWorkspaceError::WorktreeBranchMismatch { expected, actual } if expected == "feature/y" && actual == "feature/x"));
    assert!(!fake.seen.iter().any(|q| matches!(q, GitRequest::Run { command } if texts(command)[0] == "worktree" && texts(command)[1] == "remove")));
}

#[test]
fn removal_failure_keeps_the_branch() {
    let mut fake = FakeGit::fixture();
    fake.removal_fails = true;
    let path = b"/tmp/fixture/worktree feature-stuck".to_vec();
    fake.add_linked_worktree(&path, "feature/stuck");

    let error = removal(&mut fake, &path, "feature/stuck", true, false).unwrap_err();

    assert!(matches!(error, GitWorkspaceError::CommandFailed { ref operation, .. } if operation == "remove worktree"));
    assert!(fake.local_branches.iter().any(|(n, _)| n == "feature/stuck"));
    assert!(fake.seen.iter().any(|q| matches!(q, GitRequest::AbortRefTransaction)));
    assert!(!fake.seen.iter().any(|q| matches!(q, GitRequest::CommitRefTransaction)));
}

#[test]
fn preflight_of_an_unregistered_worktree_fails() {
    let mut fake = FakeGit::fixture();
    let path = b"/tmp/fixture/nowhere".to_vec();

    let error = drive(&mut fake, Preflight::start(&ROOT.to_vec(), &path, false), |m, r| m.step(r)).unwrap_err();

    assert!(matches!(error, GitWorkspaceError::WorktreeNotFound { path: p } if p == path));
}

fn create_from_remote(fake: &mut FakeGit, path: &[u8]) -> Result<(), GitWorkspaceError> {
    drive(fake, RemoteCreation::start(&ROOT.to_vec(), "refs/remotes/origin/main", "feature/new", &path.to_vec()), |m, r| m.step(r))
}

fn deletes_a_ref(q: &GitRequest) -> bool {
    matches!(q, GitRequest::Run { command } if texts(command).first().map(String::as_str) == Some("update-ref"))
}

#[test]
fn failed_creation_from_remote_keeps_the_branch_and_reports_what_remains() {
    let mut fake = FakeGit::fixture();
    let path = b"/tmp/fixture/new worktree".to_vec();

    let error = create_from_remote(&mut fake, &path).unwrap_err();

    match error {
        GitWorkspaceError::WorktreeCreationFailed {
            worktree_path,
            branch,
            create_error,
            branch_may_remain,
            worktree_registered,
            claimed_directory_removed,
            cleanup_error,
        } => {
            assert_eq!(worktree_path, path);
            assert_eq!(branch, "feature/new");
            assert!(matches!(*create_error, GitWorkspaceError::CommandFailed { ref operation, ref stderr, .. }
                if operation == "create worktree from remote" && stderr == "fatal: could not create work tree dir"));
            assert!(branch_may_remain);
            assert!(!worktree_registered);
            assert!(claimed_directory_removed);
            assert!(cleanup_error.is_none());
        },
        other => panic!("unexpected error {other:?}"),
    }
    assert!(fake.local_branches.iter().any(|(n, _)| n == "feature/new"));
    assert!(!fake.existing.contains(&path));
    assert!(!fake.seen.iter().any(deletes_a_ref));
}

#[test]
fn failed_creation_keeps_a_directory_git_registered() {
    let mut fake = FakeGit::fixture();
    fake.failed_add_registers = true;
    let path = b"/tmp/fixture/registered".to_vec();

    let error = create_from_remote(&mut fake, &path).unwrap_err();

    assert!(matches!(error, GitWorkspaceError::WorktreeCreationFailed { worktree_registered: true, claimed_directory_removed: false, .. }));
    assert!(fake.existing.contains(&path));
    assert!(!fake.seen.iter().any(|q| matches!(q, GitRequest::RemoveEmptyDirectory { .. })));
    assert!(!fake.seen.iter().any(deletes_a_ref));
}

#[test]
fn creation_from_remote_claims_the_path_and_verifies_the_new_branch() {
    let mut fake = FakeGit::fixture();
    fake.add_fails = false;
    let path = b"/tmp/fixture/created".to_vec();

    create_from_remote(&mut fake, &path).unwrap();

    let claim = fake.seen.iter().position(|q| matches!(q, GitRequest::ClaimDirectory { path: p } if *p == path)).unwrap();
    let add = fake
        .seen
        .iter()
        .position(|q| matches!(q, GitRequest::Run { command } if texts(command).starts_with(&["worktree".to_string(), "add".to_string(), "--no-track".to_string()])))
        .unwrap();
    let recheck = fake.seen.iter().position(|q| matches!(q, GitRequest::CheckDirectory { path: p } if *p == path)).unwrap();
    assert!(claim < recheck && recheck < add);
    assert!(fake.local_branches.contains(&("feature/new".to_string(), MAIN_OID.to_string())));
    assert!(!fake.seen.iter().any(deletes_a_ref));
}

#[test]
fn creation_from_remote_rejects_a_branch_that_gained_an_upstream() {
    let mut fake = FakeGit::fixture();
    fake.add_fails = false;
    fake.upstreams.push(("refs/heads/feature/new".to_string(), "refs/remotes/origin/main".to_string()));
    let path = b"/tmp/fixture/tracked".to_vec();

    let error = create_from_remote(&mut fake, &path).unwrap_err();

    match error {
        GitWorkspaceError::WorktreeCreationVerificationFailed { worktree_path, branch, expected_oid, verification_error } => {
            assert_eq!(worktree_path, path);
            assert_eq!(branch, "feature/new");
            assert_eq!(expected_oid, MAIN_OID);
            assert!(matches!(*verification_error, GitWorkspaceError::UnexpectedUpstream { ref upstream, .. } if upstream == "refs/remotes/origin/main"));
        },
        other => panic!("unexpected error {other:?}"),
    }
    assert!(fake.existing.contains(&path));
    assert!(fake.local_branches.iter().any(|(n, _)| n == "feature/new"));
}

#[test]
fn creation_from_remote_does_not_take_over_a_directory_created_meanwhile() {
    let mut fake = FakeGit::fixture();
    fake.add_fails = false;
    let path = b"/tmp/fixture/raced".to_vec();
    fake.existing.push(path.clone());

    let error = create_from_remote(&mut fake, &path).unwrap_err();

    assert!(matches!(error, GitWorkspaceError::TargetExists { path: ref p } if *p == path));
    assert!(!fake.seen.iter().any(|q| matches!(q, GitRequest::Run { command } if texts(command).starts_with(&["worktree".to_string(), "add".to_string()]))));
    assert!(!fake.local_branches.iter().any(|(n, _)| n == "feature/new"));
}

#[test]
fn creation_from_remote_stops_when_the_claimed_directory_was_replaced() {
    let mut fake = FakeGit::fixture();
    fake.add_fails = false;
    fake.claim_replaced = true;
    let path = b"/tmp/fixture/replaced".to_vec();

    let error = create_from_remote(&mut fake, &path).unwrap_err();

    assert!(matches!(error, GitWorkspaceError::ClaimedTargetChanged { path: ref p } if *p == path));
    assert_eq!(error.message(), "claimed worktree target `/tmp/fixture/replaced` is no longer a directory");
    assert!(!fake.seen.iter().any(|q| matches!(q, GitRequest::Run { command } if texts(command).starts_with(&["worktree".to_string(), "add".to_string()]))));
    assert!(!fake.seen.iter().any(|q| matches!(q, GitRequest::RemoveEmptyDirectory { .. })));
    assert!(!fake.local_branches.iter().any(|(n, _)| n == "feature/new"));
}

#[test]
fn creation_from_remote_rejects_an_existing_branch() {
    let mut fake = FakeGit::fixture();
    let error = drive(
        &mut fake,
        RemoteCreation::start(&ROOT.to_vec(), "refs/remotes/origin/main", "main", &b"/tmp/fixture/x".to_vec()),
        |m, r| m.step(r),
    )
    .unwrap_err();
    assert!(matches!(error, GitWorkspaceError::BranchAlreadyExists { branch } if branch == "main"));
}

#[test]
fn creation_from_remote_rejects_local_refs() {
    let mut fake = FakeGit::fixture();
    let error = drive(
        &mut fake,
        RemoteCreation::start(&ROOT.to_vec(), "refs/heads/main", "feature/z", &b"/tmp/fixture/z".to_vec()),
        |m, r| m.step(r),
    )
    .unwrap_err();
    assert!(matches!(error, GitWorkspaceError::InvalidRemoteRef { full_ref } if full_ref == "refs/heads/main"));
}

#[test]
fn creation_from_local_rejects_a_branch_checked_out_elsewhere() {
    let mut fake = FakeGit::fixture();
    let error = drive(
        &mut fake,
        LocalCreation::start(&ROOT.to_vec(), "main", &b"/tmp/fixture/y".to_vec()),
        |m, r| m.step(r),
    )
    .unwrap_err();
    assert!(matches!(error, GitWorkspaceError::BranchAlreadyCheckedOut { branch, path } if branch == "main" && path == ROOT.to_vec()));
}

#[test]
fn creation_from_local_rejects_an_existing_target() {
    let mut fake = FakeGit::fixture();
    fake.local_branches.push(("spare".to_string(), MAIN_OID.to_string()));
    let target = b"/tmp/fixture/taken".to_vec();
    fake.existing.push(target.clone());
    let error = drive(&mut fake, LocalCreation::start(&ROOT.to_vec(), "spare", &target), |m, r| m.step(r)).unwrap_err();
    assert!(matches!(error, GitWorkspaceError::TargetExists { path } if path == target));
}

#[test]
fn debug_rendering_matches_the_derived_debug_form() {
    let failed = || GitWorkspaceError::CommandFailed {
        operation: "delete branch".to_string(),
        args: vec!["update-ref".to_string(), "-d".to_string()],
        stderr: "locked \"ref\"".to_string(),
    };
    let inner = failed();
    let error = GitWorkspaceError::BranchDeleteFailed {
        worktree_path: b"/w".to_vec(),
        worktree_removed: true,
        branch: "feature".to_string(),
        expected_oid: "abc".to_string(),
        actual_oid: Some("def".to_string()),
        actual_symbolic_target: None,
        delete_error: Box::new(failed()),
        inspection_error: Some(Box::new(GitWorkspaceError::BranchNotFound { full_ref: "refs/heads/feature".to_string() })),
    };

    assert_eq!(inner.debug_rendering(), format!("{:?}", inner));
    assert_eq!(error.debug_rendering(), format!("{:?}", error));
    assert_eq!(
        GitWorkspaceError::TargetExists { path: vec![] }.debug_rendering(),
        "TargetExists { path: [] }"
    );
}

#[test]
fn branch_cleanup_message_shows_the_inspection_error_in_debug_form() {
    let error = GitWorkspaceError::BranchCleanupFailed {
        full_ref: "refs/heads/feature".to_string(),
        expected_oid: "abc".to_string(),
        actual_oid: None,
        actual_symbolic_target: Some("refs/heads/main".to_string()),
        delete_error: Box::new(GitWorkspaceError::BranchNotFound { full_ref: "refs/heads/feature".to_string() }),
        inspection_error: Some(Box::new(GitWorkspaceError::InvalidUtf8 { operation: "read ref".to_string() })),
    };

    assert_eq!(
        error.message(),
        "failed to clean up branch ref `refs/heads/feature` at expected OID abc: branch ref `refs/heads/feature` does not exist; current direct OID None, symbolic target Some(\"refs/heads/main\"), inspection error Some(InvalidUtf8 { operation: \"read ref\" })"
    );
}

#[test]
fn repository_name_from_parsed_takes_the_last_nonempty_segment() {
    let segments = |parts: &[&str]| Some(Some(parts.iter().map(|p| p.to_string()).collect::<Vec<_>>()));
    assert_eq!(repository_name_from_parsed("https://h/acme/widgets.git/", segments(&["acme", "widgets.git", ""])).unwrap(), "widgets");
    assert!(matches!(
        repository_name_from_parsed("https://h/", segments(&[""])),
        Err(GitWorkspaceError::RepositoryNameMissing { .. })
    ));
    assert!(repository_name_from_parsed("mailto:a", Some(None)).is_err());
    assert_eq!(repository_name_from_parsed("  git@host:team/repo.git ", None).unwrap(), "repo");
    assert_eq!(
        repository_name_from_parsed(r"C:\repos\widgets.git", segments(&["ignored"])).unwrap(),
        "widgets"
    );
}

#[test]
fn replies_answer_only_their_kind_of_request() {
    let run = GitRequest::Run {
        command: GitCommand { repo: b"/r".to_vec(), operation: "list remotes".to_string(), args: vec![], display_args: vec![] },
    };
    let canonicalize = GitRequest::Canonicalize { path: b"/r".to_vec() };
    let ran = GitReply::Ran { outcome: GitOutcome::SpawnFailed { message: "no git".to_string() } };
    let canonical = GitReply::Canonical { path: b"/r".to_vec() };
    assert!(ran.answers(&run));
    assert!(!ran.answers(&canonicalize));
    assert!(canonical.answers(&canonicalize));
    assert!(!canonical.answers(&run));
    assert!(GitReply::TargetMissing.answers(&GitRequest::InspectTarget { path: b"/t".to_vec() }));
    assert!(!GitReply::DirectoryDone.answers(&GitRequest::CheckExists { path: b"/t".to_vec() }));
}

#[test]
fn missing_prunable_path_climbs_to_its_nearest_existing_ancestor() {
    let mut fake = FakeGit::fixture();
    let linked_path = b"/tmp/gone/deeper/wt".to_vec();
    fake.add_linked_worktree(&linked_path, "feature/deep");
    fake.worktree_output.truncate(fake.worktree_output.len() - 1);
    fake.worktree_output.extend_from_slice(b"prunable gone\0\0");
    fake.missing.push(linked_path.clone());
    fake.existing.push(b"/tmp".to_vec());
    fake.canonical.push((b"/tmp".to_vec(), b"/private/tmp".to_vec()));

    let worktrees = list_worktrees(&mut fake).unwrap();

    assert!(worktrees.iter().any(|w| w.path == b"/private/tmp/gone/deeper/wt".to_vec()));
}

#[test]
fn missing_path_of_a_worktree_that_is_not_prunable_is_an_error() {
    let mut fake = FakeGit::fixture();
    let linked_path = b"/tmp/fixture/vanished".to_vec();
    fake.add_linked_worktree(&linked_path, "feature/vanished");
    fake.missing.push(linked_path.clone());

    let error = list_worktrees(&mut fake).unwrap_err();

    assert!(matches!(error, GitWorkspaceError::Canonicalize { ref path, .. } if *path == linked_path));
    assert!(!fake.seen.iter().any(|q| matches!(q, GitRequest::CheckExists { .. })));
}

#[test]
fn reflog_generation_is_the_sha256_digest_of_the_bytes() {
    let digest = reflog_generation(b"hello world");
    let hex: String = digest.iter().map(|b| format!("{b:02x}")).collect();
    assert_eq!(hex, "b94d27b9934d3e08a52e52d7da7dabfac484efe37a5380ee9088f7ace2efcde9");
    assert_eq!(reflog_generation(b"").len(), 32);
}

#[test]
fn branch_delete_transaction_failure_renders_every_field() {
    let error = GitWorkspaceError::BranchDeleteTransactionFailed {
        worktree_path: b"/w".to_vec(),
        worktree_removed: true,
        branch_ref: "refs/heads/feature".to_string(),
        expected_oid: "abc".to_string(),
        merge_target: "refs/remotes/origin/main".to_string(),
        merge_target_oid: "def".to_string(),
        actual_oid: Some("abc".to_string()),
        actual_symbolic_target: None,
        transaction_error: Box::new(GitWorkspaceError::RefTransactionFailed { stage: "commit".to_string(), message: "gone".to_string() }),
        inspection_error: None,
    };

    assert_eq!(error.debug_rendering(), format!("{:?}", error));
    assert_eq!(
        error.message(),
        "worktree `/w` was removed, but the ref transaction deleting `refs/heads/feature` at expected OID abc \
         (merge target `refs/remotes/origin/main` at def) failed: ref transaction failed to commit: gone; \
         current direct OID Some(\"abc\"), symbolic target None, inspection error None"
    );
}
