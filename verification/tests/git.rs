use phodex_bridge::desktop::handle_desktop_request;
use phodex_bridge::git_handler::{handle_git_request, RequestStep};
use phodex_bridge::git_text::{
    compute_state, ensure_trailing_newline, find_stash_ref_by_label, git_failure_message, git_reply,
    normalize_branch_list_entry, normalize_created_branch_name, normalize_worktree_branch_ref,
    parse_branch_from_status, parse_branch_list, parse_numstat_totals, parse_owner_repo,
    parse_rev_list_counts, parse_tracking_from_status, parse_worktree_list,
    regex_like_commit_header, status_reply, summarize_commit,
};
use phodex_bridge::json::{parse_json, print_json, Json};
use phodex_bridge::script::Action;
use phodex_bridge::workspace::{
    analyze_unified_patch, handle_workspace_request, normalize_diff_path, parse_apply_conflicts,
    RepoLocks,
};

/// A repository that answers git by what it was told to answer.
struct Repo {
    answers: Vec<(&'static str, Result<String, String>)>,
    directories: Vec<&'static str>,
    asked: Vec<String>,
}

impl Repo {
    fn new() -> Repo {
        Repo {
            answers: Vec::new(),
            directories: vec!["/repo"],
            asked: Vec::new(),
        }
    }

    fn on(mut self, args: &'static str, output: &str) -> Repo {
        self.answers.push((args, Ok(output.to_owned())));
        self
    }

    fn fails(mut self, args: &'static str, error: &str) -> Repo {
        self.answers.push((args, Err(error.to_owned())));
        self
    }

    fn git(&self, line: &str) -> Result<String, String> {
        for (args, answer) in &self.answers {
            if line.starts_with(args) {
                return answer.clone();
            }
        }
        Err("git command failed".to_owned())
    }

    fn perform(&mut self, action: Action) -> Result<String, String> {
        self.asked.push(format!("{action:?}"));
        match action {
            Action::Git { args, .. } => self.git(&args.join(" ")),
            Action::GitApply { args, .. } => self.git(&args.join(" ")),
            Action::Open { url, .. } => self.git(&url),
            Action::LockRepo(_) => self.git("lock"),
            Action::Canonicalize(path) => Ok(path),
            Action::IsDir(path) => {
                if self.directories.contains(&path.as_str()) {
                    Ok(String::new())
                } else {
                    Err(String::new())
                }
            }
            Action::Exists(_) => Err(String::new()),
            Action::CreateDirs(_)
            | Action::RemoveTree(_)
            | Action::WriteFile { .. }
            | Action::RemoveFile(_) => Ok(String::new()),
            Action::FreshToken => Ok("0123456789abcdef0123456789abcdef".to_owned()),
            Action::TempDir => Ok("/tmp".to_owned()),
            Action::CodexHome => Ok("/home/me/.codex".to_owned()),
        }
    }

    fn run(
        &mut self,
        step: fn(&str, &Json, Vec<Result<String, String>>) -> RequestStep,
        method: &str,
        params: &str,
    ) -> Option<Result<Json, String>> {
        let params = parse_json(params).unwrap();
        let mut replies: Vec<Result<String, String>> = Vec::new();
        loop {
            assert!(replies.len() < 200);
            match step(method, &params, replies.clone()) {
                RequestStep::Ask(action) => {
                    let reply = self.perform(action);
                    replies.push(reply);
                }
                RequestStep::Done(result) => return result,
            }
        }
    }

    fn request(&mut self, method: &str, params: &str) -> Result<Json, String> {
        self.run(handle_git_request, method, params).unwrap()
    }

    fn error(&mut self, method: &str, params: &str) -> String {
        match self.request(method, params) {
            Ok(value) => panic!("unexpected answer {value:?}"),
            Err(error) => error,
        }
    }

    fn did(&self, words: &str) -> bool {
        self.asked.iter().any(|asked| asked.contains(words))
    }
}

const CWD: &str = r#"{"cwd":"/repo"}"#;

fn tracked_repo() -> Repo {
    Repo::new()
        .on(
            "status --porcelain",
            "## main...origin/main [ahead 2]\n M src/lib.rs\n?? notes.txt\n",
        )
        .on("rev-list --left-right", "2\t1\n")
        .on("show-ref --verify --quiet refs/remotes/origin/main", "")
        .on("show-ref --verify --quiet refs/heads/main", "")
        .on("for-each-ref", "refs/remotes/origin/main\n")
        .on("rev-list --count HEAD --not --remotes", "2\n")
        .on("merge-base HEAD @{u}", "abc123\n")
        .on("diff --numstat abc123", "10\t3\tsrc/lib.rs\n-\t-\tlogo.png\n")
        .on("diff --no-index --numstat", "4\t0\tnotes.txt\n")
        .on("diff --binary --find-renames", "tracked patch\n")
        .on("diff --no-index --binary", "untracked patch\n")
        .on("rev-parse --show-toplevel", "/repo\n")
        .on("rev-parse --path-format=absolute --git-common-dir", "/repo/.git\n")
        .on("branch --no-color", "* main\n+ side\n  topic\n")
        .on(
            "worktree list --porcelain",
            "worktree /repo\nHEAD 1\nbranch refs/heads/main\n\nworktree /w/side\nHEAD 2\nbranch refs/heads/side\n",
        )
        .on("symbolic-ref", "refs/remotes/origin/main\n")
        .on("check-ref-format", "")
}

#[test]
fn status_tells_branch_files_and_totals() {
    let status = tracked_repo().request("git/status", CWD).unwrap();
    assert_eq!(status.get_str("repoRoot"), Some("/repo"));
    assert_eq!(status.get_str("branch"), Some("main"));
    assert_eq!(status.get_str("tracking"), Some("origin/main"));
    assert_eq!(status.get_bool("dirty"), Some(true));
    assert_eq!(status.get_u64("ahead"), Some(2));
    assert_eq!(status.get_u64("behind"), Some(1));
    assert_eq!(status.get_u64("localOnlyCommitCount"), Some(2));
    assert_eq!(status.get_str("state"), Some("dirty_and_behind"));
    assert_eq!(status.get_bool("canPush"), Some(true));
    assert_eq!(status.get_bool("publishedToRemote"), Some(true));
    assert_eq!(
        print_json(status.get("files").unwrap()),
        r#"[{"path":"src/lib.rs","status":"M"},{"path":"notes.txt","status":"??"}]"#
    );
    assert_eq!(
        print_json(status.get("diff").unwrap()),
        r#"{"additions":14,"binaryFiles":1,"deletions":3}"#
    );
}

#[test]
fn a_diff_holds_what_is_known_and_what_is_new() {
    let diff = tracked_repo().request("git/diff", CWD).unwrap();
    assert_eq!(
        diff.get_str("patch"),
        Some("tracked patch\n\nuntracked patch")
    );
}

#[test]
fn requests_need_a_directory_that_is_there() {
    assert_eq!(
        Repo::new().error("git/status", "{}"),
        "Git actions require a bound local working directory."
    );
    assert_eq!(
        Repo::new().error("git/status", r#"{"cwd":"/nowhere"}"#),
        "The requested local working directory does not exist on this Mac."
    );
    assert_eq!(
        Repo::new().error("git/unknown", CWD),
        "Unknown git method: git/unknown"
    );
    assert!(Repo::new().run(handle_git_request, "thread/read", CWD).is_none());
}

#[test]
fn a_commit_tells_its_hash() {
    let mut repo = tracked_repo()
        .on("add -A", "")
        .on("commit -m Fix it", "[main 1a2b3c4] Fix it\n 2 files changed, 3 insertions(+)\n");
    let commit = repo
        .request("git/commit", r#"{"cwd":"/repo","message":" Fix it "}"#)
        .unwrap();
    assert_eq!(
        print_json(&commit),
        r#"{"branch":"main","hash":"1a2b3c4]","summary":"2 files changed, 3 insertions(+)"}"#
    );
    assert_eq!(
        Repo::new().on("status --porcelain", "\n").error("git/commit", CWD),
        "Nothing to commit."
    );
}

#[test]
fn a_push_without_upstream_sets_one() {
    let mut repo = tracked_repo()
        .on("rev-parse --abbrev-ref HEAD", "main\n")
        .on("push --set-upstream origin main", "")
        .fails("push", "fatal: The current branch main has no upstream branch.");
    let pushed = repo.request("git/push", CWD).unwrap();
    assert_eq!(pushed.get_str("branch"), Some("main"));
    assert_eq!(pushed.get_str("remote"), Some("origin"));

    let mut repo = tracked_repo()
        .on("rev-parse --abbrev-ref HEAD", "main\n")
        .fails("push", "! [rejected] main");
    assert_eq!(
        repo.error("git/push", CWD),
        "Push rejected. Pull changes first."
    );
}

#[test]
fn a_pull_that_fails_is_taken_back() {
    let mut repo = tracked_repo().fails("pull --rebase", "CONFLICT in a.txt");
    assert_eq!(repo.error("git/pull", CWD), "CONFLICT in a.txt");
    assert!(repo.did("\"rebase\", \"--abort\""));
    let pulled = tracked_repo().on("pull", "").request("git/pull", CWD).unwrap();
    assert_eq!(pulled.get_bool("success"), Some(true));
}

#[test]
fn branches_are_sorted_and_the_default_is_named() {
    let branches = tracked_repo().request("git/branches", CWD).unwrap();
    assert_eq!(
        print_json(&branches),
        r#"{"branches":["main","side","topic"],"branchesCheckedOutElsewhere":["side"],"current":"main","default":"main","localCheckoutPath":"/repo","worktreePathByBranch":{"main":"/repo","side":"/w/side"}}"#
    );
    let both = tracked_repo().request("git/branchesWithStatus", CWD).unwrap();
    assert_eq!(both.get("status").unwrap().get_str("branch"), Some("main"));
}

#[test]
fn a_checkout_explains_why_it_fails() {
    let params = r#"{"cwd":"/repo","branch":"topic"}"#;
    assert_eq!(
        Repo::new().error("git/checkout", CWD),
        "Branch name is required."
    );
    assert_eq!(
        Repo::new()
            .fails("checkout", "error: Your local changes would be overwritten")
            .error("git/checkout", params),
        "Cannot switch branches: you have uncommitted changes."
    );
    assert_eq!(
        Repo::new()
            .fails("checkout", "fatal: 'topic' is already used by worktree at '/w'")
            .error("git/checkout", params),
        "Cannot switch branches: this branch is already open in another worktree."
    );
    let done = tracked_repo()
        .on("checkout topic", "")
        .request("git/checkout", params)
        .unwrap();
    assert_eq!(done.get_str("current"), Some("main"));
    assert_eq!(done.get_str("tracking"), Some("origin/main"));
}

#[test]
fn created_branches_have_a_namespace() {
    let params = r#"{"cwd":"/repo","name":"my new  feature"}"#;
    let mut repo = tracked_repo().on("checkout -b remodex/my-new-feature", "");
    let created = repo.request("git/createBranch", params).unwrap();
    assert_eq!(created.get_str("branch"), Some("remodex/my-new-feature"));
    assert_eq!(
        tracked_repo()
            .fails("checkout -b", "fatal: a branch named 'x' already exists")
            .error("git/createBranch", params),
        "Branch 'remodex/my-new-feature' already exists."
    );
    assert_eq!(
        tracked_repo()
            .on("show-ref --verify --quiet refs/remotes/origin/remodex/my-new-feature", "")
            .error("git/createBranch", params),
        "Branch 'remodex/my-new-feature' already exists on origin. Check it out locally instead of creating a new branch."
    );
    assert_eq!(
        Repo::new().error("git/createBranch", params),
        "Branch 'remodex/my-new-feature' is not a valid Git branch name."
    );
    assert_eq!(
        Repo::new().error("git/createBranch", CWD),
        "Branch name is required."
    );
}

#[test]
fn a_worktree_takes_the_changes_along() {
    let params = r#"{"cwd":"/repo","name":"feature"}"#;
    let mut repo = tracked_repo()
        .on("worktree add -b remodex/feature", "")
        .on("stash push", "Saved working directory")
        .on(
            "stash list",
            "stash@{0}\0On main: remodex-worktree-handoff-0123456789abcdef0123456789abcdef\n",
        )
        .on("stash pop stash@{0}", "");
    let made = repo.request("git/createWorktree", params).unwrap();
    assert_eq!(
        print_json(&made),
        r#"{"alreadyExisted":false,"branch":"remodex/feature","worktreePath":"/home/me/.codex/worktrees/0123/repo"}"#
    );
    assert!(repo.did("\"stash\", \"pop\", \"stash@{0}\""));
    assert!(repo.did("CreateDirs(\"/home/me/.codex/worktrees/0123\")"));
}

#[test]
fn a_worktree_can_get_a_copy_of_the_changes() {
    let params = r#"{"cwd":"/repo","name":"feature","changeTransfer":"copy"}"#;
    let mut repo = tracked_repo()
        .on("worktree add", "")
        .on("apply --binary --whitespace=nowarn", "");
    let made = repo.request("git/createWorktree", params).unwrap();
    assert_eq!(made.get_bool("alreadyExisted"), Some(false));
    assert!(!repo.did("stash"));
    assert!(repo.did("contents: \"tracked patch\\n\\nuntracked patch\\n\""));
    assert!(repo.did("RemoveFile(\"/tmp/remodex-worktree-copy-"));
}

#[test]
fn worktrees_are_refused_with_their_reason() {
    let params = r#"{"cwd":"/repo","name":"feature"}"#;
    assert_eq!(
        tracked_repo().error("git/createWorktree", r#"{"cwd":"/repo","name":"f","baseBranch":"gone"}"#),
        "Base branch 'gone' is not available locally. Create or check out that branch first."
    );
    assert_eq!(
        tracked_repo()
            .on("show-ref --verify --quiet refs/heads/topic", "")
            .error("git/createWorktree", r#"{"cwd":"/repo","name":"f","baseBranch":"topic"}"#),
        "Uncommitted changes can move into a new worktree only from main. Switch the base branch to match or clean up local changes first."
    );
    assert_eq!(
        tracked_repo()
            .on("show-ref --verify --quiet refs/heads/remodex/feature", "")
            .error("git/createWorktree", params),
        "Branch 'remodex/feature' already exists locally. Choose another name or open that branch instead."
    );
    let mut repo = tracked_repo().fails("worktree add", "fatal: invalid reference: main");
    assert_eq!(
        repo.error("git/createWorktree", params),
        "Base branch 'main' does not exist."
    );
    assert!(repo.did("RemoveTree(\"/home/me/.codex/worktrees/0123\")"));
    assert_eq!(
        tracked_repo()
            .fails("worktree add", "fatal: 'x' is already checked out at '/w'")
            .error("git/createWorktree", params),
        "Branch 'remodex/feature' is already open in another worktree."
    );
}

#[test]
fn only_managed_worktrees_are_removed() {
    assert_eq!(
        tracked_repo().error("git/removeWorktree", CWD),
        "Cannot remove the main local checkout."
    );
    let elsewhere = Repo::new()
        .on("rev-parse --show-toplevel", "/w/side\n")
        .on("rev-parse --path-format=absolute --git-common-dir", "/repo/.git\n");
    let mut elsewhere = elsewhere;
    assert_eq!(
        elsewhere.error("git/removeWorktree", CWD),
        "Only managed worktrees can be removed automatically."
    );
    let mut managed = Repo::new()
        .on("rev-parse --show-toplevel", "/home/me/.codex/worktrees/0123/repo\n")
        .on("rev-parse --path-format=absolute --git-common-dir", "/repo/.git\n")
        .on("worktree remove", "")
        .on("branch -D", "");
    let removed = managed
        .request("git/removeWorktree", r#"{"cwd":"/repo","branch":"remodex/feature"}"#)
        .unwrap();
    assert_eq!(removed.get_bool("success"), Some(true));
    assert!(managed.did("\"branch\", \"-D\", \"remodex/feature\""));
    assert!(managed.did("RemoveTree(\"/home/me/.codex/worktrees/0123\")"));
}

#[test]
fn a_reset_has_to_be_confirmed() {
    let mut repo = tracked_repo();
    assert_eq!(
        repo.error("git/resetToRemote", CWD),
        "This action requires params.confirm === \"discard_runtime_changes\"."
    );
    assert!(!repo.did("reset"));
    let mut repo = tracked_repo()
        .on("rev-parse --abbrev-ref --symbolic-full-name @{u}", "origin/main\n")
        .on("fetch", "")
        .on("reset --hard @{u}", "")
        .on("clean -fd", "");
    let done = repo
        .request(
            "git/resetToRemote",
            r#"{"cwd":"/repo","confirm":"discard_runtime_changes"}"#,
        )
        .unwrap();
    assert_eq!(done.get_bool("success"), Some(true));
    assert!(repo.did("\"reset\", \"--hard\", \"@{u}\""));
}

#[test]
fn the_address_of_the_remote_names_owner_and_repository() {
    let url = Repo::new()
        .on("config --get remote.origin.url", "git@github.com:owner/repo.git\n")
        .request("git/remoteUrl", CWD)
        .unwrap();
    assert_eq!(
        print_json(&url),
        r#"{"ownerRepo":"owner/repo","url":"git@github.com:owner/repo.git"}"#
    );
}

#[test]
fn replies_that_nobody_asked_for_change_nothing() {
    let params = parse_json(CWD).unwrap();
    let replies = vec![Ok(String::new()), Ok("git@github.com:a/b.git\n".to_owned())];
    let mut more = replies.clone();
    more.push(Err("other".to_owned()));
    let answer = |replies: Vec<Result<String, String>>| {
        match handle_git_request("git/remoteUrl", &params, replies) {
            RequestStep::Done(Some(Ok(value))) => print_json(&value),
            other => panic!("unexpected step {other:?}"),
        }
    };
    assert_eq!(answer(replies), answer(more));
    match handle_git_request("git/remoteUrl", &params, vec![]) {
        RequestStep::Ask(action) => assert_eq!(action, Action::IsDir("/repo".to_owned())),
        other => panic!("unexpected step {other:?}"),
    }
}

// What git prints.

#[test]
fn status_lines_are_read() {
    assert_eq!(
        parse_branch_from_status("## main...origin/main [behind 1]"),
        Some("main".to_owned())
    );
    assert_eq!(parse_branch_from_status("## HEAD (no branch)"), None);
    assert_eq!(parse_branch_from_status("main"), None);
    assert_eq!(
        parse_tracking_from_status("## main...origin/main [behind 1]"),
        Some("origin/main".to_owned())
    );
    assert_eq!(parse_tracking_from_status("## main"), None);
    assert_eq!(parse_rev_list_counts("3\t4\n"), (3, 4));
    assert_eq!(parse_rev_list_counts("x"), (0, 0));
    let totals = parse_numstat_totals("1\t2\ta\n-\t-\tb\n\n3\t4\tc\n");
    assert_eq!((totals.additions, totals.deletions, totals.binary_files), (4, 6, 1));
}

#[test]
fn states_are_told_by_the_worst_that_holds() {
    assert_eq!(compute_state(true, 0, 0, true, false), "detached_head");
    assert_eq!(compute_state(true, 0, 0, false, true), "no_upstream");
    assert_eq!(compute_state(true, 0, 1, false, false), "dirty_and_behind");
    assert_eq!(compute_state(true, 1, 0, false, false), "dirty");
    assert_eq!(compute_state(false, 1, 1, false, false), "diverged");
    assert_eq!(compute_state(false, 0, 1, false, false), "behind_only");
    assert_eq!(compute_state(false, 1, 0, false, false), "ahead_only");
    assert_eq!(compute_state(false, 0, 0, false, false), "up_to_date");
}

#[test]
fn branches_are_listed_once() {
    let listed = parse_branch_list("+ side\n  main\n* (HEAD detached at 1a2b)\n  main\n+ side\n");
    assert_eq!(listed.current, "HEAD");
    assert_eq!(listed.branches, vec!["side", "main"]);
    assert_eq!(listed.elsewhere, vec!["side"]);
    let listed = parse_branch_list("  main\n* topic\n  (no branch)\n");
    assert_eq!(listed.current, "topic");
    assert_eq!(listed.branches, vec!["main", "topic"]);
}

#[test]
fn names_of_branches_are_normalized() {
    assert_eq!(normalize_created_branch_name("  "), "");
    assert_eq!(normalize_created_branch_name("a b / c"), "remodex/a-b/c");
    assert_eq!(normalize_created_branch_name("remodex/x y"), "remodex/x-y");
    assert_eq!(normalize_created_branch_name(" a\t b /\u{a0} c\n"), "remodex/a-b/c");
    let name = normalize_created_branch_name("a b");
    assert_eq!(normalize_created_branch_name(&name), name);
    assert_eq!(
        normalize_worktree_branch_ref("refs/heads/main"),
        Some("main".to_owned())
    );
    assert_eq!(normalize_worktree_branch_ref("refs/tags/v1"), None);
    assert_eq!(
        normalize_branch_list_entry("+ side"),
        Some((false, true, "side".to_owned()))
    );
    assert_eq!(
        normalize_branch_list_entry("* main"),
        Some((true, false, "main".to_owned()))
    );
    assert_eq!(normalize_branch_list_entry("   "), None);
}

#[test]
fn the_rest_of_what_git_prints_is_read() {
    assert_eq!(
        parse_worktree_list("worktree /a\nbranch refs/heads/x\n\nworktree /b\ndetached\n"),
        vec![("x".to_owned(), "/a".to_owned())]
    );
    assert_eq!(
        regex_like_commit_header("[main 1a2b3c4] message"),
        ("main".to_owned(), "1a2b3c4]".to_owned())
    );
    assert_eq!(
        regex_like_commit_header("message"),
        (String::new(), String::new())
    );
    assert_eq!(summarize_commit("a\n 1 file changed\nb"), "1 file changed");
    assert_eq!(summarize_commit("a\nb"), "b");
    assert_eq!(
        find_stash_ref_by_label("stash@{0}\0On main: other\nstash@{1}\0On main: mine\n", "mine"),
        Some("stash@{1}".to_owned())
    );
    assert_eq!(find_stash_ref_by_label("", "mine"), None);
    assert_eq!(
        parse_owner_repo("https://github.com"),
        Some("//github.com".to_owned())
    );
    assert_eq!(parse_owner_repo("plain"), None);
    assert_eq!(ensure_trailing_newline("a"), "a\n");
    assert_eq!(ensure_trailing_newline("a\n"), "a\n");
    assert_eq!(
        git_reply(true, false, false, "out".to_owned(), "err"),
        Ok("out".to_owned())
    );
    assert_eq!(
        git_reply(false, true, false, "out".to_owned(), " err "),
        Err("err".to_owned())
    );
    assert_eq!(
        git_reply(false, true, true, "out".to_owned(), "err"),
        Ok("out".to_owned())
    );
    assert_eq!(
        git_reply(false, false, true, "out".to_owned(), " "),
        Err(String::new())
    );
    assert_eq!(status_reply(true, "a", "b"), "0ab");
    assert_eq!(status_reply(false, "a", "b"), "1ab");
    assert_eq!(git_failure_message(" out ", " err "), "err");
    assert_eq!(git_failure_message(" out ", " "), "out");
    assert_eq!(git_failure_message("", ""), "git command failed");
}

// Reverting a patch.

const PATCH: &str = "diff --git a/src/a.rs b/src/a.rs\n--- a/src/a.rs\n+++ b/src/a.rs\n@@ -1 +1 @@\n-old\n+new\n";

fn patch_params(patch: &str) -> String {
    format!(
        "{{\"cwd\":\"/repo\",\"forwardPatch\":{}}}",
        print_json(&Json::text(patch))
    )
}

#[test]
fn patches_are_analyzed() {
    let analysis = analyze_unified_patch(PATCH);
    assert_eq!(analysis.affected_files, vec!["src/a.rs".to_owned()]);
    assert!(analysis.unsupported_reasons.is_empty());
    let twice = analyze_unified_patch(&format!("{PATCH}{PATCH}"));
    assert_eq!(twice.affected_files, vec!["src/a.rs".to_owned()]);
    let binary = analyze_unified_patch("diff --git a/x b/x\nBinary files a/x and b/x differ\n");
    assert_eq!(
        binary.unsupported_reasons,
        vec!["Binary changes are not auto-revertable in v1.".to_owned()]
    );
    let both = analyze_unified_patch(
        "diff --git a/x b/x\nBinary files a/x and b/x differ\ndiff --git a/y b/y\nBinary files a/y and b/y differ\n",
    );
    assert_eq!(both.unsupported_reasons, binary.unsupported_reasons);
    let renamed = analyze_unified_patch("diff --git a/x b/y\nrename from x\nrename to y\n");
    assert_eq!(
        renamed.unsupported_reasons,
        vec!["Rename, mode-only, or symlink changes are not auto-revertable in v1.".to_owned()]
    );
    let empty = analyze_unified_patch("  ");
    assert_eq!(
        empty.unsupported_reasons,
        vec!["No exact patch was captured.".to_owned()]
    );
    assert_eq!(normalize_diff_path("b/src/x.rs"), Some("src/x.rs".to_owned()));
    assert_eq!(normalize_diff_path("src/x.rs"), Some("src/x.rs".to_owned()));
    assert_eq!(normalize_diff_path(" "), None);
}

#[test]
fn a_preview_tells_whether_the_patch_can_be_reverted() {
    let mut repo = tracked_repo()
        .on("diff --name-only --cached", "")
        .on("apply --reverse --check", "0");
    let preview = repo
        .run(handle_workspace_request, "workspace/revertPatchPreview", &patch_params(PATCH))
        .unwrap()
        .unwrap();
    assert_eq!(
        print_json(&preview),
        r#"{"affectedFiles":["src/a.rs"],"canRevert":true,"conflicts":[],"stagedFiles":[],"unsupportedReasons":[]}"#
    );

    let mut staged = tracked_repo().on("diff --name-only --cached", "src/a.rs\n");
    let preview = staged
        .run(handle_workspace_request, "workspace/revertPatchPreview", &patch_params(PATCH))
        .unwrap()
        .unwrap();
    assert_eq!(preview.get_bool("canRevert"), Some(false));
    assert_eq!(print_json(preview.get("stagedFiles").unwrap()), r#"["src/a.rs"]"#);
    assert!(!staged.did("GitApply"));
}

#[test]
fn a_patch_is_reverted_only_where_the_preview_allows_it() {
    let mut repo = tracked_repo()
        .on("lock", "")
        .on("diff --name-only --cached", "")
        .on("apply --reverse --check", "0")
        .on("apply --reverse", "0");
    let done = repo
        .run(handle_workspace_request, "workspace/revertPatchApply", &patch_params(PATCH))
        .unwrap()
        .unwrap();
    assert_eq!(done.get_bool("success"), Some(true));
    assert_eq!(print_json(done.get("revertedFiles").unwrap()), r#"["src/a.rs"]"#);
    assert_eq!(done.get("status").unwrap().get_str("branch"), Some("main"));

    let mut conflicting = tracked_repo()
        .on("lock", "")
        .on("diff --name-only --cached", "")
        .on("apply --reverse --check", "1error: patch failed: src/a.rs:1\n");
    let refused = conflicting
        .run(handle_workspace_request, "workspace/revertPatchApply", &patch_params(PATCH))
        .unwrap()
        .unwrap();
    assert_eq!(refused.get_bool("success"), Some(false));
    assert!(!refused.get("conflicts").unwrap().as_array().unwrap().is_empty());
    assert_eq!(
        conflicting
            .asked
            .iter()
            .filter(|asked| asked.contains("GitApply"))
            .count(),
        1
    );

    let missing = tracked_repo()
        .on("lock", "")
        .run(handle_workspace_request, "workspace/revertPatchPreview", CWD)
        .unwrap();
    assert_eq!(
        missing.unwrap_err(),
        "The request must include a non-empty forwardPatch."
    );
    assert!(tracked_repo()
        .run(handle_workspace_request, "git/status", CWD)
        .is_none());
}

#[test]
fn a_patch_without_a_file_is_not_reverted() {
    let mut repo = tracked_repo();
    let preview = repo
        .run(handle_workspace_request, "workspace/revertPatchPreview", &patch_params("nothing"))
        .unwrap()
        .unwrap();
    assert_eq!(preview.get_bool("canRevert"), Some(false));
    assert_eq!(
        print_json(preview.get("unsupportedReasons").unwrap()),
        r#"["No exact patch was captured."]"#
    );
    assert!(!repo.did("GitApply"));
}

#[test]
fn conflicts_name_the_file() {
    let conflicts = parse_apply_conflicts("error: patch failed: src/a.rs:1\nerror: src/a.rs: patch does not apply\n");
    assert!(!conflicts.is_empty());
    assert!(conflicts
        .iter()
        .any(|conflict| conflict.get_str("path") == Some("src/a.rs")));
    assert!(parse_apply_conflicts("").len() <= 1);
}

#[test]
fn a_repository_is_changed_by_one_request_at_a_time() {
    let mut locks = RepoLocks::new();
    assert!(locks.acquire("/repo").is_ok());
    assert!(locks.acquire("/repo").is_err());
    assert!(locks.acquire("/other").is_ok());
    locks.release("/repo");
    assert!(locks.acquire("/repo").is_ok());
}

// Continuing on the desktop.

#[test]
fn a_thread_is_opened_on_the_desktop() {
    let mut mac = Repo::new().on("codex://threads/thread-1", "0");
    let opened = mac
        .run(handle_desktop_request, "desktop/continueOnMac", r#"{"threadId":"thread-1"}"#)
        .unwrap()
        .unwrap();
    assert_eq!(
        print_json(&opened),
        r#"{"desktopKnown":true,"relaunched":false,"success":true,"targetUrl":"codex://threads/thread-1","threadId":"thread-1"}"#
    );
    let mut broken = Repo::new().on("codex://threads/thread-1", "1");
    assert_eq!(
        broken
            .run(handle_desktop_request, "desktop/continueOnMac", r#"{"threadId":"thread-1"}"#)
            .unwrap()
            .unwrap_err(),
        "Could not open Codex.app on this Mac."
    );
    assert_eq!(
        Repo::new()
            .run(handle_desktop_request, "desktop/continueOnMac", "{}")
            .unwrap()
            .unwrap_err(),
        "A thread id is required to continue on Mac."
    );
    assert!(Repo::new()
        .run(handle_desktop_request, "other", "{}")
        .is_none());
}
