//! The git requests of the phone.
//!
//! Each request is a script: which git commands are run, what is made of their output, and what
//! the phone is answered.
use vstd::prelude::*;

use crate::git_text::{
    add_totals, ahead_and_behind, commit_header, commit_summary, compute_state,
    created_branch_name, ensure_trailing_newline, files_from_status, find_stash_ref_by_label,
    list_branches, normalize_created_branch_name, number_from, number_in, numstat_totals,
    owner_repo, parse_branch_from_status, parse_branch_list, parse_numstat_totals,
    parse_owner_repo, parse_rev_list_counts, parse_tracking_from_status, parse_worktree_list,
    pairs_view, regex_like_commit_header, stash_ref, state_word, status_branch, status_files,
    status_tracking, summarize_commit, totals_json, totals_plus, totals_view,
    untracked_from_status, untracked_paths, with_newline, worktrees, zero_totals, DiffTotals,
};
use crate::json::{
    number, opt_text, or_else, or_empty, text_array, Json, JsonObject, JsonView,
};
use crate::path::{
    components, file_name_of, join_path, lies_below, lies_in, parent_of, path_below,
    path_file_name, path_join, path_parent, relative_path,
};
use crate::script::{
    args2, args3, args4, args5, args6, ask, bind, git, git_lenient, json_result, normalized_path,
    ran, replies_of, same_file_path, text_result, try_bind, Action, ActionView, Reply, Run, Script,
};
use crate::text::{
    blank, chars_to, concat2, concat3, contains, contains_text, has_prefix, is_blank, join,
    join_texts, keep_nonblank, lines, lines_of, non_blank, nonblank_lines, nonblank_lines_of,
    nonblank_pred, sort_texts, sorted, starts_with, take_chars, text_eq, trim, trim_non_blank,
    trim_start_matches, trim_start_text, trimmed, };

verus! {

/// The answer to a request: a value, or what went wrong.
pub type Answer = Result<JsonView, Seq<char>>;

// Small questions.

/// The root of the working copy.
pub open spec fn repo_root(cwd: Seq<char>, rest: Seq<Reply>) -> Run<Reply> {
    try_bind(
        git(cwd, seq!["rev-parse"@, "--show-toplevel"@], rest),
        |output: Seq<char>, rest: Seq<Reply>| Run::Got(Ok(trimmed(output)), rest),
    )
}

fn resolve_repo_root(cwd: &str, script: &mut Script) -> (r: Option<Result<String, String>>)
    requires
        old(script).wf(),
    ensures
        final(script).wf(),
        ran(repo_root(cwd@, old(script)@.rest), text_result(r), final(script)@),
{
    match script.git(cwd, args2("rev-parse", "--show-toplevel")) {
        Some(Ok(output)) => Some(Ok(trim(output.as_str()))),
        Some(Err(error)) => Some(Err(error)),
        None => None,
    }
}

/// The root of the checkout that worktrees were split off from.
pub open spec fn local_checkout_root(cwd: Seq<char>, rest: Seq<Reply>) -> Run<Reply> {
    try_bind(
        git(
            cwd,
            seq!["rev-parse"@, "--path-format=absolute"@, "--git-common-dir"@],
            rest,
        ),
        |output: Seq<char>, rest: Seq<Reply>|
            {
                let common_dir = trimmed(output);
                if path_file_name(common_dir) != Some(".git"@) {
                    repo_root(cwd, rest)
                } else {
                    Run::Got(
                        Ok(
                            match path_parent(common_dir) {
                                Some(parent) => parent,
                                None => common_dir,
                            },
                        ),
                        rest,
                    )
                }
            },
    )
}

fn resolve_local_checkout_root(cwd: &str, script: &mut Script) -> (r: Option<
    Result<String, String>,
>)
    requires
        old(script).wf(),
    ensures
        final(script).wf(),
        ran(local_checkout_root(cwd@, old(script)@.rest), text_result(r), final(script)@),
{
    match script.git(cwd, args3("rev-parse", "--path-format=absolute", "--git-common-dir")) {
        Some(Ok(output)) => {
            let common_dir = trim(output.as_str());
            let is_git_dir = match file_name_of(common_dir.as_str()) {
                Some(name) => text_eq(name.as_str(), ".git"),
                None => false,
            };
            if !is_git_dir {
                resolve_repo_root(cwd, script)
            } else {
                match parent_of(common_dir.as_str()) {
                    Some(parent) => Some(Ok(parent)),
                    None => Some(Ok(common_dir)),
                }
            }
        },
        Some(Err(error)) => Some(Err(error)),
        None => None,
    }
}

/// Whether there is a reference.
pub open spec fn ref_exists(cwd: Seq<char>, reference: Seq<char>, rest: Seq<Reply>) -> Run<bool> {
    bind(
        git(cwd, seq!["show-ref"@, "--verify"@, "--quiet"@, reference], rest),
        |reply: Reply, rest: Seq<Reply>| Run::Got(reply is Ok, rest),
    )
}

pub open spec fn local_branch_exists(
    cwd: Seq<char>,
    branch: Seq<char>,
    rest: Seq<Reply>,
) -> Run<bool> {
    ref_exists(cwd, "refs/heads/"@ + branch, rest)
}

pub open spec fn remote_branch_exists(
    cwd: Seq<char>,
    branch: Seq<char>,
    rest: Seq<Reply>,
) -> Run<bool> {
    ref_exists(cwd, "refs/remotes/origin/"@ + branch, rest)
}

fn has_ref(cwd: &str, reference: String, script: &mut Script) -> (r: Option<bool>)
    requires
        old(script).wf(),
    ensures
        final(script).wf(),
        ran(ref_exists(cwd@, reference@, old(script)@.rest), r, final(script)@),
{
    match script.git(cwd, args4("show-ref", "--verify", "--quiet", reference.as_str())) {
        Some(reply) => Some(reply.is_ok()),
        None => None,
    }
}

fn has_local_branch(cwd: &str, branch: &str, script: &mut Script) -> (r: Option<bool>)
    requires
        old(script).wf(),
    ensures
        final(script).wf(),
        ran(local_branch_exists(cwd@, branch@, old(script)@.rest), r, final(script)@),
{
    has_ref(cwd, concat2("refs/heads/", branch), script)
}

fn has_remote_branch(cwd: &str, branch: &str, script: &mut Script) -> (r: Option<bool>)
    requires
        old(script).wf(),
    ensures
        final(script).wf(),
        ran(remote_branch_exists(cwd@, branch@, old(script)@.rest), r, final(script)@),
{
    has_ref(cwd, concat2("refs/remotes/origin/", branch), script)
}

// Paths.

/// Where a project lies in its working copy: nothing at the root.
pub open spec fn project_relative_path(
    cwd: Seq<char>,
    root: Seq<char>,
    rest: Seq<Reply>,
) -> Run<Seq<char>> {
    bind(
        normalized_path(cwd, rest),
        |path: Seq<char>, rest: Seq<Reply>|
            bind(
                normalized_path(root, rest),
                |above: Seq<char>, rest: Seq<Reply>|
                    Run::Got(or_empty(path_below(path, above)), rest),
            ),
    )
}

fn resolve_project_relative_path(cwd: &str, root: &str, script: &mut Script) -> (r: Option<String>)
    requires
        old(script).wf(),
    ensures
        final(script).wf(),
        ran(project_relative_path(cwd@, root@, old(script)@.rest), r.deep_view(), final(script)@),
{
    let path = match script.normalized_path(cwd) {
        Some(path) => path,
        None => {
            return None;
        },
    };
    let above = match script.normalized_path(root) {
        Some(path) => path,
        None => {
            return None;
        },
    };
    match relative_path(path.as_str(), above.as_str()) {
        Some(relative) => Some(relative),
        None => Some(String::new()),
    }
}

/// The project in another working copy, where it is there.
pub open spec fn scoped_checkout(
    root: Seq<char>,
    relative: Seq<char>,
    rest: Seq<Reply>,
) -> Run<(Seq<char>, Option<Seq<char>>)> {
    bind(
        normalized_path(root, rest),
        |top: Seq<char>, rest: Seq<Reply>|
            if relative.len() == 0 {
                Run::Got((top, Some(top)), rest)
            } else {
                bind(
                    ask(ActionView::IsDir(path_join(top, relative)), rest),
                    |reply: Reply, rest: Seq<Reply>|
                        if reply is Ok {
                            bind(
                                normalized_path(path_join(top, relative), rest),
                                |path: Seq<char>, rest: Seq<Reply>|
                                    Run::Got((top, Some(path)), rest),
                            )
                        } else {
                            Run::Got((top, None), rest)
                        },
                )
            },
    )
}

/// The root of another working copy, and the project in it where it is there.
fn scoped_local_checkout_path(root: &str, relative: &str, script: &mut Script) -> (r: Option<
    (String, Option<String>),
>)
    requires
        old(script).wf(),
    ensures
        final(script).wf(),
        ran(
            scoped_checkout(root@, relative@, old(script)@.rest),
            match r {
                Some((top, path)) => Some((top@, path.deep_view())),
                None => None,
            },
            final(script)@,
        ),
{
    let top = match script.normalized_path(root) {
        Some(path) => path,
        None => {
            return None;
        },
    };
    if relative.is_empty() {
        let path = top.clone();
        return Some((top, Some(path)));
    }
    let candidate = join_path(top.as_str(), relative);
    match script.ask(Action::IsDir(candidate.clone())) {
        Some(Ok(_)) => match script.normalized_path(candidate.as_str()) {
            Some(path) => Some((top, Some(path))),
            None => None,
        },
        Some(Err(_)) => Some((top, None)),
        None => None,
    }
}

/// The project in a worktree, or the root of the worktree where the project is not there.
pub open spec fn scoped_worktree(
    root: Seq<char>,
    relative: Seq<char>,
    rest: Seq<Reply>,
) -> Run<Seq<char>> {
    bind(
        scoped_checkout(root, relative, rest),
        |found: (Seq<char>, Option<Seq<char>>), rest: Seq<Reply>|
            Run::Got(
                match found.1 {
                    Some(path) => path,
                    None => found.0,
                },
                rest,
            ),
    )
}

fn scoped_worktree_path(root: &str, relative: &str, script: &mut Script) -> (r: Option<String>)
    requires
        old(script).wf(),
    ensures
        final(script).wf(),
        ran(scoped_worktree(root@, relative@, old(script)@.rest), r.deep_view(), final(script)@),
{
    match scoped_local_checkout_path(root, relative, script) {
        Some((_, Some(path))) => Some(path),
        Some((top, None)) => Some(top),
        None => None,
    }
}

// The status.

/// How far the branch is ahead of its upstream branch and behind it.
pub open spec fn rev_counts(cwd: Seq<char>, rest: Seq<Reply>) -> Run<(u64, u64)> {
    bind(
        git(cwd, seq!["rev-list"@, "--left-right"@, "--count"@, "HEAD...@{u}"@], rest),
        |reply: Reply, rest: Seq<Reply>|
            Run::Got(
                match reply {
                    Ok(output) => ahead_and_behind(output),
                    Err(_) => (0u64, 0u64),
                },
                rest,
            ),
    )
}

fn rev_list_counts(cwd: &str, script: &mut Script) -> (r: Option<(u64, u64)>)
    requires
        old(script).wf(),
    ensures
        final(script).wf(),
        ran(rev_counts(cwd@, old(script)@.rest), r, final(script)@),
{
    match script.git(cwd, args4("rev-list", "--left-right", "--count", "HEAD...@{u}")) {
        Some(Ok(output)) => Some(parse_rev_list_counts(output.as_str())),
        Some(Err(_)) => Some((0, 0)),
        None => None,
    }
}

/// How many commits no remote has: none is counted where there is no remote branch.
pub open spec fn local_only_commits(cwd: Seq<char>, rest: Seq<Reply>) -> Run<u64> {
    bind(
        git(cwd, seq!["for-each-ref"@, "--format=%(refname)"@, "refs/remotes"@], rest),
        |refs: Reply, rest: Seq<Reply>|
            match refs {
                Ok(output) => if nonblank_lines(output).len() == 0 {
                    Run::Got(0u64, rest)
                } else {
                    bind(
                        git(
                            cwd,
                            seq!["rev-list"@, "--count"@, "HEAD"@, "--not"@, "--remotes"@],
                            rest,
                        ),
                        |reply: Reply, rest: Seq<Reply>|
                            Run::Got(
                                match reply {
                                    Ok(count) => number_in(trimmed(count)),
                                    Err(_) => 0u64,
                                },
                                rest,
                            ),
                    )
                },
                Err(_) => Run::Got(0u64, rest),
            },
    )
}

fn count_local_only_commits(cwd: &str, script: &mut Script) -> (r: Option<u64>)
    requires
        old(script).wf(),
    ensures
        final(script).wf(),
        ran(local_only_commits(cwd@, old(script)@.rest), r, final(script)@),
{
    match script.git(cwd, args3("for-each-ref", "--format=%(refname)", "refs/remotes")) {
        Some(Ok(output)) => {
            if nonblank_lines_of(output.as_str()).len() == 0 {
                return Some(0);
            }
            match script.git(cwd, args5("rev-list", "--count", "HEAD", "--not", "--remotes")) {
                Some(Ok(count)) => Some(number_from(trim(count.as_str()).as_str())),
                Some(Err(_)) => Some(0),
                None => None,
            }
        },
        Some(Err(_)) => Some(0),
        None => None,
    }
}

/// The tree that holds nothing.
pub open spec fn empty_tree() -> Seq<char> {
    "4b825dc642cb6eb9a060e54bf8d69288fbee4904"@
}

/// What the changes are counted from where no upstream branch helps: the parent of the first
/// commit that no remote has.
pub open spec fn local_diff_base(cwd: Seq<char>, rest: Seq<Reply>) -> Run<Reply> {
    try_bind(
        git(
            cwd,
            seq!["rev-list"@, "--reverse"@, "--topo-order"@, "HEAD"@, "--not"@, "--remotes"@],
            rest,
        ),
        |output: Seq<char>, rest: Seq<Reply>|
            if nonblank_lines(output).len() == 0 {
                Run::Got(Ok("HEAD"@), rest)
            } else {
                bind(
                    git(
                        cwd,
                        seq!["rev-parse"@, trimmed(nonblank_lines(output)[0]) + "^"@],
                        rest,
                    ),
                    |reply: Reply, rest: Seq<Reply>|
                        Run::Got(
                            match reply {
                                Ok(base) => Ok(trimmed(base)),
                                Err(_) => Ok(empty_tree()),
                            },
                            rest,
                        ),
                )
            },
    )
}

/// What the changes are counted from.
pub open spec fn diff_base(cwd: Seq<char>, tracking: bool, rest: Seq<Reply>) -> Run<Reply> {
    if tracking {
        bind(
            git(cwd, seq!["merge-base"@, "HEAD"@, "@{u}"@], rest),
            |reply: Reply, rest: Seq<Reply>|
                match reply {
                    Ok(base) => Run::Got(Ok(trimmed(base)), rest),
                    Err(_) => local_diff_base(cwd, rest),
                },
        )
    } else {
        local_diff_base(cwd, rest)
    }
}

fn resolve_local_diff_base(cwd: &str, script: &mut Script) -> (r: Option<Result<String, String>>)
    requires
        old(script).wf(),
    ensures
        final(script).wf(),
        ran(local_diff_base(cwd@, old(script)@.rest), text_result(r), final(script)@),
{
    let output = match script.git(
        cwd,
        args6("rev-list", "--reverse", "--topo-order", "HEAD", "--not", "--remotes"),
    ) {
        Some(Ok(output)) => output,
        Some(Err(error)) => {
            return Some(Err(error));
        },
        None => {
            return None;
        },
    };
    let commits = nonblank_lines_of(output.as_str());
    if commits.len() == 0 {
        return Some(Ok("HEAD".to_owned()));
    }
    let parent = concat2(trim(commits[0].as_str()).as_str(), "^");
    match script.git(cwd, args2("rev-parse", parent.as_str())) {
        Some(Ok(base)) => Some(Ok(trim(base.as_str()))),
        Some(Err(_)) => Some(Ok("4b825dc642cb6eb9a060e54bf8d69288fbee4904".to_owned())),
        None => None,
    }
}

fn resolve_repo_diff_base(cwd: &str, tracking: bool, script: &mut Script) -> (r: Option<
    Result<String, String>,
>)
    requires
        old(script).wf(),
    ensures
        final(script).wf(),
        ran(diff_base(cwd@, tracking, old(script)@.rest), text_result(r), final(script)@),
{
    if tracking {
        match script.git(cwd, args3("merge-base", "HEAD", "@{u}")) {
            Some(Ok(base)) => {
                return Some(Ok(trim(base.as_str())));
            },
            Some(Err(_)) => {},
            None => {
                return None;
            },
        }
    }
    resolve_local_diff_base(cwd, script)
}

/// The difference between a new file and nothing.
pub open spec fn diff_no_index(
    cwd: Seq<char>,
    path: Seq<char>,
    binary_patch: bool,
    rest: Seq<Reply>,
) -> Run<Reply> {
    git_lenient(
        cwd,
        seq![
            "diff"@,
            "--no-index"@,
            if binary_patch {
                "--binary"@
            } else {
                "--numstat"@
            },
            "--"@,
            "/dev/null"@,
            path,
        ],
        rest,
    )
}

fn git_diff_no_index(cwd: &str, path: &str, binary_patch: bool, script: &mut Script) -> (r: Option<
    Result<String, String>,
>)
    requires
        old(script).wf(),
    ensures
        final(script).wf(),
        ran(
            diff_no_index(cwd@, path@, binary_patch, old(script)@.rest),
            text_result(r),
            final(script)@,
        ),
{
    let kind = if binary_patch { "--binary" } else { "--numstat" };
    script.git_lenient(cwd, args6("diff", "--no-index", kind, "--", "/dev/null", path))
}

/// Adds what the untracked files count.
pub open spec fn untracked_totals(
    cwd: Seq<char>,
    paths: Seq<Seq<char>>,
    totals: DiffTotals,
    rest: Seq<Reply>,
) -> Run<Result<DiffTotals, Seq<char>>>
    decreases paths.len(),
{
    if paths.len() == 0 {
        Run::Got(Ok(totals), rest)
    } else {
        match diff_no_index(cwd, paths[0], false, rest) {
            Run::Ask(action) => Run::Ask(action),
            Run::Got(Err(error), rest) => Run::Got(Err(error), rest),
            Run::Got(Ok(output), rest) => untracked_totals(
                cwd,
                paths.skip(1),
                totals_plus(totals, numstat_totals(output)),
                rest,
            ),
        }
    }
}

/// What the changes since `diff_base` count, the untracked files among them.
pub open spec fn diff_totals(
    cwd: Seq<char>,
    tracking: bool,
    file_lines: Seq<Seq<char>>,
    rest: Seq<Reply>,
) -> Run<Result<DiffTotals, Seq<char>>> {
    try_bind(
        diff_base(cwd, tracking, rest),
        |base: Seq<char>, rest: Seq<Reply>|
            try_bind(
                git(cwd, seq!["diff"@, "--numstat"@, base], rest),
                |output: Seq<char>, rest: Seq<Reply>|
                    untracked_totals(
                        cwd,
                        untracked_paths(file_lines),
                        numstat_totals(output),
                        rest,
                    ),
            ),
    )
}

fn repo_diff_totals(
    cwd: &str,
    tracking: bool,
    file_lines: &Vec<String>,
    script: &mut Script,
) -> (r: Option<Result<DiffTotals, String>>)
    requires
        old(script).wf(),
    ensures
        final(script).wf(),
        ran(
            diff_totals(cwd@, tracking, file_lines.deep_view(), old(script)@.rest),
            match r {
                Some(Ok(totals)) => Some(Ok(totals)),
                Some(Err(error)) => Some(Err(error@)),
                None => None,
            },
            final(script)@,
        ),
{
    let ghost start = script@.rest;
    let base = match resolve_repo_diff_base(cwd, tracking, script) {
        Some(Ok(base)) => base,
        Some(Err(error)) => {
            return Some(Err(error));
        },
        None => {
            return None;
        },
    };
    let output = match script.git(cwd, args3("diff", "--numstat", base.as_str())) {
        Some(Ok(output)) => output,
        Some(Err(error)) => {
            return Some(Err(error));
        },
        None => {
            return None;
        },
    };
    let mut totals = parse_numstat_totals(output.as_str());
    let paths = untracked_from_status(file_lines);
    let ghost all = paths.deep_view();
    let ghost run = untracked_totals(cwd@, all, totals, script@.rest);
    assert(run == diff_totals(cwd@, tracking, file_lines.deep_view(), start));
    let mut i: usize = 0;
    assert(all.skip(0) =~= all);
    while i < paths.len()
        invariant
            script.wf(),
            start == old(script)@.rest,
            i <= paths@.len(),
            all == paths.deep_view(),
            run == untracked_totals(cwd@, all.skip(i as int), totals, script@.rest),
            run == diff_totals(cwd@, tracking, file_lines.deep_view(), start),
        decreases paths@.len() - i,
    {
        assert(all.skip(i as int)[0] == paths@[i as int]@);
        assert(all.skip(i as int).skip(1) =~= all.skip(i + 1));
        match git_diff_no_index(cwd, paths[i].as_str(), false, script) {
            Some(Ok(output)) => {
                totals = add_totals(totals, parse_numstat_totals(output.as_str()));
            },
            Some(Err(error)) => {
                return Some(Err(error));
            },
            None => {
                return None;
            },
        }
        i = i + 1;
    }
    Some(Ok(totals))
}

/// What the first line of `git status` and the lines behind it tell.
pub struct StatusLines {
    pub branch_line: Seq<char>,
    pub file_lines: Seq<Seq<char>>,
}

pub open spec fn status_lines(porcelain: Seq<char>) -> StatusLines {
    let all = nonblank_lines(porcelain);
    if all.len() == 0 {
        StatusLines { branch_line: Seq::empty(), file_lines: Seq::empty() }
    } else {
        StatusLines { branch_line: all[0], file_lines: all.skip(1) }
    }
}

fn split_status(porcelain: &str) -> (r: (String, Vec<String>))
    ensures
        status_lines(porcelain@) == (StatusLines {
            branch_line: r.0@,
            file_lines: r.1.deep_view(),
        }),
{
    let all = nonblank_lines_of(porcelain);
    if all.len() == 0 {
        let none: Vec<String> = Vec::new();
        assert(none.deep_view() =~= Seq::empty());
        return (String::new(), none);
    }
    let mut files: Vec<String> = Vec::new();
    let mut i: usize = 1;
    while i < all.len()
        invariant
            1 <= i <= all@.len(),
            files@.len() == i - 1,
            forall|j: int| 0 <= j < files@.len() ==> (#[trigger] files@[j])@ == all@[j + 1]@,
        decreases all@.len() - i,
    {
        files.push(all[i].clone());
        i = i + 1;
    }
    assert(files.deep_view() =~= all.deep_view().skip(1));
    (all[0].clone(), files)
}

/// Whether no branch is checked out.
pub open spec fn is_detached(branch_line: Seq<char>) -> bool {
    contains(branch_line, "HEAD detached"@) || contains(branch_line, "no branch"@)
}

/// Everything that the status of a working copy tells.
pub struct StatusView {
    pub root: Option<Seq<char>>,
    pub branch_line: Seq<char>,
    pub file_lines: Seq<Seq<char>>,
    pub ahead: u64,
    pub behind: u64,
    pub local_only: u64,
    pub published: bool,
    pub totals: DiffTotals,
}

impl StatusView {
    /// The status as it is sent to the phone.
    pub open spec fn json(self) -> JsonView {
        let tracking = status_tracking(self.branch_line);
        let detached = is_detached(self.branch_line);
        let dirty = self.file_lines.len() > 0;
        let no_upstream = tracking is None && !detached;
        JsonView::Object(
            map![
                "repoRoot"@ => opt_text(self.root),
                "branch"@ => opt_text(status_branch(self.branch_line)),
                "tracking"@ => opt_text(tracking),
                "dirty"@ => JsonView::Bool(dirty),
                "ahead"@ => number(self.ahead),
                "behind"@ => number(self.behind),
                "localOnlyCommitCount"@ => number(self.local_only),
                "state"@ => JsonView::Text(
                    state_word(dirty, self.ahead, self.behind, detached, no_upstream),
                ),
                "canPush"@ => JsonView::Bool((self.ahead > 0 || no_upstream) && !detached),
                "publishedToRemote"@ => JsonView::Bool(self.published),
                "files"@ => JsonView::Array(status_files(self.file_lines)),
                "diff"@ => totals_view(self.totals),
            ],
        )
    }
}

/// Whether the branch is on the remote.
pub open spec fn published(cwd: Seq<char>, branch_line: Seq<char>, rest: Seq<Reply>) -> Run<bool> {
    if is_detached(branch_line) {
        Run::Got(false, rest)
    } else {
        match status_branch(branch_line) {
            Some(branch) => remote_branch_exists(cwd, branch, rest),
            None => Run::Got(false, rest),
        }
    }
}

/// How many commits no remote has, where a branch is checked out.
pub open spec fn status_local_only(
    cwd: Seq<char>,
    branch_line: Seq<char>,
    rest: Seq<Reply>,
) -> Run<u64> {
    if is_detached(branch_line) {
        Run::Got(0u64, rest)
    } else {
        local_only_commits(cwd, rest)
    }
}

pub open spec fn or_zero_totals(r: Result<DiffTotals, Seq<char>>) -> DiffTotals {
    match r {
        Ok(totals) => totals,
        Err(_) => zero_totals(),
    }
}

pub open spec fn ok_of(r: Reply) -> Option<Seq<char>> {
    match r {
        Ok(s) => Some(s),
        Err(_) => None,
    }
}

/// The status of a working copy.
pub open spec fn status(cwd: Seq<char>, rest: Seq<Reply>) -> Run<Answer> {
    try_bind(
        git(cwd, seq!["status"@, "--porcelain=v1"@, "-b"@], rest),
        |porcelain: Seq<char>, rest: Seq<Reply>|
            {
                let read = status_lines(porcelain);
                bind(
                    rev_counts(cwd, rest),
                    |counts: (u64, u64), rest: Seq<Reply>|
                        bind(
                            published(cwd, read.branch_line, rest),
                            |published: bool, rest: Seq<Reply>|
                                bind(
                                    status_local_only(cwd, read.branch_line, rest),
                                    |local_only: u64, rest: Seq<Reply>|
                                        bind(
                                            diff_totals(
                                                cwd,
                                                status_tracking(read.branch_line) is Some,
                                                read.file_lines,
                                                rest,
                                            ),
                                            |
                                                totals: Result<DiffTotals, Seq<char>>,
                                                rest: Seq<Reply>,
                                            |
                                                bind(
                                                    repo_root(cwd, rest),
                                                    |root: Reply, rest: Seq<Reply>|
                                                        Run::Got(
                                                            Ok(
                                                                (StatusView {
                                                                    root: ok_of(root),
                                                                    branch_line: read.branch_line,
                                                                    file_lines: read.file_lines,
                                                                    ahead: counts.0,
                                                                    behind: counts.1,
                                                                    local_only,
                                                                    published,
                                                                    totals: or_zero_totals(totals),
                                                                }).json(),
                                                            ),
                                                            rest,
                                                        ),
                                                ),
                                        ),
                                ),
                        ),
                )
            },
    )
}

pub fn git_status(cwd: &str, script: &mut Script) -> (r: Option<Result<Json, String>>)
    requires
        old(script).wf(),
    ensures
        final(script).wf(),
        ran(status(cwd@, old(script)@.rest), json_result(r), final(script)@),
{
    let porcelain = match script.git(cwd, args3("status", "--porcelain=v1", "-b")) {
        Some(Ok(output)) => output,
        Some(Err(error)) => {
            return Some(Err(error));
        },
        None => {
            return None;
        },
    };
    let (branch_line, file_lines) = split_status(porcelain.as_str());
    let branch = parse_branch_from_status(branch_line.as_str());
    let tracking = parse_tracking_from_status(branch_line.as_str());
    let files = files_from_status(&file_lines);
    let dirty = file_lines.len() > 0;
    let (ahead, behind) = match rev_list_counts(cwd, script) {
        Some(counts) => counts,
        None => {
            return None;
        },
    };
    let detached = contains_text(branch_line.as_str(), "HEAD detached") || contains_text(
        branch_line.as_str(),
        "no branch",
    );
    let no_upstream = tracking.is_none() && !detached;
    let mut published_to_remote: bool = false;
    if !detached {
        if let Some(name) = &branch {
            published_to_remote = match has_remote_branch(cwd, name.as_str(), script) {
                Some(found) => found,
                None => {
                    return None;
                },
            };
        }
    }
    let mut local_only: u64 = 0;
    if !detached {
        local_only = match count_local_only_commits(cwd, script) {
            Some(count) => count,
            None => {
                return None;
            },
        };
    }
    let totals = match repo_diff_totals(cwd, tracking.is_some(), &file_lines, script) {
        Some(Ok(totals)) => totals,
        Some(Err(_)) => DiffTotals { additions: 0, deletions: 0, binary_files: 0 },
        None => {
            return None;
        },
    };
    let root = match resolve_repo_root(cwd, script) {
        Some(Ok(root)) => Some(root),
        Some(Err(_)) => None,
        None => {
            return None;
        },
    };
    let mut out = JsonObject::new();
    out.insert("repoRoot", Json::opt_text(&root));
    out.insert("branch", Json::opt_text(&branch));
    out.insert("tracking", Json::opt_text(&tracking));
    out.insert("dirty", Json::Bool(dirty));
    out.insert("ahead", Json::unsigned(ahead));
    out.insert("behind", Json::unsigned(behind));
    out.insert("localOnlyCommitCount", Json::unsigned(local_only));
    out.insert(
        "state",
        Json::text(compute_state(dirty, ahead, behind, detached, no_upstream)),
    );
    out.insert("canPush", Json::Bool((ahead > 0 || no_upstream) && !detached));
    out.insert("publishedToRemote", Json::Bool(published_to_remote));
    out.insert("files", Json::array(files));
    out.insert("diff", totals_json(totals));
    Some(Ok(Json::object(out)))
}

// The changes.

/// The patches of the untracked files that are not blank.
pub open spec fn untracked_patches(
    cwd: Seq<char>,
    paths: Seq<Seq<char>>,
    patches: Seq<Seq<char>>,
    rest: Seq<Reply>,
) -> Run<Result<Seq<Seq<char>>, Seq<char>>>
    decreases paths.len(),
{
    if paths.len() == 0 {
        Run::Got(Ok(patches), rest)
    } else {
        match diff_no_index(cwd, paths[0], true, rest) {
            Run::Ask(action) => Run::Ask(action),
            Run::Got(Err(error), rest) => Run::Got(Err(error), rest),
            Run::Got(Ok(output), rest) => untracked_patches(
                cwd,
                paths.skip(1),
                patches.push(output),
                rest,
            ),
        }
    }
}

/// The untracked files as one patch.
pub open spec fn untracked_patch(
    cwd: Seq<char>,
    paths: Seq<Seq<char>>,
    rest: Seq<Reply>,
) -> Run<Reply> {
    try_bind(
        untracked_patches(cwd, paths, Seq::empty(), rest),
        |patches: Seq<Seq<char>>, rest: Seq<Reply>|
            Run::Got(Ok(join(patches.filter(nonblank_pred()), "\n\n"@)), rest),
    )
}

fn diff_patch_for_untracked_files(cwd: &str, paths: &Vec<String>, script: &mut Script) -> (r:
    Option<Result<String, String>>)
    requires
        old(script).wf(),
    ensures
        final(script).wf(),
        ran(
            untracked_patch(cwd@, paths.deep_view(), old(script)@.rest),
            text_result(r),
            final(script)@,
        ),
{
    let ghost start = script@.rest;
    let ghost all = paths.deep_view();
    let ghost run = untracked_patches(cwd@, all, Seq::empty(), start);
    let mut patches: Vec<String> = Vec::new();
    let mut i: usize = 0;
    assert(all.skip(0) =~= all);
    assert(patches.deep_view() =~= Seq::empty());
    while i < paths.len()
        invariant
            script.wf(),
            start == old(script)@.rest,
            i <= paths@.len(),
            all == paths.deep_view(),
            run == untracked_patches(cwd@, all, Seq::empty(), start),
            run == untracked_patches(
                cwd@,
                all.skip(i as int),
                patches.deep_view(),
                script@.rest,
            ),
        decreases paths@.len() - i,
    {
        assert(all.skip(i as int)[0] == paths@[i as int]@);
        assert(all.skip(i as int).skip(1) =~= all.skip(i + 1));
        let ghost before = patches.deep_view();
        match git_diff_no_index(cwd, paths[i].as_str(), true, script) {
            Some(Ok(output)) => {
                patches.push(output);
                assert(patches.deep_view() =~= before.push(output@));
            },
            Some(Err(error)) => {
                return Some(Err(error));
            },
            None => {
                return None;
            },
        }
        i = i + 1;
    }
    assert(all.skip(i as int) =~= Seq::empty());
    let kept = keep_nonblank(patches);
    Some(Ok(join_texts(&kept, "\n\n")))
}

/// The texts that are not empty, one behind the other.
pub open spec fn joined_patches(a: Seq<char>, b: Seq<char>) -> Seq<char> {
    if a.len() == 0 {
        b
    } else if b.len() == 0 {
        a
    } else {
        a + "\n\n"@ + b
    }
}

pub open spec fn patch_view(patch: Seq<char>) -> JsonView {
    JsonView::Object(map!["patch"@ => JsonView::Text(patch)])
}

/// The changes since `diff_base` as a patch, the untracked files among them.
pub open spec fn diff(cwd: Seq<char>, rest: Seq<Reply>) -> Run<Answer> {
    try_bind(
        git(cwd, seq!["status"@, "--porcelain=v1"@, "-b"@], rest),
        |porcelain: Seq<char>, rest: Seq<Reply>|
            {
                let read = status_lines(porcelain);
                try_bind(
                    diff_base(cwd, status_tracking(read.branch_line) is Some, rest),
                    |base: Seq<char>, rest: Seq<Reply>|
                        try_bind(
                            git(cwd, seq!["diff"@, "--binary"@, "--find-renames"@, base], rest),
                            |known: Seq<char>, rest: Seq<Reply>|
                                try_bind(
                                    untracked_patch(cwd, untracked_paths(read.file_lines), rest),
                                    |untracked: Seq<char>, rest: Seq<Reply>|
                                        Run::Got(
                                            Ok(
                                                patch_view(
                                                    joined_patches(
                                                        trimmed(known),
                                                        trimmed(untracked),
                                                    ),
                                                ),
                                            ),
                                            rest,
                                        ),
                                ),
                        ),
                )
            },
    )
}

fn git_diff(cwd: &str, script: &mut Script) -> (r: Option<Result<Json, String>>)
    requires
        old(script).wf(),
    ensures
        final(script).wf(),
        ran(diff(cwd@, old(script)@.rest), json_result(r), final(script)@),
{
    let porcelain = match script.git(cwd, args3("status", "--porcelain=v1", "-b")) {
        Some(Ok(output)) => output,
        Some(Err(error)) => {
            return Some(Err(error));
        },
        None => {
            return None;
        },
    };
    let (branch_line, file_lines) = split_status(porcelain.as_str());
    let tracking = parse_tracking_from_status(branch_line.as_str());
    let base = match resolve_repo_diff_base(cwd, tracking.is_some(), script) {
        Some(Ok(base)) => base,
        Some(Err(error)) => {
            return Some(Err(error));
        },
        None => {
            return None;
        },
    };
    let known = match script.git(
        cwd,
        args4("diff", "--binary", "--find-renames", base.as_str()),
    ) {
        Some(Ok(output)) => trim(output.as_str()),
        Some(Err(error)) => {
            return Some(Err(error));
        },
        None => {
            return None;
        },
    };
    let paths = untracked_from_status(&file_lines);
    let untracked = match diff_patch_for_untracked_files(cwd, &paths, script) {
        Some(Ok(patch)) => trim(patch.as_str()),
        Some(Err(error)) => {
            return Some(Err(error));
        },
        None => {
            return None;
        },
    };
    let patch = if known.as_str().is_empty() {
        untracked
    } else if untracked.as_str().is_empty() {
        known
    } else {
        concat3(known.as_str(), "\n\n", untracked.as_str())
    };
    let mut out = JsonObject::new();
    out.insert("patch", Json::text(patch.as_str()));
    Some(Ok(Json::object(out)))
}

/// Two patches with line ends at their ends, without the blank ones.
pub open spec fn stacked_patches(a: Seq<char>, b: Seq<char>) -> Seq<char> {
    if is_blank(a) {
        if is_blank(b) {
            Seq::empty()
        } else {
            with_newline(b)
        }
    } else if is_blank(b) {
        with_newline(a)
    } else {
        with_newline(a) + "\n"@ + with_newline(b)
    }
}

/// Everything in a working copy that is not committed, as one patch.
pub open spec fn local_changes_patch(cwd: Seq<char>, rest: Seq<Reply>) -> Run<Reply> {
    try_bind(
        git(cwd, seq!["diff"@, "--binary"@, "--find-renames"@, "HEAD"@], rest),
        |known: Seq<char>, rest: Seq<Reply>|
            try_bind(
                git(cwd, seq!["status"@, "--porcelain=v1"@], rest),
                |porcelain: Seq<char>, rest: Seq<Reply>|
                    try_bind(
                        untracked_patch(cwd, untracked_paths(lines(porcelain)), rest),
                        |untracked: Seq<char>, rest: Seq<Reply>|
                            Run::Got(Ok(stacked_patches(known, untracked)), rest),
                    ),
            ),
    )
}

fn capture_local_changes_patch(cwd: &str, script: &mut Script) -> (r: Option<
    Result<String, String>,
>)
    requires
        old(script).wf(),
    ensures
        final(script).wf(),
        ran(local_changes_patch(cwd@, old(script)@.rest), text_result(r), final(script)@),
{
    let known = match script.git(cwd, args4("diff", "--binary", "--find-renames", "HEAD")) {
        Some(Ok(output)) => output,
        Some(Err(error)) => {
            return Some(Err(error));
        },
        None => {
            return None;
        },
    };
    let porcelain = match script.git(cwd, args2("status", "--porcelain=v1")) {
        Some(Ok(output)) => output,
        Some(Err(error)) => {
            return Some(Err(error));
        },
        None => {
            return None;
        },
    };
    let all = lines_of(porcelain.as_str());
    let paths = untracked_from_status(&all);
    let untracked = match diff_patch_for_untracked_files(cwd, &paths, script) {
        Some(Ok(patch)) => patch,
        Some(Err(error)) => {
            return Some(Err(error));
        },
        None => {
            return None;
        },
    };
    let patch = if blank(known.as_str()) {
        if blank(untracked.as_str()) {
            String::new()
        } else {
            ensure_trailing_newline(untracked.as_str())
        }
    } else if blank(untracked.as_str()) {
        ensure_trailing_newline(known.as_str())
    } else {
        concat3(
            ensure_trailing_newline(known.as_str()).as_str(),
            "\n",
            ensure_trailing_newline(untracked.as_str()).as_str(),
        )
    };
    Some(Ok(patch))
}

// Commits.

/// Commits everything, unless there is nothing to commit.
pub open spec fn commit(cwd: Seq<char>, params: JsonView, rest: Seq<Reply>) -> Run<Answer> {
    let message = match params.read("message"@) {
        Some(message) => message,
        None => "Changes from Codex"@,
    };
    try_bind(
        git(cwd, seq!["status"@, "--porcelain"@], rest),
        |changes: Seq<char>, rest: Seq<Reply>|
            if is_blank(changes) {
                Run::Got(Err("Nothing to commit."@), rest)
            } else {
                try_bind(
                    git(cwd, seq!["add"@, "-A"@], rest),
                    |added: Seq<char>, rest: Seq<Reply>|
                        try_bind(
                            git(cwd, seq!["commit"@, "-m"@, message], rest),
                            |output: Seq<char>, rest: Seq<Reply>|
                                Run::Got(Ok(commit_view(output)), rest),
                        ),
                )
            },
    )
}

/// What the phone is told of a commit.
pub open spec fn commit_view(output: Seq<char>) -> JsonView {
    let header = commit_header(
        if lines(output).len() > 0 {
            lines(output)[0]
        } else {
            Seq::empty()
        },
    );
    JsonView::Object(
        map![
            "hash"@ => JsonView::Text(header.1),
            "branch"@ => JsonView::Text(header.0),
            "summary"@ => JsonView::Text(commit_summary(output)),
        ],
    )
}

fn git_commit(cwd: &str, params: &Json, script: &mut Script) -> (r: Option<Result<Json, String>>)
    requires
        old(script).wf(),
    ensures
        final(script).wf(),
        ran(commit(cwd@, params@, old(script)@.rest), json_result(r), final(script)@),
{
    let message = match params.read("message") {
        Some(message) => message,
        None => "Changes from Codex".to_owned(),
    };
    match script.git(cwd, args2("status", "--porcelain")) {
        Some(Ok(changes)) => {
            if blank(changes.as_str()) {
                return Some(Err("Nothing to commit.".to_owned()));
            }
        },
        Some(Err(error)) => {
            return Some(Err(error));
        },
        None => {
            return None;
        },
    }
    match script.git(cwd, args2("add", "-A")) {
        Some(Ok(_)) => {},
        Some(Err(error)) => {
            return Some(Err(error));
        },
        None => {
            return None;
        },
    }
    let output = match script.git(cwd, args3("commit", "-m", message.as_str())) {
        Some(Ok(output)) => output,
        Some(Err(error)) => {
            return Some(Err(error));
        },
        None => {
            return None;
        },
    };
    let printed = lines_of(output.as_str());
    let first = if printed.len() > 0 { printed[0].clone() } else { String::new() };
    let (branch, hash) = regex_like_commit_header(first.as_str());
    let summary = summarize_commit(output.as_str());
    let mut out = JsonObject::new();
    out.insert("hash", Json::text(hash.as_str()));
    out.insert("branch", Json::text(branch.as_str()));
    out.insert("summary", Json::text(summary.as_str()));
    Some(Ok(Json::object(out)))
}

// Push and pull.

/// The answer to a push: where it went, and the status behind it.
pub open spec fn pushed(cwd: Seq<char>, branch: Seq<char>, rest: Seq<Reply>) -> Run<Answer> {
    try_bind(
        status(cwd, rest),
        |status: JsonView, rest: Seq<Reply>|
            Run::Got(
                Ok(
                    JsonView::Object(
                        map![
                            "branch"@ => JsonView::Text(branch),
                            "remote"@ => JsonView::Text("origin"@),
                            "status"@ => status,
                        ],
                    ),
                ),
                rest,
            ),
    )
}

/// Pushes the branch. One that has no upstream branch gets one.
pub open spec fn push(cwd: Seq<char>, rest: Seq<Reply>) -> Run<Answer> {
    try_bind(
        git(cwd, seq!["rev-parse"@, "--abbrev-ref"@, "HEAD"@], rest),
        |head: Seq<char>, rest: Seq<Reply>|
            bind(
                git(cwd, seq!["push"@], rest),
                |reply: Reply, rest: Seq<Reply>|
                    match reply {
                        Ok(_) => pushed(cwd, trimmed(head), rest),
                        Err(error) => if contains(error, "no upstream"@) || contains(
                            error,
                            "has no upstream branch"@,
                        ) {
                            try_bind(
                                git(
                                    cwd,
                                    seq!["push"@, "--set-upstream"@, "origin"@, trimmed(head)],
                                    rest,
                                ),
                                |output: Seq<char>, rest: Seq<Reply>|
                                    pushed(cwd, trimmed(head), rest),
                            )
                        } else if contains(error, "rejected"@) {
                            Run::Got(Err("Push rejected. Pull changes first."@), rest)
                        } else {
                            Run::Got(Err(error), rest)
                        },
                    },
            ),
    )
}

fn args1(a: &str) -> (r: Vec<String>)
    ensures
        r.deep_view() == seq![a@],
{
    let r = vec![a.to_owned()];
    assert(r.deep_view() =~= seq![a@]);
    r
}

fn git_push(cwd: &str, script: &mut Script) -> (r: Option<Result<Json, String>>)
    requires
        old(script).wf(),
    ensures
        final(script).wf(),
        ran(push(cwd@, old(script)@.rest), json_result(r), final(script)@),
{
    let branch = match script.git(cwd, args3("rev-parse", "--abbrev-ref", "HEAD")) {
        Some(Ok(output)) => trim(output.as_str()),
        Some(Err(error)) => {
            return Some(Err(error));
        },
        None => {
            return None;
        },
    };
    match script.git(cwd, args1("push")) {
        Some(Ok(_)) => {},
        Some(Err(error)) => {
            if contains_text(error.as_str(), "no upstream") || contains_text(
                error.as_str(),
                "has no upstream branch",
            ) {
                match script.git(
                    cwd,
                    args4("push", "--set-upstream", "origin", branch.as_str()),
                ) {
                    Some(Ok(_)) => {},
                    Some(Err(error)) => {
                        return Some(Err(error));
                    },
                    None => {
                        return None;
                    },
                }
            } else if contains_text(error.as_str(), "rejected") {
                return Some(Err("Push rejected. Pull changes first.".to_owned()));
            } else {
                return Some(Err(error));
            }
        },
        None => {
            return None;
        },
    }
    let status = match git_status(cwd, script) {
        Some(Ok(status)) => status,
        Some(Err(error)) => {
            return Some(Err(error));
        },
        None => {
            return None;
        },
    };
    let mut out = JsonObject::new();
    out.insert("branch", Json::text(branch.as_str()));
    out.insert("remote", Json::text("origin"));
    out.insert("status", status);
    Some(Ok(Json::object(out)))
}

/// The answer of a request that only reports success and the status behind it.
pub open spec fn succeeded(cwd: Seq<char>, rest: Seq<Reply>) -> Run<Answer> {
    try_bind(
        status(cwd, rest),
        |status: JsonView, rest: Seq<Reply>|
            Run::Got(
                Ok(
                    JsonView::Object(
                        map!["success"@ => JsonView::Bool(true), "status"@ => status],
                    ),
                ),
                rest,
            ),
    )
}

fn report_success(cwd: &str, script: &mut Script) -> (r: Option<Result<Json, String>>)
    requires
        old(script).wf(),
    ensures
        final(script).wf(),
        ran(succeeded(cwd@, old(script)@.rest), json_result(r), final(script)@),
{
    let status = match git_status(cwd, script) {
        Some(Ok(status)) => status,
        Some(Err(error)) => {
            return Some(Err(error));
        },
        None => {
            return None;
        },
    };
    let mut out = JsonObject::new();
    out.insert("success", Json::Bool(true));
    out.insert("status", status);
    Some(Ok(Json::object(out)))
}

/// Pulls, and gives a rebase that fails up.
pub open spec fn pull(cwd: Seq<char>, rest: Seq<Reply>) -> Run<Answer> {
    bind(
        git(cwd, seq!["pull"@, "--rebase"@], rest),
        |reply: Reply, rest: Seq<Reply>|
            match reply {
                Ok(_) => succeeded(cwd, rest),
                Err(error) => bind(
                    git(cwd, seq!["rebase"@, "--abort"@], rest),
                    |aborted: Reply, rest: Seq<Reply>|
                        Run::Got(
                            Err(
                                if error.len() == 0 {
                                    "Pull failed due to conflicts. Rebase aborted."@
                                } else {
                                    error
                                },
                            ),
                            rest,
                        ),
                ),
            },
    )
}

fn git_pull(cwd: &str, script: &mut Script) -> (r: Option<Result<Json, String>>)
    requires
        old(script).wf(),
    ensures
        final(script).wf(),
        ran(pull(cwd@, old(script)@.rest), json_result(r), final(script)@),
{
    match script.git(cwd, args2("pull", "--rebase")) {
        Some(Ok(_)) => {},
        Some(Err(error)) => {
            match script.git(cwd, args2("rebase", "--abort")) {
                Some(_) => {},
                None => {
                    return None;
                },
            }
            return Some(
                Err(
                    if error.as_str().is_empty() {
                        "Pull failed due to conflicts. Rebase aborted.".to_owned()
                    } else {
                        error
                    },
                ),
            );
        },
        None => {
            return None;
        },
    }
    report_success(cwd, script)
}

// Branches.

/// The project in every worktree, by branch. A later worktree of a branch replaces an earlier
/// one.
pub open spec fn scoped_worktrees(
    pairs: Seq<(Seq<char>, Seq<char>)>,
    relative: Seq<char>,
    found: Map<Seq<char>, JsonView>,
    rest: Seq<Reply>,
) -> Run<Map<Seq<char>, JsonView>>
    decreases pairs.len(),
{
    if pairs.len() == 0 {
        Run::Got(found, rest)
    } else {
        match scoped_worktree(pairs[0].1, relative, rest) {
            Run::Ask(action) => Run::Ask(action),
            Run::Got(path, rest) => scoped_worktrees(
                pairs.skip(1),
                relative,
                found.insert(pairs[0].0, JsonView::Text(path)),
                rest,
            ),
        }
    }
}

/// The project in every worktree, by branch; none where git does not list the worktrees.
pub open spec fn worktree_paths(
    cwd: Seq<char>,
    relative: Seq<char>,
    rest: Seq<Reply>,
) -> Run<Map<Seq<char>, JsonView>> {
    bind(
        git(cwd, seq!["worktree"@, "list"@, "--porcelain"@], rest),
        |reply: Reply, rest: Seq<Reply>|
            match reply {
                Ok(output) => scoped_worktrees(worktrees(output), relative, Map::empty(), rest),
                Err(_) => Run::Got(Map::empty(), rest),
            },
    )
}

fn git_worktree_path_by_branch(cwd: &str, relative: &str, script: &mut Script) -> (r: Option<
    JsonObject,
>)
    requires
        old(script).wf(),
    ensures
        final(script).wf(),
        ran(
            worktree_paths(cwd@, relative@, old(script)@.rest),
            match r {
                Some(found) => Some(found.view()),
                None => None,
            },
            final(script)@,
        ),
{
    let ghost start = script@.rest;
    let output = match script.git(cwd, args3("worktree", "list", "--porcelain")) {
        Some(Ok(output)) => output,
        Some(Err(_)) => {
            return Some(JsonObject::new());
        },
        None => {
            return None;
        },
    };
    let pairs = parse_worktree_list(output.as_str());
    let ghost all = pairs_view(pairs@);
    let mut found = JsonObject::new();
    let ghost run = scoped_worktrees(all, relative@, Map::empty(), script@.rest);
    assert(run == worktree_paths(cwd@, relative@, start));
    let mut i: usize = 0;
    assert(all.skip(0) =~= all);
    while i < pairs.len()
        invariant
            script.wf(),
            start == old(script)@.rest,
            i <= pairs@.len(),
            all == pairs_view(pairs@),
            run == worktree_paths(cwd@, relative@, start),
            run == scoped_worktrees(all.skip(i as int), relative@, found.view(), script@.rest),
        decreases pairs@.len() - i,
    {
        assert(all.skip(i as int)[0] == (pairs@[i as int].0@, pairs@[i as int].1@));
        assert(all.skip(i as int).skip(1) =~= all.skip(i + 1));
        match scoped_worktree_path(pairs[i].1.as_str(), relative, script) {
            Some(path) => {
                found.insert(pairs[i].0.as_str(), Json::Text(path));
            },
            None => {
                return None;
            },
        }
        i = i + 1;
    }
    Some(found)
}

/// The branch that others start from: the one that the remote names, else `main` or `master`,
/// else the first.
pub open spec fn default_branch(
    cwd: Seq<char>,
    branches: Seq<Seq<char>>,
    rest: Seq<Reply>,
) -> Run<Option<Seq<char>>> {
    bind(
        git(cwd, seq!["symbolic-ref"@, "refs/remotes/origin/HEAD"@], rest),
        |reply: Reply, rest: Seq<Reply>|
            match reply {
                Ok(reference) => if remote_head(reference).len() > 0 {
                    Run::Got(Some(remote_head(reference)), rest)
                } else {
                    guessed_default(cwd, branches, rest)
                },
                Err(_) => guessed_default(cwd, branches, rest),
            },
    )
}

/// The branch that a reference to the remote's default names.
pub open spec fn remote_head(reference: Seq<char>) -> Seq<char> {
    trimmed(trim_start_text(trimmed(reference), "refs/remotes/origin/"@))
}

pub open spec fn guessed_default(
    cwd: Seq<char>,
    branches: Seq<Seq<char>>,
    rest: Seq<Reply>,
) -> Run<Option<Seq<char>>> {
    bind(
        remote_branch_exists(cwd, "main"@, rest),
        |main: bool, rest: Seq<Reply>|
            if main {
                Run::Got(Some("main"@), rest)
            } else {
                bind(
                    remote_branch_exists(cwd, "master"@, rest),
                    |master: bool, rest: Seq<Reply>|
                        Run::Got(
                            if master {
                                Some("master"@)
                            } else {
                                local_default(branches)
                            },
                            rest,
                        ),
                )
            },
    )
}

pub open spec fn local_default(branches: Seq<Seq<char>>) -> Option<Seq<char>> {
    if branches.contains("main"@) {
        Some("main"@)
    } else if branches.contains("master"@) {
        Some("master"@)
    } else if branches.len() > 0 {
        Some(branches[0])
    } else {
        None
    }
}

fn detect_default_branch(cwd: &str, branches: &Vec<String>, script: &mut Script) -> (r: Option<
    Option<String>,
>)
    requires
        old(script).wf(),
    ensures
        final(script).wf(),
        ran(
            default_branch(cwd@, branches.deep_view(), old(script)@.rest),
            match r {
                Some(branch) => Some(branch.deep_view()),
                None => None,
            },
            final(script)@,
        ),
{
    proof {
        reveal_strlit("refs/remotes/origin/");
    }
    match script.git(cwd, args2("symbolic-ref", "refs/remotes/origin/HEAD")) {
        Some(Ok(reference)) => {
            let head = trim(reference.as_str());
            let branch = trim(
                trim_start_matches(head.as_str(), "refs/remotes/origin/").as_str(),
            );
            if !branch.as_str().is_empty() {
                return Some(Some(branch));
            }
        },
        Some(Err(_)) => {},
        None => {
            return None;
        },
    }
    match has_remote_branch(cwd, "main", script) {
        Some(true) => {
            return Some(Some("main".to_owned()));
        },
        Some(false) => {},
        None => {
            return None;
        },
    }
    match has_remote_branch(cwd, "master", script) {
        Some(true) => {
            return Some(Some("master".to_owned()));
        },
        Some(false) => {},
        None => {
            return None;
        },
    }
    if crate::text::has_text(branches, "main") {
        return Some(Some("main".to_owned()));
    }
    if crate::text::has_text(branches, "master") {
        return Some(Some("master".to_owned()));
    }
    if branches.len() > 0 {
        return Some(Some(branches[0].clone()));
    }
    Some(None)
}

/// The branches as they are sent to the phone.
pub open spec fn branches_view(
    output: Seq<char>,
    worktree_paths: Map<Seq<char>, JsonView>,
    local_checkout: Option<Seq<char>>,
    default: Option<Seq<char>>,
) -> JsonView {
    let list = list_branches(lines(output));
    JsonView::Object(
        map![
            "branches"@ => text_array(sorted(list.branches)),
            "branchesCheckedOutElsewhere"@ => text_array(sorted(list.elsewhere)),
            "worktreePathByBranch"@ => JsonView::Object(worktree_paths),
            "localCheckoutPath"@ => opt_text(local_checkout),
            "current"@ => JsonView::Text(list.current),
            "default"@ => opt_text(default),
        ],
    )
}

/// Where the project lies in its working copy, where that is known.
pub open spec fn relative_below(cwd: Seq<char>, root: Reply, rest: Seq<Reply>) -> Run<Seq<char>> {
    match root {
        Ok(root) => project_relative_path(cwd, root, rest),
        Err(_) => Run::Got(Seq::empty(), rest),
    }
}

/// The project in the main checkout, where that is known and the project is there.
pub open spec fn local_checkout(root: Reply, relative: Seq<char>, rest: Seq<Reply>) -> Run<
    Option<Seq<char>>,
> {
    match root {
        Ok(root) => bind(
            scoped_checkout(root, relative, rest),
            |found: (Seq<char>, Option<Seq<char>>), rest: Seq<Reply>| Run::Got(found.1, rest),
        ),
        Err(_) => Run::Got(None, rest),
    }
}

/// The branches of a repository.
pub open spec fn branches(cwd: Seq<char>, rest: Seq<Reply>) -> Run<Answer> {
    try_bind(
        git(cwd, seq!["branch"@, "--no-color"@], rest),
        |output: Seq<char>, rest: Seq<Reply>|
            bind(
                repo_root(cwd, rest),
                |root: Reply, rest: Seq<Reply>|
                    bind(
                        local_checkout_root(cwd, rest),
                        |checkout_root: Reply, rest: Seq<Reply>|
                            bind(
                                relative_below(cwd, root, rest),
                                |relative: Seq<char>, rest: Seq<Reply>|
                                    bind(
                                        worktree_paths(cwd, relative, rest),
                                        |paths: Map<Seq<char>, JsonView>, rest: Seq<Reply>|
                                            bind(
                                                local_checkout(checkout_root, relative, rest),
                                                |checkout: Option<Seq<char>>, rest: Seq<Reply>|
                                                    bind(
                                                        default_branch(
                                                            cwd,
                                                            sorted(
                                                                list_branches(
                                                                    lines(output),
                                                                ).branches,
                                                            ),
                                                            rest,
                                                        ),
                                                        |
                                                            default: Option<Seq<char>>,
                                                            rest: Seq<Reply>,
                                                        |
                                                            Run::Got(
                                                                Ok(
                                                                    branches_view(
                                                                        output,
                                                                        paths,
                                                                        checkout,
                                                                        default,
                                                                    ),
                                                                ),
                                                                rest,
                                                            ),
                                                    ),
                                            ),
                                    ),
                            ),
                    ),
            ),
    )
}

fn git_branches(cwd: &str, script: &mut Script) -> (r: Option<Result<JsonObject, String>>)
    requires
        old(script).wf(),
    ensures
        final(script).wf(),
        ran(
            branches(cwd@, old(script)@.rest),
            match r {
                Some(Ok(found)) => Some(Ok(JsonView::Object(found.view()))),
                Some(Err(error)) => Some(Err(error@)),
                None => None,
            },
            final(script)@,
        ),
{
    let output = match script.git(cwd, args2("branch", "--no-color")) {
        Some(Ok(output)) => output,
        Some(Err(error)) => {
            return Some(Err(error));
        },
        None => {
            return None;
        },
    };
    let root = match resolve_repo_root(cwd, script) {
        Some(Ok(root)) => Some(root),
        Some(Err(_)) => None,
        None => {
            return None;
        },
    };
    let checkout_root = match resolve_local_checkout_root(cwd, script) {
        Some(Ok(root)) => Some(root),
        Some(Err(_)) => None,
        None => {
            return None;
        },
    };
    let mut relative = String::new();
    if let Some(root) = &root {
        relative = match resolve_project_relative_path(cwd, root.as_str(), script) {
            Some(path) => path,
            None => {
                return None;
            },
        };
    }
    let paths = match git_worktree_path_by_branch(cwd, relative.as_str(), script) {
        Some(paths) => paths,
        None => {
            return None;
        },
    };
    let mut checkout: Option<String> = None;
    if let Some(root) = &checkout_root {
        checkout = match scoped_local_checkout_path(root.as_str(), relative.as_str(), script) {
            Some((_, path)) => path,
            None => {
                return None;
            },
        };
    }
    let listed = parse_branch_list(output.as_str());
    let branches = sort_texts(listed.branches);
    let elsewhere = sort_texts(listed.elsewhere);
    let default = match detect_default_branch(cwd, &branches, script) {
        Some(branch) => branch,
        None => {
            return None;
        },
    };
    let mut out = JsonObject::new();
    out.insert("branches", Json::texts(&branches));
    out.insert("branchesCheckedOutElsewhere", Json::texts(&elsewhere));
    out.insert("worktreePathByBranch", Json::object(paths));
    out.insert("localCheckoutPath", Json::opt_text(&checkout));
    out.insert("current", Json::Text(listed.current));
    out.insert("default", Json::opt_text(&default));
    Some(Ok(out))
}

/// The status behind a checkout, and the branch that is checked out now.
pub open spec fn checked_out(branch: Seq<char>, status: JsonView) -> JsonView {
    JsonView::Object(
        map![
            "current"@ => match status.get("branch"@) {
                Some(current) => current,
                None => JsonView::Text(branch),
            },
            "tracking"@ => match status.get("tracking"@) {
                Some(tracking) => tracking,
                None => JsonView::Null,
            },
            "status"@ => status,
        ],
    )
}

/// What a checkout that failed is reported as.
pub open spec fn checkout_failure(error: Seq<char>) -> Seq<char> {
    if contains(error, "would be overwritten"@) {
        "Cannot switch branches: you have uncommitted changes."@
    } else if contains(error, "already used by worktree"@) {
        "Cannot switch branches: this branch is already open in another worktree."@
    } else {
        error
    }
}

/// Checks a branch out.
pub open spec fn checkout(cwd: Seq<char>, params: JsonView, rest: Seq<Reply>) -> Run<Answer> {
    match params.read("branch"@) {
        None => Run::Got(Err("Branch name is required."@), rest),
        Some(branch) => bind(
            git(cwd, seq!["checkout"@, branch], rest),
            |reply: Reply, rest: Seq<Reply>|
                match reply {
                    Err(error) => Run::Got(Err(checkout_failure(error)), rest),
                    Ok(_) => try_bind(
                        status(cwd, rest),
                        |status: JsonView, rest: Seq<Reply>|
                            Run::Got(Ok(checked_out(branch, status)), rest),
                    ),
                },
        ),
    }
}

fn git_checkout(cwd: &str, params: &Json, script: &mut Script) -> (r: Option<Result<Json, String>>)
    requires
        old(script).wf(),
    ensures
        final(script).wf(),
        ran(checkout(cwd@, params@, old(script)@.rest), json_result(r), final(script)@),
{
    let branch = match params.read("branch") {
        Some(branch) => branch,
        None => {
            return Some(Err("Branch name is required.".to_owned()));
        },
    };
    match script.git(cwd, args2("checkout", branch.as_str())) {
        Some(Ok(_)) => {},
        Some(Err(error)) => {
            if contains_text(error.as_str(), "would be overwritten") {
                return Some(
                    Err("Cannot switch branches: you have uncommitted changes.".to_owned()),
                );
            }
            if contains_text(error.as_str(), "already used by worktree") {
                return Some(
                    Err(
                        "Cannot switch branches: this branch is already open in another worktree.".to_owned(),
                    ),
                );
            }
            return Some(Err(error));
        },
        None => {
            return None;
        },
    }
    let status = match git_status(cwd, script) {
        Some(Ok(status)) => status,
        Some(Err(error)) => {
            return Some(Err(error));
        },
        None => {
            return None;
        },
    };
    let mut out = JsonObject::new();
    out.insert(
        "current",
        match status.get("branch") {
            Some(current) => current.clone(),
            None => Json::Text(branch),
        },
    );
    out.insert(
        "tracking",
        match status.get("tracking") {
            Some(tracking) => tracking.clone(),
            None => Json::Null,
        },
    );
    out.insert("status", status);
    Some(Ok(Json::object(out)))
}

/// A sentence about a branch: `before`, the branch in quotes, `after`.
pub open spec fn about_branch(before: Seq<char>, branch: Seq<char>, after: Seq<char>) -> Seq<char> {
    before + "'"@ + branch + "'"@ + after
}

fn tell_branch(before: &str, branch: &str, after: &str) -> (r: String)
    ensures
        r@ == about_branch(before@, branch@, after@),
{
    let mut text = concat3(before, "'", branch);
    text.append("'");
    text.append(after);
    text
}

/// The branch that a request names, in the form in which it is created.
pub open spec fn requested_branch(params: JsonView) -> Seq<char> {
    created_branch_name(or_empty(params.get_str("name"@)))
}

fn read_requested_branch(params: &Json) -> (r: String)
    ensures
        r@ == requested_branch(params@),
{
    match params.get_str("name") {
        Some(name) => normalize_created_branch_name(name),
        None => normalize_created_branch_name(String::new().as_str()),
    }
}

/// Whether git takes a name for a branch.
pub open spec fn valid_branch_name(cwd: Seq<char>, branch: Seq<char>, rest: Seq<Reply>) -> Run<
    Result<(), Seq<char>>,
> {
    bind(
        git(cwd, seq!["check-ref-format"@, "--branch"@, branch], rest),
        |reply: Reply, rest: Seq<Reply>|
            Run::Got(
                match reply {
                    Ok(_) => Ok(()),
                    Err(_) => Err(
                        about_branch("Branch "@, branch, " is not a valid Git branch name."@),
                    ),
                },
                rest,
            ),
    )
}

fn assert_valid_created_branch_name(cwd: &str, branch: &str, script: &mut Script) -> (r: Option<
    Result<(), String>,
>)
    requires
        old(script).wf(),
    ensures
        final(script).wf(),
        ran(
            valid_branch_name(cwd@, branch@, old(script)@.rest),
            match r {
                Some(Ok(_)) => Some(Ok(())),
                Some(Err(error)) => Some(Err(error@)),
                None => None,
            },
            final(script)@,
        ),
{
    match script.git(cwd, args3("check-ref-format", "--branch", branch)) {
        Some(Ok(_)) => Some(Ok(())),
        Some(Err(_)) => Some(
            Err(tell_branch("Branch ", branch, " is not a valid Git branch name.")),
        ),
        None => None,
    }
}

/// Whether a branch is on the remote and not here.
pub open spec fn only_on_remote(cwd: Seq<char>, branch: Seq<char>, rest: Seq<Reply>) -> Run<bool> {
    bind(
        local_branch_exists(cwd, branch, rest),
        |local: bool, rest: Seq<Reply>|
            if local {
                Run::Got(false, rest)
            } else {
                remote_branch_exists(cwd, branch, rest)
            },
    )
}

/// Creates a branch and checks it out.
pub open spec fn create_branch(cwd: Seq<char>, params: JsonView, rest: Seq<Reply>) -> Run<Answer> {
    let branch = requested_branch(params);
    if branch.len() == 0 {
        Run::Got(Err("Branch name is required."@), rest)
    } else {
        try_bind(
            valid_branch_name(cwd, branch, rest),
            |valid: (), rest: Seq<Reply>|
                bind(
                    only_on_remote(cwd, branch, rest),
                    |remote: bool, rest: Seq<Reply>|
                        if remote {
                            Run::Got(
                                Err(
                                    about_branch(
                                        "Branch "@,
                                        branch,
                                        " already exists on origin. Check it out locally instead of creating a new branch."@,
                                    ),
                                ),
                                rest,
                            )
                        } else {
                            bind(
                                git(cwd, seq!["checkout"@, "-b"@, branch], rest),
                                |reply: Reply, rest: Seq<Reply>|
                                    match reply {
                                        Err(error) => Run::Got(
                                            Err(
                                                if contains(error, "already exists"@) {
                                                    about_branch(
                                                        "Branch "@,
                                                        branch,
                                                        " already exists."@,
                                                    )
                                                } else {
                                                    error
                                                },
                                            ),
                                            rest,
                                        ),
                                        Ok(_) => try_bind(
                                            status(cwd, rest),
                                            |status: JsonView, rest: Seq<Reply>|
                                                Run::Got(
                                                    Ok(
                                                        JsonView::Object(
                                                            map![
                                                                "branch"@ => JsonView::Text(branch),
                                                                "status"@ => status,
                                                            ],
                                                        ),
                                                    ),
                                                    rest,
                                                ),
                                        ),
                                    },
                            )
                        },
                ),
        )
    }
}

fn git_create_branch(cwd: &str, params: &Json, script: &mut Script) -> (r: Option<
    Result<Json, String>,
>)
    requires
        old(script).wf(),
    ensures
        final(script).wf(),
        ran(create_branch(cwd@, params@, old(script)@.rest), json_result(r), final(script)@),
{
    let branch = read_requested_branch(params);
    if branch.as_str().is_empty() {
        return Some(Err("Branch name is required.".to_owned()));
    }
    match assert_valid_created_branch_name(cwd, branch.as_str(), script) {
        Some(Ok(_)) => {},
        Some(Err(error)) => {
            return Some(Err(error));
        },
        None => {
            return None;
        },
    }
    match has_local_branch(cwd, branch.as_str(), script) {
        Some(true) => {},
        Some(false) => {
            match has_remote_branch(cwd, branch.as_str(), script) {
                Some(true) => {
                    return Some(
                        Err(
                            tell_branch(
                                "Branch ",
                                branch.as_str(),
                                " already exists on origin. Check it out locally instead of creating a new branch.",
                            ),
                        ),
                    );
                },
                Some(false) => {},
                None => {
                    return None;
                },
            }
        },
        None => {
            return None;
        },
    }
    match script.git(cwd, args3("checkout", "-b", branch.as_str())) {
        Some(Ok(_)) => {},
        Some(Err(error)) => {
            if contains_text(error.as_str(), "already exists") {
                return Some(Err(tell_branch("Branch ", branch.as_str(), " already exists.")));
            }
            return Some(Err(error));
        },
        None => {
            return None;
        },
    }
    let status = match git_status(cwd, script) {
        Some(Ok(status)) => status,
        Some(Err(error)) => {
            return Some(Err(error));
        },
        None => {
            return None;
        },
    };
    let mut out = JsonObject::new();
    out.insert("branch", Json::Text(branch));
    out.insert("status", status);
    Some(Ok(Json::object(out)))
}

// Worktrees.

/// Looks for a place for a worktree, at most `tries` times.
pub open spec fn free_worktree_path(
    worktrees_root: Seq<char>,
    name: Seq<char>,
    tries: nat,
    rest: Seq<Reply>,
) -> Run<Reply>
    decreases tries,
{
    if tries == 0 {
        Run::Got(Err("Could not allocate a managed worktree path."@), rest)
    } else {
        match fresh_worktree_path(worktrees_root, name, rest) {
            Run::Ask(action) => Run::Ask(action),
            Run::Got(Err(error), rest) => Run::Got(Err(error), rest),
            Run::Got(Ok(Some(path)), rest) => Run::Got(Ok(path), rest),
            Run::Got(Ok(None), rest) => free_worktree_path(
                worktrees_root,
                name,
                (tries - 1) as nat,
                rest,
            ),
        }
    }
}

/// Takes a random place for a worktree, unless something is there.
pub open spec fn fresh_worktree_path(
    worktrees_root: Seq<char>,
    name: Seq<char>,
    rest: Seq<Reply>,
) -> Run<Result<Option<Seq<char>>, Seq<char>>> {
    try_bind(
        ask(ActionView::FreshToken, rest),
        |token: Seq<char>, rest: Seq<Reply>|
            {
                let directory = path_join(worktrees_root, take_chars(token, 4));
                let path = path_join(directory, name);
                bind(
                    ask(ActionView::Exists(directory), rest),
                    |taken: Reply, rest: Seq<Reply>|
                        if taken is Ok {
                            Run::Got(Ok(None), rest)
                        } else {
                            bind(
                                ask(ActionView::Exists(path), rest),
                                |taken: Reply, rest: Seq<Reply>|
                                    if taken is Ok {
                                        Run::Got(Ok(None), rest)
                                    } else {
                                        try_bind(
                                            ask(ActionView::CreateDirs(directory), rest),
                                            |made: Seq<char>, rest: Seq<Reply>|
                                                Run::Got(Ok(Some(path)), rest),
                                        )
                                    },
                            )
                        },
                )
            },
    )
}

/// The directory of the worktrees that the bridge manages.
pub open spec fn worktrees_root(rest: Seq<Reply>) -> Run<Reply> {
    try_bind(
        ask(ActionView::CodexHome, rest),
        |home: Seq<char>, rest: Seq<Reply>| Run::Got(Ok(path_join(home, "worktrees"@)), rest),
    )
}

/// A new place for a worktree of a repository.
pub open spec fn managed_worktree_path(root: Seq<char>, rest: Seq<Reply>) -> Run<Reply> {
    try_bind(
        worktrees_root(rest),
        |worktrees_root: Seq<char>, rest: Seq<Reply>|
            try_bind(
                ask(ActionView::CreateDirs(worktrees_root), rest),
                |made: Seq<char>, rest: Seq<Reply>|
                    free_worktree_path(
                        worktrees_root,
                        match path_file_name(root) {
                            Some(name) => name,
                            None => "repo"@,
                        },
                        16,
                        rest,
                    ),
            ),
    )
}

fn managed_worktrees_root(script: &mut Script) -> (r: Option<Result<String, String>>)
    requires
        old(script).wf(),
    ensures
        final(script).wf(),
        ran(worktrees_root(old(script)@.rest), text_result(r), final(script)@),
{
    match script.ask(Action::CodexHome) {
        Some(Ok(home)) => Some(Ok(join_path(home.as_str(), "worktrees"))),
        Some(Err(error)) => Some(Err(error)),
        None => None,
    }
}

fn take_worktree_path(worktrees_root: &str, name: &str, script: &mut Script) -> (r: Option<
    Result<Option<String>, String>,
>)
    requires
        old(script).wf(),
    ensures
        final(script).wf(),
        ran(
            fresh_worktree_path(worktrees_root@, name@, old(script)@.rest),
            match r {
                Some(Ok(path)) => Some(Ok(path.deep_view())),
                Some(Err(error)) => Some(Err(error@)),
                None => None,
            },
            final(script)@,
        ),
{
    let token = match script.ask(Action::FreshToken) {
        Some(Ok(token)) => chars_to(token.as_str(), 4),
        Some(Err(error)) => {
            return Some(Err(error));
        },
        None => {
            return None;
        },
    };
    let directory = join_path(worktrees_root, token.as_str());
    let path = join_path(directory.as_str(), name);
    match script.ask(Action::Exists(directory.clone())) {
        Some(Ok(_)) => {
            return Some(Ok(None));
        },
        Some(Err(_)) => {},
        None => {
            return None;
        },
    }
    match script.ask(Action::Exists(path.clone())) {
        Some(Ok(_)) => {
            return Some(Ok(None));
        },
        Some(Err(_)) => {},
        None => {
            return None;
        },
    }
    match script.ask(Action::CreateDirs(directory)) {
        Some(Ok(_)) => Some(Ok(Some(path))),
        Some(Err(error)) => Some(Err(error)),
        None => None,
    }
}

fn allocate_managed_worktree_path(root: &str, script: &mut Script) -> (r: Option<
    Result<String, String>,
>)
    requires
        old(script).wf(),
    ensures
        final(script).wf(),
        ran(managed_worktree_path(root@, old(script)@.rest), text_result(r), final(script)@),
{
    let ghost start = script@.rest;
    let directory = match managed_worktrees_root(script) {
        Some(Ok(directory)) => directory,
        Some(Err(error)) => {
            return Some(Err(error));
        },
        None => {
            return None;
        },
    };
    match script.ask(Action::CreateDirs(directory.clone())) {
        Some(Ok(_)) => {},
        Some(Err(error)) => {
            return Some(Err(error));
        },
        None => {
            return None;
        },
    }
    let name = match file_name_of(root) {
        Some(name) => name,
        None => "repo".to_owned(),
    };
    let ghost run = free_worktree_path(directory@, name@, 16, script@.rest);
    assert(run == managed_worktree_path(root@, start));
    let mut tries: usize = 16;
    while tries > 0
        invariant
            script.wf(),
            start == old(script)@.rest,
            run == managed_worktree_path(root@, start),
            run == free_worktree_path(directory@, name@, tries as nat, script@.rest),
        decreases tries,
    {
        match take_worktree_path(directory.as_str(), name.as_str(), script) {
            Some(Ok(Some(path))) => {
                return Some(Ok(path));
            },
            Some(Ok(None)) => {},
            Some(Err(error)) => {
                return Some(Err(error));
            },
            None => {
                return None;
            },
        }
        tries = tries - 1;
    }
    Some(Err("Could not allocate a managed worktree path.".to_owned()))
}

/// What is known when a worktree is about to be created.
pub struct WorktreePlan {
    pub branch: Seq<char>,
    pub base: Seq<char>,
    pub root: Seq<char>,
    pub relative: Seq<char>,
    /// Whether the working copy has changes that go into the worktree.
    pub carry: bool,
    /// Whether the changes stay where they are as well.
    pub copy: bool,
}

/// What a worktree that could not be added is reported as.
pub open spec fn add_failure(plan: WorktreePlan, error: Seq<char>) -> Seq<char> {
    if contains(error, "invalid reference"@) {
        about_branch("Base branch "@, plan.base, " does not exist."@)
    } else if contains(error, "already exists"@) {
        about_branch("Branch "@, plan.branch, " already exists."@)
    } else if contains(error, "already used by worktree"@) || contains(
        error,
        "already checked out at"@,
    ) {
        about_branch("Branch "@, plan.branch, " is already open in another worktree."@)
    } else {
        error
    }
}

/// What is removed where a worktree could not be added: the directory made for it.
pub open spec fn around(path: Seq<char>) -> Seq<char> {
    match path_parent(path) {
        Some(parent) => parent,
        None => path,
    }
}

/// The patch to be copied into the worktree.
pub open spec fn carried_patch(plan: WorktreePlan, rest: Seq<Reply>) -> Run<Reply> {
    if plan.carry && plan.copy {
        local_changes_patch(plan.root, rest)
    } else {
        Run::Got(Ok(Seq::empty()), rest)
    }
}

/// The changes are moved into the worktree by way of a stash. One that cannot be found again or
/// does not fit stays a stash.
pub open spec fn moved_changes(plan: WorktreePlan, path: Seq<char>, rest: Seq<Reply>) -> Run<
    Result<(), Seq<char>>,
> {
    if plan.carry && !plan.copy {
        try_bind(
            ask(ActionView::FreshToken, rest),
            |token: Seq<char>, rest: Seq<Reply>|
                {
                    let label = "remodex-worktree-handoff-"@ + token;
                    try_bind(
                        git(
                            plan.root,
                            seq!["stash"@, "push"@, "--include-untracked"@, "--message"@, label],
                            rest,
                        ),
                        |output: Seq<char>, rest: Seq<Reply>|
                            if contains(output, "No local changes"@) {
                                Run::Got(Ok(()), rest)
                            } else {
                                try_bind(
                                    git(
                                        plan.root,
                                        seq!["stash"@, "list"@, "--format=%gd%x00%s"@],
                                        rest,
                                    ),
                                    |stashes: Seq<char>, rest: Seq<Reply>|
                                        match stash_ref(stashes, label) {
                                            Some(reference) => bind(
                                                git(
                                                    path,
                                                    seq!["stash"@, "pop"@, reference],
                                                    rest,
                                                ),
                                                |popped: Reply, rest: Seq<Reply>|
                                                    Run::Got(Ok(()), rest),
                                            ),
                                            None => Run::Got(Ok(()), rest),
                                        },
                                )
                            },
                    )
                },
        )
    } else {
        Run::Got(Ok(()), rest)
    }
}

fn move_changes(root: &str, carry: bool, copy: bool, path: &str, script: &mut Script) -> (r: Option<
    Result<(), String>,
>)
    requires
        old(script).wf(),
    ensures
        final(script).wf(),
        forall|plan: WorktreePlan|
            plan.root == root@ && plan.carry == carry && plan.copy == copy ==> ran(
                #[trigger] moved_changes(plan, path@, old(script)@.rest),
                match r {
                    Some(Ok(_)) => Some(Ok(())),
                    Some(Err(error)) => Some(Err(error@)),
                    None => None,
                },
                final(script)@,
            ),
{
    if !carry || copy {
        return Some(Ok(()));
    }
    let label = match script.ask(Action::FreshToken) {
        Some(Ok(token)) => concat2("remodex-worktree-handoff-", token.as_str()),
        Some(Err(error)) => {
            return Some(Err(error));
        },
        None => {
            return None;
        },
    };
    match script.git(
        root,
        args5("stash", "push", "--include-untracked", "--message", label.as_str()),
    ) {
        Some(Ok(output)) => {
            if contains_text(output.as_str(), "No local changes") {
                return Some(Ok(()));
            }
        },
        Some(Err(error)) => {
            return Some(Err(error));
        },
        None => {
            return None;
        },
    }
    match script.git(root, args3("stash", "list", "--format=%gd%x00%s")) {
        Some(Ok(stashes)) => match find_stash_ref_by_label(stashes.as_str(), label.as_str()) {
            Some(reference) => match script.git(
                path,
                args3("stash", "pop", reference.as_str()),
            ) {
                Some(_) => Some(Ok(())),
                None => None,
            },
            None => Some(Ok(())),
        },
        Some(Err(error)) => Some(Err(error)),
        None => None,
    }
}

/// A patch is applied to the worktree.
pub open spec fn applied_patch(path: Seq<char>, patch: Seq<char>, rest: Seq<Reply>) -> Run<
    Result<(), Seq<char>>,
> {
    if is_blank(patch) {
        Run::Got(Ok(()), rest)
    } else {
        try_bind(
            ask(ActionView::TempDir, rest),
            |directory: Seq<char>, rest: Seq<Reply>|
                try_bind(
                    ask(ActionView::FreshToken, rest),
                    |token: Seq<char>, rest: Seq<Reply>|
                        {
                            let file = path_join(
                                directory,
                                "remodex-worktree-copy-"@ + token + ".patch"@,
                            );
                            try_bind(
                                ask(
                                    ActionView::WriteFile {
                                        path: file,
                                        contents: with_newline(patch),
                                    },
                                    rest,
                                ),
                                |written: Seq<char>, rest: Seq<Reply>|
                                    bind(
                                        git(
                                            path,
                                            seq![
                                                "apply"@,
                                                "--binary"@,
                                                "--whitespace=nowarn"@,
                                                file,
                                            ],
                                            rest,
                                        ),
                                        |applied: Reply, rest: Seq<Reply>|
                                            bind(
                                                ask(ActionView::RemoveFile(file), rest),
                                                |removed: Reply, rest: Seq<Reply>|
                                                    Run::Got(
                                                        match applied {
                                                            Ok(_) => Ok(()),
                                                            Err(error) => Err(error),
                                                        },
                                                        rest,
                                                    ),
                                            ),
                                    ),
                            )
                        },
                ),
        )
    }
}

fn apply_copied_local_changes_to_worktree(path: &str, patch: &str, script: &mut Script) -> (r:
    Option<Result<(), String>>)
    requires
        old(script).wf(),
    ensures
        final(script).wf(),
        ran(
            applied_patch(path@, patch@, old(script)@.rest),
            match r {
                Some(Ok(_)) => Some(Ok(())),
                Some(Err(error)) => Some(Err(error@)),
                None => None,
            },
            final(script)@,
        ),
{
    if blank(patch) {
        return Some(Ok(()));
    }
    let directory = match script.ask(Action::TempDir) {
        Some(Ok(directory)) => directory,
        Some(Err(error)) => {
            return Some(Err(error));
        },
        None => {
            return None;
        },
    };
    let file = match script.ask(Action::FreshToken) {
        Some(Ok(token)) => join_path(
            directory.as_str(),
            concat3("remodex-worktree-copy-", token.as_str(), ".patch").as_str(),
        ),
        Some(Err(error)) => {
            return Some(Err(error));
        },
        None => {
            return None;
        },
    };
    match script.ask(
        Action::WriteFile { path: file.clone(), contents: ensure_trailing_newline(patch) },
    ) {
        Some(Ok(_)) => {},
        Some(Err(error)) => {
            return Some(Err(error));
        },
        None => {
            return None;
        },
    }
    let applied = match script.git(
        path,
        args4("apply", "--binary", "--whitespace=nowarn", file.as_str()),
    ) {
        Some(applied) => applied,
        None => {
            return None;
        },
    };
    match script.ask(Action::RemoveFile(file)) {
        Some(_) => {},
        None => {
            return None;
        },
    }
    match applied {
        Ok(_) => Some(Ok(())),
        Err(error) => Some(Err(error)),
    }
}

/// What the phone is told of a worktree.
pub open spec fn worktree_view(
    branch: Seq<char>,
    path: Seq<char>,
    already_existed: bool,
) -> JsonView {
    JsonView::Object(
        map![
            "branch"@ => JsonView::Text(branch),
            "worktreePath"@ => JsonView::Text(path),
            "alreadyExisted"@ => JsonView::Bool(already_existed),
        ],
    )
}

fn worktree_json(branch: &str, path: &str, already_existed: bool) -> (r: Json)
    ensures
        r@ == worktree_view(branch@, path@, already_existed),
{
    let mut out = JsonObject::new();
    out.insert("branch", Json::text(branch));
    out.insert("worktreePath", Json::text(path));
    out.insert("alreadyExisted", Json::Bool(already_existed));
    Json::object(out)
}

/// The worktree is there: the changes go into it.
pub open spec fn filled_worktree(
    plan: WorktreePlan,
    path: Seq<char>,
    patch: Seq<char>,
    rest: Seq<Reply>,
) -> Run<Answer> {
    try_bind(
        moved_changes(plan, path, rest),
        |moved: (), rest: Seq<Reply>|
            try_bind(
                applied_patch(path, patch, rest),
                |applied: (), rest: Seq<Reply>|
                    bind(
                        scoped_worktree(path, plan.relative, rest),
                        |scoped: Seq<char>, rest: Seq<Reply>|
                            Run::Got(Ok(worktree_view(plan.branch, scoped, false)), rest),
                    ),
            ),
    )
}

/// A worktree for a new branch is made.
pub open spec fn added_worktree(plan: WorktreePlan, rest: Seq<Reply>) -> Run<Answer> {
    try_bind(
        managed_worktree_path(plan.root, rest),
        |path: Seq<char>, rest: Seq<Reply>|
            try_bind(
                carried_patch(plan, rest),
                |patch: Seq<char>, rest: Seq<Reply>|
                    bind(
                        git(
                            plan.root,
                            seq!["worktree"@, "add"@, "-b"@, plan.branch, path, plan.base],
                            rest,
                        ),
                        |added: Reply, rest: Seq<Reply>|
                            match added {
                                Ok(_) => filled_worktree(plan, path, patch, rest),
                                Err(error) => bind(
                                    ask(ActionView::RemoveTree(around(path)), rest),
                                    |removed: Reply, rest: Seq<Reply>|
                                        Run::Got(Err(add_failure(plan, error)), rest),
                                ),
                            },
                    ),
            ),
    )
}

fn add_worktree(
    branch: &str,
    base: &str,
    root: &str,
    relative: &str,
    carry: bool,
    copy: bool,
    script: &mut Script,
) -> (r: Option<Result<Json, String>>)
    requires
        old(script).wf(),
    ensures
        final(script).wf(),
        ran(
            added_worktree(
                WorktreePlan {
                    branch: branch@,
                    base: base@,
                    root: root@,
                    relative: relative@,
                    carry,
                    copy,
                },
                old(script)@.rest,
            ),
            json_result(r),
            final(script)@,
        ),
{
    let path = match allocate_managed_worktree_path(root, script) {
        Some(Ok(path)) => path,
        Some(Err(error)) => {
            return Some(Err(error));
        },
        None => {
            return None;
        },
    };
    let mut patch = String::new();
    if carry && copy {
        patch = match capture_local_changes_patch(root, script) {
            Some(Ok(patch)) => patch,
            Some(Err(error)) => {
                return Some(Err(error));
            },
            None => {
                return None;
            },
        };
    }
    match script.git(root, args6("worktree", "add", "-b", branch, path.as_str(), base)) {
        Some(Ok(_)) => {},
        Some(Err(error)) => {
            let parent = match parent_of(path.as_str()) {
                Some(parent) => parent,
                None => path,
            };
            match script.ask(Action::RemoveTree(parent)) {
                Some(_) => {},
                None => {
                    return None;
                },
            }
            if contains_text(error.as_str(), "invalid reference") {
                return Some(Err(tell_branch("Base branch ", base, " does not exist.")));
            }
            if contains_text(error.as_str(), "already exists") {
                return Some(Err(tell_branch("Branch ", branch, " already exists.")));
            }
            if contains_text(error.as_str(), "already used by worktree") || contains_text(
                error.as_str(),
                "already checked out at",
            ) {
                return Some(
                    Err(tell_branch("Branch ", branch, " is already open in another worktree.")),
                );
            }
            return Some(Err(error));
        },
        None => {
            return None;
        },
    }
    match move_changes(root, carry, copy, path.as_str(), script) {
        Some(Ok(_)) => {},
        Some(Err(error)) => {
            return Some(Err(error));
        },
        None => {
            return None;
        },
    }
    match apply_copied_local_changes_to_worktree(path.as_str(), patch.as_str(), script) {
        Some(Ok(_)) => {},
        Some(Err(error)) => {
            return Some(Err(error));
        },
        None => {
            return None;
        },
    }
    match scoped_worktree_path(path.as_str(), relative, script) {
        Some(scoped) => Some(Ok(worktree_json(branch, scoped.as_str(), false))),
        None => None,
    }
}

/// What a request for a worktree asks for, given the branches and the status of the repository.
pub open spec fn base_branch(params: JsonView, found: JsonView) -> Seq<char> {
    match params.read("baseBranch"@) {
        Some(base) => base,
        None => or_empty(found.get_str("default"@)),
    }
}

/// Why changes cannot go into the worktree.
pub open spec fn carry_refusal(copy: bool, current: Seq<char>) -> Seq<char> {
    "Uncommitted changes can "@ + (if copy {
        "copy"@
    } else {
        "move"@
    }) + " into a new worktree only from "@ + (if current.len() == 0 {
        "the current branch"@
    } else {
        current
    }) + ". Switch the base branch to match or clean up local changes first."@
}

/// The path of a worktree in which a branch is open.
pub open spec fn open_worktree(found: JsonView, branch: Seq<char>) -> Option<Seq<char>> {
    match found.get2("worktreePathByBranch"@, branch) {
        Some(path) => path.as_str(),
        None => None,
    }
}

/// The branch is new, unless it is here already.
pub open spec fn new_branch_worktree(cwd: Seq<char>, plan: WorktreePlan, rest: Seq<Reply>) -> Run<
    Answer,
> {
    bind(
        local_branch_exists(cwd, plan.branch, rest),
        |local: bool, rest: Seq<Reply>|
            if local {
                Run::Got(
                    Err(
                        about_branch(
                            "Branch "@,
                            plan.branch,
                            " already exists locally. Choose another name or open that branch instead."@,
                        ),
                    ),
                    rest,
                )
            } else {
                added_worktree(plan, rest)
            },
    )
}

/// The base branch is there: a worktree in which the branch is open is used, else one is made.
pub open spec fn chosen_worktree(
    cwd: Seq<char>,
    found: JsonView,
    status: JsonView,
    plan: WorktreePlan,
    rest: Seq<Reply>,
) -> Run<Answer> {
    let current = or_empty(status.get_str("branch"@));
    let dirty = status.get_bool("dirty"@) == Some(true);
    if dirty && !plan.carry {
        Run::Got(Err(carry_refusal(plan.copy, current)), rest)
    } else {
        match open_worktree(found, plan.branch) {
            Some(path) => bind(
                same_file_path(path, cwd, rest),
                |here: bool, rest: Seq<Reply>|
                    Run::Got(
                        if here {
                            Err(
                                about_branch(
                                    "Branch "@,
                                    plan.branch,
                                    " is already open in this project."@,
                                ),
                            )
                        } else {
                            Ok(worktree_view(plan.branch, path, true))
                        },
                        rest,
                    ),
            ),
            None => new_branch_worktree(cwd, plan, rest),
        }
    }
}

/// The plan for a worktree. Changes are carried only from the branch that it starts from.
pub open spec fn worktree_plan(
    params: JsonView,
    found: JsonView,
    status: JsonView,
    root: Seq<char>,
    relative: Seq<char>,
) -> WorktreePlan {
    let current = or_empty(status.get_str("branch"@));
    let base = base_branch(params, found);
    WorktreePlan {
        branch: requested_branch(params),
        base,
        root,
        relative,
        carry: status.get_bool("dirty"@) == Some(true) && current.len() > 0 && current == base,
        copy: params.get_str("changeTransfer"@) == Some("copy"@),
    }
}

/// The base branch has to be here.
pub open spec fn planned_worktree(
    cwd: Seq<char>,
    found: JsonView,
    status: JsonView,
    plan: WorktreePlan,
    rest: Seq<Reply>,
) -> Run<Answer> {
    if plan.base.len() == 0 {
        Run::Got(Err("Base branch is required."@), rest)
    } else {
        bind(
            local_branch_exists(cwd, plan.base, rest),
            |local: bool, rest: Seq<Reply>|
                if local {
                    chosen_worktree(cwd, found, status, plan, rest)
                } else {
                    Run::Got(
                        Err(
                            about_branch(
                                "Base branch "@,
                                plan.base,
                                " is not available locally. Create or check out that branch first."@,
                            ),
                        ),
                        rest,
                    )
                },
        )
    }
}

/// Opens a branch in a worktree of its own.
pub open spec fn create_worktree(cwd: Seq<char>, params: JsonView, rest: Seq<Reply>) -> Run<
    Answer,
> {
    let branch = requested_branch(params);
    if branch.len() == 0 {
        Run::Got(Err("Branch name is required."@), rest)
    } else {
        try_bind(
            valid_branch_name(cwd, branch, rest),
            |valid: (), rest: Seq<Reply>|
                try_bind(
                    branches(cwd, rest),
                    |found: JsonView, rest: Seq<Reply>|
                        try_bind(
                            repo_root(cwd, rest),
                            |root: Seq<char>, rest: Seq<Reply>|
                                try_bind(
                                    status(cwd, rest),
                                    |status: JsonView, rest: Seq<Reply>|
                                        bind(
                                            project_relative_path(cwd, root, rest),
                                            |relative: Seq<char>, rest: Seq<Reply>|
                                                planned_worktree(
                                                    cwd,
                                                    found,
                                                    status,
                                                    worktree_plan(
                                                        params,
                                                        found,
                                                        status,
                                                        root,
                                                        relative,
                                                    ),
                                                    rest,
                                                ),
                                        ),
                                ),
                        ),
                ),
        )
    }
}

fn git_create_worktree(cwd: &str, params: &Json, script: &mut Script) -> (r: Option<
    Result<Json, String>,
>)
    requires
        old(script).wf(),
    ensures
        final(script).wf(),
        ran(create_worktree(cwd@, params@, old(script)@.rest), json_result(r), final(script)@),
{
    let branch = read_requested_branch(params);
    if branch.as_str().is_empty() {
        return Some(Err("Branch name is required.".to_owned()));
    }
    match assert_valid_created_branch_name(cwd, branch.as_str(), script) {
        Some(Ok(_)) => {},
        Some(Err(error)) => {
            return Some(Err(error));
        },
        None => {
            return None;
        },
    }
    let found = match git_branches(cwd, script) {
        Some(Ok(found)) => Json::object(found),
        Some(Err(error)) => {
            return Some(Err(error));
        },
        None => {
            return None;
        },
    };
    let root = match resolve_repo_root(cwd, script) {
        Some(Ok(root)) => root,
        Some(Err(error)) => {
            return Some(Err(error));
        },
        None => {
            return None;
        },
    };
    let status = match git_status(cwd, script) {
        Some(Ok(status)) => status,
        Some(Err(error)) => {
            return Some(Err(error));
        },
        None => {
            return None;
        },
    };
    let relative = match resolve_project_relative_path(cwd, root.as_str(), script) {
        Some(relative) => relative,
        None => {
            return None;
        },
    };
    let base = match params.read("baseBranch") {
        Some(base) => base,
        None => match found.get_str("default") {
            Some(default) => default.to_owned(),
            None => String::new(),
        },
    };
    let current = match status.get_str("branch") {
        Some(current) => current.to_owned(),
        None => String::new(),
    };
    let dirty = match status.get_bool("dirty") {
        Some(dirty) => dirty,
        None => false,
    };
    let copy = match params.get_str("changeTransfer") {
        Some(transfer) => text_eq(transfer, "copy"),
        None => false,
    };
    let carry = dirty && !current.as_str().is_empty() && text_eq(current.as_str(), base.as_str());
    let ghost plan = worktree_plan(params@, found@, status@, root@, relative@);
    assert(plan == (WorktreePlan {
        branch: branch@,
        base: base@,
        root: root@,
        relative: relative@,
        carry,
        copy,
    }));
    if base.as_str().is_empty() {
        return Some(Err("Base branch is required.".to_owned()));
    }
    match has_local_branch(cwd, base.as_str(), script) {
        Some(true) => {},
        Some(false) => {
            return Some(
                Err(
                    tell_branch(
                        "Base branch ",
                        base.as_str(),
                        " is not available locally. Create or check out that branch first.",
                    ),
                ),
            );
        },
        None => {
            return None;
        },
    }
    if dirty && !carry {
        let mut text = concat3(
            "Uncommitted changes can ",
            if copy { "copy" } else { "move" },
            " into a new worktree only from ",
        );
        if current.as_str().is_empty() {
            text.append("the current branch");
        } else {
            text.append(current.as_str());
        }
        text.append(". Switch the base branch to match or clean up local changes first.");
        return Some(Err(text));
    }
    let existing = match found.get2("worktreePathByBranch", branch.as_str()) {
        Some(path) => path.as_str(),
        None => None,
    };
    if let Some(path) = existing {
        return match script.same_file_path(path, cwd) {
            Some(true) => Some(
                Err(
                    tell_branch("Branch ", branch.as_str(), " is already open in this project."),
                ),
            ),
            Some(false) => Some(Ok(worktree_json(branch.as_str(), path, true))),
            None => None,
        };
    }
    match has_local_branch(cwd, branch.as_str(), script) {
        Some(true) => {
            return Some(
                Err(
                    tell_branch(
                        "Branch ",
                        branch.as_str(),
                        " already exists locally. Choose another name or open that branch instead.",
                    ),
                ),
            );
        },
        Some(false) => {},
        None => {
            return None;
        },
    }
    add_worktree(
        branch.as_str(),
        base.as_str(),
        root.as_str(),
        relative.as_str(),
        carry,
        copy,
        script,
    )
}

/// Whether a path lies below the directory of the worktrees that the bridge manages.
pub open spec fn is_managed(path: Seq<char>, rest: Seq<Reply>) -> Run<Result<bool, Seq<char>>> {
    bind(
        normalized_path(path, rest),
        |candidate: Seq<char>, rest: Seq<Reply>|
            try_bind(
                worktrees_root(rest),
                |root: Seq<char>, rest: Seq<Reply>|
                    bind(
                        normalized_path(root, rest),
                        |root: Seq<char>, rest: Seq<Reply>|
                            Run::Got(
                                Ok(
                                    lies_in(candidate, root) && components(candidate)
                                        != components(root),
                                ),
                                rest,
                            ),
                    ),
            ),
    )
}

fn is_managed_worktree_path(path: &str, script: &mut Script) -> (r: Option<Result<bool, String>>)
    requires
        old(script).wf(),
    ensures
        final(script).wf(),
        ran(
            is_managed(path@, old(script)@.rest),
            match r {
                Some(Ok(managed)) => Some(Ok(managed)),
                Some(Err(error)) => Some(Err(error@)),
                None => None,
            },
            final(script)@,
        ),
{
    let candidate = match script.normalized_path(path) {
        Some(candidate) => candidate,
        None => {
            return None;
        },
    };
    let root = match managed_worktrees_root(script) {
        Some(Ok(root)) => root,
        Some(Err(error)) => {
            return Some(Err(error));
        },
        None => {
            return None;
        },
    };
    let root = match script.normalized_path(root.as_str()) {
        Some(root) => root,
        None => {
            return None;
        },
    };
    Some(Ok(lies_below(candidate.as_str(), root.as_str())))
}

/// The branch of a removed worktree is deleted, where one is named.
pub open spec fn deleted_branch(
    checkout: Seq<char>,
    branch: Option<Seq<char>>,
    rest: Seq<Reply>,
) -> Run<()> {
    match branch {
        Some(name) => bind(
            git(checkout, seq!["branch"@, "-D"@, name], rest),
            |deleted: Reply, rest: Seq<Reply>| Run::Got((), rest),
        ),
        None => Run::Got((), rest),
    }
}

/// A worktree, its branch and its directory are removed, as far as that succeeds.
pub open spec fn cleaned_up(
    checkout: Seq<char>,
    path: Seq<char>,
    branch: Option<Seq<char>>,
    rest: Seq<Reply>,
) -> Run<()> {
    bind(
        git(checkout, seq!["worktree"@, "remove"@, "--force"@, path], rest),
        |removed: Reply, rest: Seq<Reply>|
            bind(
                deleted_branch(checkout, branch, rest),
                |deleted: (), rest: Seq<Reply>|
                    bind(
                        ask(ActionView::RemoveTree(around(path)), rest),
                        |removed: Reply, rest: Seq<Reply>| Run::Got((), rest),
                    ),
            ),
    )
}

fn cleanup_managed_worktree(
    checkout: &str,
    path: &str,
    branch: &Option<String>,
    script: &mut Script,
) -> (r: Option<()>)
    requires
        old(script).wf(),
    ensures
        final(script).wf(),
        ran(
            cleaned_up(checkout@, path@, branch.deep_view(), old(script)@.rest),
            r,
            final(script)@,
        ),
{
    match script.git(checkout, args4("worktree", "remove", "--force", path)) {
        Some(_) => {},
        None => {
            return None;
        },
    }
    if let Some(name) = branch {
        match script.git(checkout, args3("branch", "-D", name.as_str())) {
            Some(_) => {},
            None => {
                return None;
            },
        }
    }
    let parent = match parent_of(path) {
        Some(parent) => parent,
        None => path.to_owned(),
    };
    match script.ask(Action::RemoveTree(parent)) {
        Some(_) => Some(()),
        None => None,
    }
}

/// The answer once a worktree was removed: its branch must be gone too.
pub open spec fn removed_view(
    checkout: Seq<char>,
    branch: Option<Seq<char>>,
    rest: Seq<Reply>,
) -> Run<Answer> {
    let done: Answer = Ok(JsonView::Object(map!["success"@ => JsonView::Bool(true)]));
    match branch {
        Some(name) => bind(
            local_branch_exists(checkout, name, rest),
            |left: bool, rest: Seq<Reply>|
                Run::Got(
                    if left {
                        Err(
                            about_branch(
                                "The temporary worktree was removed, but branch "@,
                                name,
                                " could not be deleted automatically."@,
                            ),
                        )
                    } else {
                        done
                    },
                    rest,
                ),
        ),
        None => Run::Got(done, rest),
    }
}

/// Removes a worktree that the bridge manages, and never the main checkout.
pub open spec fn remove_worktree(cwd: Seq<char>, params: JsonView, rest: Seq<Reply>) -> Run<
    Answer,
> {
    let branch = params.read("branch"@);
    try_bind(
        repo_root(cwd, rest),
        |path: Seq<char>, rest: Seq<Reply>|
            try_bind(
                local_checkout_root(cwd, rest),
                |checkout: Seq<char>, rest: Seq<Reply>|
                    bind(
                        same_file_path(path, checkout, rest),
                        |main: bool, rest: Seq<Reply>|
                            if main {
                                Run::Got(Err("Cannot remove the main local checkout."@), rest)
                            } else {
                                try_bind(
                                    is_managed(path, rest),
                                    |managed: bool, rest: Seq<Reply>|
                                        if !managed {
                                            Run::Got(
                                                Err(
                                                    "Only managed worktrees can be removed automatically."@,
                                                ),
                                                rest,
                                            )
                                        } else {
                                            bind(
                                                cleaned_up(checkout, path, branch, rest),
                                                |cleaned: (), rest: Seq<Reply>|
                                                    removed_view(checkout, branch, rest),
                                            )
                                        },
                                )
                            },
                    ),
            ),
    )
}

fn git_remove_worktree(cwd: &str, params: &Json, script: &mut Script) -> (r: Option<
    Result<Json, String>,
>)
    requires
        old(script).wf(),
    ensures
        final(script).wf(),
        ran(remove_worktree(cwd@, params@, old(script)@.rest), json_result(r), final(script)@),
{
    let branch = params.read("branch");
    let path = match resolve_repo_root(cwd, script) {
        Some(Ok(path)) => path,
        Some(Err(error)) => {
            return Some(Err(error));
        },
        None => {
            return None;
        },
    };
    let checkout = match resolve_local_checkout_root(cwd, script) {
        Some(Ok(checkout)) => checkout,
        Some(Err(error)) => {
            return Some(Err(error));
        },
        None => {
            return None;
        },
    };
    match script.same_file_path(path.as_str(), checkout.as_str()) {
        Some(true) => {
            return Some(Err("Cannot remove the main local checkout.".to_owned()));
        },
        Some(false) => {},
        None => {
            return None;
        },
    }
    match is_managed_worktree_path(path.as_str(), script) {
        Some(Ok(true)) => {},
        Some(Ok(false)) => {
            return Some(Err("Only managed worktrees can be removed automatically.".to_owned()));
        },
        Some(Err(error)) => {
            return Some(Err(error));
        },
        None => {
            return None;
        },
    }
    match cleanup_managed_worktree(checkout.as_str(), path.as_str(), &branch, script) {
        Some(_) => {},
        None => {
            return None;
        },
    }
    if let Some(name) = &branch {
        match has_local_branch(checkout.as_str(), name.as_str(), script) {
            Some(true) => {
                return Some(
                    Err(
                        tell_branch(
                            "The temporary worktree was removed, but branch ",
                            name.as_str(),
                            " could not be deleted automatically.",
                        ),
                    ),
                );
            },
            Some(false) => {},
            None => {
                return None;
            },
        }
    }
    let mut out = JsonObject::new();
    out.insert("success", Json::Bool(true));
    Some(Ok(Json::object(out)))
}

// The remote.

/// The commands that bring the working copy back to what the remote has, or without an upstream
/// branch to the last commit.
pub open spec fn discarded(cwd: Seq<char>, upstream: bool, rest: Seq<Reply>) -> Run<Reply> {
    if upstream {
        try_bind(
            git(cwd, seq!["fetch"@], rest),
            |fetched: Seq<char>, rest: Seq<Reply>|
                git(cwd, seq!["reset"@, "--hard"@, "@{u}"@], rest),
        )
    } else {
        git(cwd, seq!["checkout"@, "--"@, "."@], rest)
    }
}

/// Throws local changes away, once that was confirmed.
pub open spec fn reset_to_remote(cwd: Seq<char>, params: JsonView, rest: Seq<Reply>) -> Run<
    Answer,
> {
    if params.get_str("confirm"@) != Some("discard_runtime_changes"@) {
        Run::Got(
            Err("This action requires params.confirm === \"discard_runtime_changes\"."@),
            rest,
        )
    } else {
        bind(
            git(
                cwd,
                seq!["rev-parse"@, "--abbrev-ref"@, "--symbolic-full-name"@, "@{u}"@],
                rest,
            ),
            |upstream: Reply, rest: Seq<Reply>|
                try_bind(
                    discarded(cwd, upstream is Ok, rest),
                    |discarded: Seq<char>, rest: Seq<Reply>|
                        try_bind(
                            git(cwd, seq!["clean"@, "-fd"@], rest),
                            |cleaned: Seq<char>, rest: Seq<Reply>| succeeded(cwd, rest),
                        ),
                ),
        )
    }
}

fn discard_changes(cwd: &str, upstream: bool, script: &mut Script) -> (r: Option<
    Result<String, String>,
>)
    requires
        old(script).wf(),
    ensures
        final(script).wf(),
        ran(discarded(cwd@, upstream, old(script)@.rest), text_result(r), final(script)@),
{
    if upstream {
        match script.git(cwd, args1("fetch")) {
            Some(Ok(_)) => script.git(cwd, args3("reset", "--hard", "@{u}")),
            Some(Err(error)) => Some(Err(error)),
            None => None,
        }
    } else {
        script.git(cwd, args3("checkout", "--", "."))
    }
}

fn git_reset_to_remote(cwd: &str, params: &Json, script: &mut Script) -> (r: Option<
    Result<Json, String>,
>)
    requires
        old(script).wf(),
    ensures
        final(script).wf(),
        ran(reset_to_remote(cwd@, params@, old(script)@.rest), json_result(r), final(script)@),
{
    let confirmed = match params.get_str("confirm") {
        Some(text) => text_eq(text, "discard_runtime_changes"),
        None => false,
    };
    if !confirmed {
        return Some(
            Err(
                "This action requires params.confirm === \"discard_runtime_changes\".".to_owned(),
            ),
        );
    }
    let upstream = match script.git(
        cwd,
        args4("rev-parse", "--abbrev-ref", "--symbolic-full-name", "@{u}"),
    ) {
        Some(reply) => reply.is_ok(),
        None => {
            return None;
        },
    };
    match discard_changes(cwd, upstream, script) {
        Some(Ok(_)) => {},
        Some(Err(error)) => {
            return Some(Err(error));
        },
        None => {
            return None;
        },
    }
    match script.git(cwd, args2("clean", "-fd")) {
        Some(Ok(_)) => {},
        Some(Err(error)) => {
            return Some(Err(error));
        },
        None => {
            return None;
        },
    }
    report_success(cwd, script)
}

/// The URL of the remote.
pub open spec fn remote_url(cwd: Seq<char>, rest: Seq<Reply>) -> Run<Answer> {
    try_bind(
        git(cwd, seq!["config"@, "--get"@, "remote.origin.url"@], rest),
        |output: Seq<char>, rest: Seq<Reply>|
            Run::Got(
                Ok(
                    JsonView::Object(
                        map![
                            "url"@ => JsonView::Text(trimmed(output)),
                            "ownerRepo"@ => opt_text(owner_repo(trimmed(output))),
                        ],
                    ),
                ),
                rest,
            ),
    )
}

fn git_remote_url(cwd: &str, script: &mut Script) -> (r: Option<Result<Json, String>>)
    requires
        old(script).wf(),
    ensures
        final(script).wf(),
        ran(remote_url(cwd@, old(script)@.rest), json_result(r), final(script)@),
{
    match script.git(cwd, args3("config", "--get", "remote.origin.url")) {
        Some(Ok(output)) => {
            let url = trim(output.as_str());
            let mut out = JsonObject::new();
            out.insert("url", Json::text(url.as_str()));
            out.insert("ownerRepo", Json::opt_text(&parse_owner_repo(url.as_str())));
            Some(Ok(Json::object(out)))
        },
        Some(Err(error)) => Some(Err(error)),
        None => None,
    }
}

/// The branches together with the status.
pub open spec fn branches_with_status(cwd: Seq<char>, rest: Seq<Reply>) -> Run<Answer> {
    try_bind(
        branches(cwd, rest),
        |found: JsonView, rest: Seq<Reply>|
            try_bind(
                status(cwd, rest),
                |status: JsonView, rest: Seq<Reply>|
                    Run::Got(
                        Ok(
                            match found {
                                JsonView::Object(members) => JsonView::Object(
                                    members.insert("status"@, status),
                                ),
                                other => other,
                            },
                        ),
                        rest,
                    ),
            ),
    )
}

fn git_branches_with_status(cwd: &str, script: &mut Script) -> (r: Option<Result<Json, String>>)
    requires
        old(script).wf(),
    ensures
        final(script).wf(),
        ran(branches_with_status(cwd@, old(script)@.rest), json_result(r), final(script)@),
{
    let mut found = match git_branches(cwd, script) {
        Some(Ok(found)) => found,
        Some(Err(error)) => {
            return Some(Err(error));
        },
        None => {
            return None;
        },
    };
    match git_status(cwd, script) {
        Some(Ok(status)) => {
            found.insert("status", status);
            Some(Ok(Json::object(found)))
        },
        Some(Err(error)) => Some(Err(error)),
        None => None,
    }
}

// Requests.

/// The directory that a request is about.
pub open spec fn requested_cwd(params: JsonView) -> Option<Seq<char>> {
    non_blank(or_else(params.get_str("cwd"@), params.get_str("currentWorkingDirectory"@)))
}

pub open spec fn git_cwd(params: JsonView, rest: Seq<Reply>) -> Run<Reply> {
    match requested_cwd(params) {
        None => Run::Got(Err("Git actions require a bound local working directory."@), rest),
        Some(path) => bind(
            ask(ActionView::IsDir(path), rest),
            |reply: Reply, rest: Seq<Reply>|
                Run::Got(
                    match reply {
                        Ok(_) => Ok(path),
                        Err(_) => Err(
                            "The requested local working directory does not exist on this Mac."@,
                        ),
                    },
                    rest,
                ),
        ),
    }
}

fn resolve_git_cwd(params: &Json, script: &mut Script) -> (r: Option<Result<String, String>>)
    requires
        old(script).wf(),
    ensures
        final(script).wf(),
        ran(git_cwd(params@, old(script)@.rest), text_result(r), final(script)@),
{
    let requested = match params.get_str("cwd") {
        Some(path) => trim_non_blank(path),
        None => match params.get_str("currentWorkingDirectory") {
            Some(path) => trim_non_blank(path),
            None => None,
        },
    };
    match requested {
        Some(path) => match script.ask(Action::IsDir(path.clone())) {
            Some(Ok(_)) => Some(Ok(path)),
            Some(Err(_)) => Some(
                Err(
                    "The requested local working directory does not exist on this Mac.".to_owned(),
                ),
            ),
            None => None,
        },
        None => Some(Err("Git actions require a bound local working directory.".to_owned())),
    }
}

/// What each git method does.
pub open spec fn git_method(
    method: Seq<char>,
    cwd: Seq<char>,
    params: JsonView,
    rest: Seq<Reply>,
) -> Run<Answer> {
    if method == "git/status"@ {
        status(cwd, rest)
    } else if method == "git/diff"@ {
        diff(cwd, rest)
    } else if method == "git/commit"@ {
        commit(cwd, params, rest)
    } else if method == "git/push"@ {
        push(cwd, rest)
    } else if method == "git/pull"@ {
        pull(cwd, rest)
    } else if method == "git/branches"@ {
        branches(cwd, rest)
    } else if method == "git/checkout"@ {
        checkout(cwd, params, rest)
    } else if method == "git/createBranch"@ {
        create_branch(cwd, params, rest)
    } else if method == "git/createWorktree"@ {
        create_worktree(cwd, params, rest)
    } else if method == "git/removeWorktree"@ {
        remove_worktree(cwd, params, rest)
    } else if method == "git/resetToRemote"@ {
        reset_to_remote(cwd, params, rest)
    } else if method == "git/remoteUrl"@ {
        remote_url(cwd, rest)
    } else if method == "git/branchesWithStatus"@ {
        branches_with_status(cwd, rest)
    } else {
        Run::Got(Err("Unknown git method: "@ + method), rest)
    }
}

/// A git request: nothing where the method is not one of git.
pub open spec fn git_request(method: Seq<char>, params: JsonView, rest: Seq<Reply>) -> Run<
    Option<Answer>,
> {
    if !has_prefix(method, "git/"@) {
        Run::Got(None, rest)
    } else {
        bind(
            try_bind(
                git_cwd(params, rest),
                |cwd: Seq<char>, rest: Seq<Reply>| git_method(method, cwd, params, rest),
            ),
            |answer: Answer, rest: Seq<Reply>| Run::Got(Some(answer), rest),
        )
    }
}

fn run_git_method(method: &str, params: &Json, script: &mut Script) -> (r: Option<
    Result<Json, String>,
>)
    requires
        old(script).wf(),
    ensures
        final(script).wf(),
        ran(
            try_bind(
                git_cwd(params@, old(script)@.rest),
                |cwd: Seq<char>, rest: Seq<Reply>| git_method(method@, cwd, params@, rest),
            ),
            json_result(r),
            final(script)@,
        ),
{
    let cwd = match resolve_git_cwd(params, script) {
        Some(Ok(cwd)) => cwd,
        Some(Err(error)) => {
            return Some(Err(error));
        },
        None => {
            return None;
        },
    };
    if text_eq(method, "git/status") {
        git_status(cwd.as_str(), script)
    } else if text_eq(method, "git/diff") {
        git_diff(cwd.as_str(), script)
    } else if text_eq(method, "git/commit") {
        git_commit(cwd.as_str(), params, script)
    } else if text_eq(method, "git/push") {
        git_push(cwd.as_str(), script)
    } else if text_eq(method, "git/pull") {
        git_pull(cwd.as_str(), script)
    } else if text_eq(method, "git/branches") {
        match git_branches(cwd.as_str(), script) {
            Some(Ok(found)) => Some(Ok(Json::object(found))),
            Some(Err(error)) => Some(Err(error)),
            None => None,
        }
    } else if text_eq(method, "git/checkout") {
        git_checkout(cwd.as_str(), params, script)
    } else if text_eq(method, "git/createBranch") {
        git_create_branch(cwd.as_str(), params, script)
    } else if text_eq(method, "git/createWorktree") {
        git_create_worktree(cwd.as_str(), params, script)
    } else if text_eq(method, "git/removeWorktree") {
        git_remove_worktree(cwd.as_str(), params, script)
    } else if text_eq(method, "git/resetToRemote") {
        git_reset_to_remote(cwd.as_str(), params, script)
    } else if text_eq(method, "git/remoteUrl") {
        git_remote_url(cwd.as_str(), script)
    } else if text_eq(method, "git/branchesWithStatus") {
        git_branches_with_status(cwd.as_str(), script)
    } else {
        Some(Err(concat2("Unknown git method: ", method)))
    }
}

/// Where a request stands: it asks for an action, or it is answered. There is no answer to what
/// is not a request of this kind.
#[derive(Debug)]
pub enum RequestStep {
    Ask(Action),
    Done(Option<Result<Json, String>>),
}

impl RequestStep {
    /// Whether this is where running the script of a request led to.
    pub open spec fn is_step_of(self, run: Run<Option<Answer>>) -> bool {
        match run {
            Run::Ask(action) => self matches RequestStep::Ask(asked) && asked.view() == action,
            Run::Got(answer, _) => self matches RequestStep::Done(given) && json_result(given)
                == answer,
        }
    }
}

/// Runs a git request as far as the replies reach.
pub fn handle_git_request(
    method: &str,
    params: &Json,
    replies: Vec<Result<String, String>>,
) -> (r: RequestStep)
    ensures
        r.is_step_of(git_request(method@, params@, replies_of(replies@))),
{
    if !starts_with(method, "git/") {
        return RequestStep::Done(None);
    }
    let mut script = Script::new(replies);
    match run_git_method(method, params, &mut script) {
        Some(answer) => RequestStep::Done(Some(answer)),
        None => match script.into_asked() {
            Some(action) => RequestStep::Ask(action),
            None => RequestStep::Done(None),
        },
    }
}

// What holds of every request.

/// Local changes are thrown away only where that was confirmed: without the confirmation not one
/// command is run.
pub proof fn law_reset_needs_confirmation(cwd: Seq<char>, params: JsonView, rest: Seq<Reply>)
    requires
        params.get_str("confirm"@) != Some("discard_runtime_changes"@),
    ensures
        reset_to_remote(cwd, params, rest) matches Run::Got(answer, left) && answer is Err && left
            == rest,
{
}

/// A branch that the bridge creates lies in its own namespace, and a blank name creates none.
pub proof fn law_created_branches_have_a_namespace(raw_name: Seq<char>)
    ensures
        is_blank(raw_name) <==> created_branch_name(raw_name).len() == 0,
        !is_blank(raw_name) ==> has_prefix(created_branch_name(raw_name), "remodex/"@),
{
    reveal_strlit("remodex/");
    if !is_blank(raw_name) {
        let name = created_branch_name(raw_name);
        let prefix = "remodex/"@;
        let plain = crate::git_text::hyphenated(trimmed(raw_name));
        if !has_prefix(plain, prefix) {
            assert(name == prefix + plain);
            assert(name.take(prefix.len() as int) =~= prefix);
        }
    }
}

/// Without changes in the working copy nothing is carried into a worktree, and changes are
/// carried only where the worktree starts from the branch that they were made on.
pub proof fn law_changes_are_carried_from_the_base(
    params: JsonView,
    found: JsonView,
    status: JsonView,
    root: Seq<char>,
    relative: Seq<char>,
)
    requires
        worktree_plan(params, found, status, root, relative).carry,
    ensures
        status.get_bool("dirty"@) == Some(true),
        status.get_str("branch"@) == Some(
            worktree_plan(params, found, status, root, relative).base,
        ),
{
}

/// A working copy with changes that cannot be carried is left alone.
pub proof fn law_uncarried_changes_are_refused(
    cwd: Seq<char>,
    found: JsonView,
    status: JsonView,
    plan: WorktreePlan,
    rest: Seq<Reply>,
)
    requires
        status.get_bool("dirty"@) == Some(true),
        !plan.carry,
    ensures
        chosen_worktree(cwd, found, status, plan, rest) matches Run::Got(answer, left)
            && answer is Err && left == rest,
{
}

/// The replies alone decide: a script that is run again on the replies that it got, and more,
/// asks for nothing that it was answered already.
pub proof fn law_replies_are_used_in_order(action: ActionView, rest: Seq<Reply>, more: Seq<Reply>)
    requires
        rest.len() > 0,
    ensures
        ask(action, rest) matches Run::Got(reply, left) && ask(action, rest + more) == Run::Got(
            reply,
            left + more,
        ),
{
    assert((rest + more).skip(1) =~= rest.skip(1) + more);
}

} // verus!
