//! What requests on a git repository do.
//!
//! The laws here speak of the commands that are asked for one after the other, given the replies to
//! those before, and of the answer that comes of the replies.
use vstd::prelude::*;

use crate::git_handler::{
    added_worktree, applied_patch, branches, branches_with_status, carried_patch,
    checkout, chosen_worktree, cleaned_up, commit, create_branch, create_worktree,
    default_branch, diff, diff_base, diff_no_index, diff_totals, filled_worktree,
    free_worktree_path, fresh_worktree_path, git_method, git_request, guessed_default,
    is_managed, local_branch_exists, local_changes_patch, local_checkout, local_checkout_root,
    local_diff_base, local_only_commits, managed_worktree_path, moved_changes,
    new_branch_worktree, planned_worktree, project_relative_path, published, pull, ref_exists,
    relative_below, remote_branch_exists, remote_head, remote_url, remove_worktree,
    removed_view, repo_root, requested_branch, requested_cwd, reset_to_remote, rev_counts,
    scoped_checkout, scoped_worktree, scoped_worktrees, status, status_local_only,
    untracked_patch, untracked_patches, untracked_totals, valid_branch_name, worktree_paths,
    worktree_plan, worktrees_root, Answer, WorktreePlan,
};
use crate::git_text::{
    ahead_and_behind, created_branch_name, list_branches, numstat_totals, owner_repo, stash_ref,
    status_branch, status_files, status_tracking, untracked_paths, with_newline, worktrees,
    DiffTotals,
};
use crate::json::{number, opt_text, or_empty, text_array, JsonView};
use crate::path::{components, lies_in, path_join, path_parent};
use crate::script::{same_file_path, ActionView, Reply, Run};
use crate::text::{contains, has_prefix, is_blank, lines, nonblank_lines, sorted, trimmed};

verus! {

/// A git command in a directory.
pub open spec fn command(cwd: Seq<char>, args: Seq<Seq<char>>) -> ActionView {
    ActionView::Git { cwd, args, lenient: false }
}

/// Whether an action looks at a repository and changes nothing.
pub open spec fn reads_only(action: ActionView) -> bool {
    match action {
        ActionView::Git { args, .. } => args.len() > 0 && (args[0] == "status"@ || args[0]
            == "rev-list"@ || args[0] == "rev-parse"@ || args[0] == "for-each-ref"@ || args[0]
            == "merge-base"@ || args[0] == "diff"@ || args[0] == "show-ref"@ || args[0]
            == "symbolic-ref"@ || args[0] == "check-ref-format"@ || (args.len() == 2 && args[0]
            == "branch"@ && args[1] == "--no-color"@) || (args.len() > 1 && args[0] == "worktree"@
            && args[1] == "list"@) || (args.len() > 1 && args[0] == "config"@ && args[1]
            == "--get"@) || (args.len() > 1 && args[0] == "stash"@ && args[1] == "list"@)),
        ActionView::Canonicalize(_) => true,
        ActionView::IsDir(_) => true,
        ActionView::Exists(_) => true,
        ActionView::CodexHome => true,
        ActionView::TempDir => true,
        ActionView::FreshToken => true,
        _ => false,
    }
}

/// Whether a script asks for nothing but to look.
pub open spec fn only_reads<T>(run: Run<T>) -> bool {
    run matches Run::Ask(action) ==> reads_only(action)
}

proof fn lemma_roots_read(cwd: Seq<char>)
    ensures
        forall|rest: Seq<Reply>| only_reads(#[trigger] repo_root(cwd, rest)),
        forall|rest: Seq<Reply>| only_reads(#[trigger] local_checkout_root(cwd, rest)),
        forall|rest: Seq<Reply>| only_reads(#[trigger] rev_counts(cwd, rest)),
        forall|rest: Seq<Reply>| only_reads(#[trigger] local_only_commits(cwd, rest)),
        forall|rest: Seq<Reply>| only_reads(#[trigger] local_diff_base(cwd, rest)),
        forall|rest: Seq<Reply>, tracking: bool|
            only_reads(#[trigger] diff_base(cwd, tracking, rest)),
        forall|rest: Seq<Reply>, name: Seq<char>|
            only_reads(#[trigger] ref_exists(cwd, name, rest)),
        forall|rest: Seq<Reply>, name: Seq<char>|
            only_reads(#[trigger] local_branch_exists(cwd, name, rest)),
        forall|rest: Seq<Reply>, name: Seq<char>|
            only_reads(#[trigger] remote_branch_exists(cwd, name, rest)),
        forall|rest: Seq<Reply>, root: Seq<char>|
            only_reads(#[trigger] project_relative_path(cwd, root, rest)),
        forall|rest: Seq<Reply>, relative: Seq<char>|
            only_reads(#[trigger] scoped_checkout(cwd, relative, rest)),
        forall|rest: Seq<Reply>, relative: Seq<char>|
            only_reads(#[trigger] scoped_worktree(cwd, relative, rest)),
        forall|rest: Seq<Reply>, name: Seq<char>|
            only_reads(#[trigger] valid_branch_name(cwd, name, rest)),
        forall|rest: Seq<Reply>, other: Seq<char>|
            only_reads(#[trigger] same_file_path(cwd, other, rest)),
{
}

proof fn lemma_untracked_reads(
    cwd: Seq<char>,
    paths: Seq<Seq<char>>,
    totals: DiffTotals,
    patches: Seq<Seq<char>>,
    rest: Seq<Reply>,
)
    ensures
        only_reads(untracked_totals(cwd, paths, totals, rest)),
        only_reads(untracked_patches(cwd, paths, patches, rest)),
    decreases paths.len(),
{
    if paths.len() > 0 {
        match diff_no_index(cwd, paths[0], false, rest) {
            Run::Got(Ok(output), left) => {
                lemma_untracked_reads(
                    cwd,
                    paths.skip(1),
                    crate::git_text::totals_plus(totals, numstat_totals(output)),
                    patches,
                    left,
                );
            },
            _ => {},
        }
        match diff_no_index(cwd, paths[0], true, rest) {
            Run::Got(Ok(output), left) => {
                lemma_untracked_reads(cwd, paths.skip(1), totals, patches.push(output), left);
            },
            _ => {},
        }
    }
}

proof fn lemma_untracked_read(cwd: Seq<char>)
    ensures
        forall|paths: Seq<Seq<char>>, totals: DiffTotals, rest: Seq<Reply>|
            only_reads(#[trigger] untracked_totals(cwd, paths, totals, rest)),
        forall|paths: Seq<Seq<char>>, rest: Seq<Reply>|
            only_reads(#[trigger] untracked_patch(cwd, paths, rest)),
{
    assert forall|paths: Seq<Seq<char>>, totals: DiffTotals, rest: Seq<Reply>|
        only_reads(#[trigger] untracked_totals(cwd, paths, totals, rest)) by {
        lemma_untracked_reads(cwd, paths, totals, Seq::empty(), rest);
    }
    assert forall|paths: Seq<Seq<char>>, rest: Seq<Reply>|
        only_reads(#[trigger] untracked_patch(cwd, paths, rest)) by {
        lemma_untracked_reads(
            cwd,
            paths,
            crate::git_text::zero_totals(),
            Seq::empty(),
            rest,
        );
    }
}

proof fn lemma_scoped_read(
    pairs: Seq<(Seq<char>, Seq<char>)>,
    relative: Seq<char>,
    found: Map<Seq<char>, JsonView>,
    rest: Seq<Reply>,
)
    ensures
        only_reads(scoped_worktrees(pairs, relative, found, rest)),
    decreases pairs.len(),
{
    if pairs.len() > 0 {
        lemma_roots_read(pairs[0].1);
        match scoped_worktree(pairs[0].1, relative, rest) {
            Run::Got(path, left) => {
                lemma_scoped_read(
                    pairs.skip(1),
                    relative,
                    found.insert(pairs[0].0, JsonView::Text(path)),
                    left,
                );
            },
            _ => {},
        }
    }
}

proof fn lemma_parts_read(cwd: Seq<char>)
    ensures
        forall|tracking: bool, lines: Seq<Seq<char>>, rest: Seq<Reply>|
            only_reads(#[trigger] diff_totals(cwd, tracking, lines, rest)),
        forall|line: Seq<char>, rest: Seq<Reply>| only_reads(#[trigger] published(cwd, line, rest)),
        forall|line: Seq<char>, rest: Seq<Reply>|
            only_reads(#[trigger] status_local_only(cwd, line, rest)),
        forall|relative: Seq<char>, rest: Seq<Reply>|
            only_reads(#[trigger] worktree_paths(cwd, relative, rest)),
        forall|names: Seq<Seq<char>>, rest: Seq<Reply>|
            only_reads(#[trigger] guessed_default(cwd, names, rest)),
        forall|names: Seq<Seq<char>>, rest: Seq<Reply>|
            only_reads(#[trigger] default_branch(cwd, names, rest)),
        forall|root: Reply, rest: Seq<Reply>| only_reads(#[trigger] relative_below(cwd, root, rest)),
{
    lemma_roots_read(cwd);
    lemma_untracked_read(cwd);
    assert forall|relative: Seq<char>, rest: Seq<Reply>|
        only_reads(#[trigger] worktree_paths(cwd, relative, rest)) by {
        if rest.len() > 0 {
            if let Ok(output) = rest[0] {
                lemma_scoped_read(worktrees(output), relative, Map::empty(), rest.skip(1));
            }
        }
    }
}

proof fn lemma_local_checkout_reads()
    ensures
        forall|root: Reply, relative: Seq<char>, rest: Seq<Reply>|
            only_reads(#[trigger] local_checkout(root, relative, rest)),
{
    assert forall|root: Reply, relative: Seq<char>, rest: Seq<Reply>|
        only_reads(#[trigger] local_checkout(root, relative, rest)) by {
        if let Ok(path) = root {
            lemma_roots_read(path);
        }
    }
}

proof fn lemma_status_reads(cwd: Seq<char>)
    ensures
        forall|rest: Seq<Reply>| only_reads(#[trigger] status(cwd, rest)),
{
    lemma_roots_read(cwd);
    lemma_parts_read(cwd);
}

proof fn lemma_branches_read(cwd: Seq<char>)
    ensures
        forall|rest: Seq<Reply>| only_reads(#[trigger] branches(cwd, rest)),
{
    lemma_roots_read(cwd);
    lemma_parts_read(cwd);
    lemma_local_checkout_reads();
}

/// Looking at the status, the changes, the branches or the remote of a repository changes nothing
/// in it.
#[verifier::rlimit(40)]
pub proof fn law_looking_changes_nothing(
    method: Seq<char>,
    cwd: Seq<char>,
    params: JsonView,
    rest: Seq<Reply>,
)
    requires
        method == "git/status"@ || method == "git/diff"@ || method == "git/branches"@ || method
            == "git/remoteUrl"@ || method == "git/branchesWithStatus"@,
    ensures
        only_reads(git_method(method, cwd, params, rest)),
{
    law_methods_are_told_apart(cwd, params, rest);
    lemma_roots_read(cwd);
    lemma_untracked_read(cwd);
    lemma_status_reads(cwd);
    lemma_branches_read(cwd);
}

/// Each git method does what its name says, and no other.
pub proof fn law_methods_are_told_apart(cwd: Seq<char>, params: JsonView, rest: Seq<Reply>)
    ensures
        git_method("git/status"@, cwd, params, rest) == status(cwd, rest),
        git_method("git/diff"@, cwd, params, rest) == diff(cwd, rest),
        git_method("git/commit"@, cwd, params, rest) == commit(cwd, params, rest),
        git_method("git/push"@, cwd, params, rest) == crate::git_handler::push(cwd, rest),
        git_method("git/pull"@, cwd, params, rest) == pull(cwd, rest),
        git_method("git/branches"@, cwd, params, rest) == branches(cwd, rest),
        git_method("git/checkout"@, cwd, params, rest) == checkout(cwd, params, rest),
        git_method("git/createBranch"@, cwd, params, rest) == create_branch(cwd, params, rest),
        git_method("git/createWorktree"@, cwd, params, rest) == create_worktree(cwd, params, rest),
        git_method("git/removeWorktree"@, cwd, params, rest) == remove_worktree(cwd, params, rest),
        git_method("git/resetToRemote"@, cwd, params, rest) == reset_to_remote(cwd, params, rest),
        git_method("git/remoteUrl"@, cwd, params, rest) == remote_url(cwd, rest),
        git_method("git/branchesWithStatus"@, cwd, params, rest) == branches_with_status(cwd, rest),
{
    reveal_strlit("git/status");
    reveal_strlit("git/diff");
    reveal_strlit("git/commit");
    reveal_strlit("git/push");
    reveal_strlit("git/pull");
    reveal_strlit("git/branches");
    reveal_strlit("git/checkout");
    reveal_strlit("git/createBranch");
    reveal_strlit("git/createWorktree");
    reveal_strlit("git/removeWorktree");
    reveal_strlit("git/resetToRemote");
    reveal_strlit("git/remoteUrl");
    reveal_strlit("git/branchesWithStatus");
    assert("git/status"@[4] == 's' && "git/commit"@[4] == 'c' && "git/diff"@[4] == 'd');
    assert("git/push"@[4] == 'p' && "git/pull"@[4] == 'p' && "git/push"@[6] == 's');
    assert("git/pull"@[6] == 'l' && "git/branches"@[4] == 'b' && "git/checkout"@[4] == 'c');
    assert("git/createWorktree"@[4] == 'c' && "git/removeWorktree"@[4] == 'r');
    assert("git/status"@.len() == 10 && "git/diff"@.len() == 8 && "git/commit"@.len() == 10);
    assert("git/push"@.len() == 8 && "git/pull"@.len() == 8 && "git/branches"@.len() == 12);
    assert("git/checkout"@.len() == 12 && "git/createBranch"@.len() == 16);
    assert("git/createWorktree"@.len() == 18 && "git/removeWorktree"@.len() == 18);
    assert("git/resetToRemote"@.len() == 17 && "git/remoteUrl"@.len() == 13);
    assert("git/branchesWithStatus"@.len() == 22);
}

/// A git request works in the directory that it names, once that is there; without a directory
/// nothing is done.
#[verifier::rlimit(40)]
#[verifier::spinoff_prover]
pub proof fn law_request_works_in_its_directory(
    method: Seq<char>,
    params: JsonView,
    rest: Seq<Reply>,
)
    ensures
        !has_prefix(method, "git/"@) ==> git_request(method, params, rest) == Run::Got(
            None::<Answer>,
            rest,
        ),
        has_prefix(method, "git/"@) && requested_cwd(params) is None ==> (git_request(
            method,
            params,
            rest,
        ) matches Run::Got(Some(Err(_)), left) && left == rest),
        has_prefix(method, "git/"@) ==> (requested_cwd(params) matches Some(cwd) ==> {
            &&& rest.len() == 0 ==> git_request(method, params, rest) == Run::<Option<Answer>>::Ask(
                ActionView::IsDir(cwd),
            )
            &&& rest.len() > 0 && rest[0] is Err ==> (git_request(method, params, rest)
                matches Run::Got(Some(Err(_)), left) && left == rest.skip(1))
            &&& rest.len() > 0 && rest[0] is Ok ==> match git_method(
                method,
                cwd,
                params,
                rest.skip(1),
            ) {
                Run::Ask(action) => git_request(method, params, rest) == Run::<
                    Option<Answer>,
                >::Ask(action),
                Run::Got(answer, left) => git_request(method, params, rest) == Run::Got(
                    Some(answer),
                    left,
                ),
            }
        }),
{
}

/// The directory of a request is the one under `cwd`, else the one under
/// `currentWorkingDirectory`.
pub proof fn law_directory_of_a_request(params: JsonView)
    ensures
        params.get_str("cwd"@) matches Some(path) ==> !is_blank(path) ==> requested_cwd(params)
            == Some(trimmed(path)),
        params.get_str("cwd"@) is None ==> (params.get_str("currentWorkingDirectory"@)
            matches Some(path) ==> !is_blank(path) ==> requested_cwd(params) == Some(
            trimmed(path),
        )),
        params.get_str("cwd"@) is None && params.get_str("currentWorkingDirectory"@) is None
            ==> requested_cwd(params) is None,
{
}

// The status.

/// The status tells the branch, its upstream branch and the changed files that git lists, how far
/// the branch is ahead and behind, and where the repository is. It is dirty exactly if a file is
/// listed.
#[verifier::rlimit(60)]
#[verifier::spinoff_prover]
pub proof fn law_status_tells_what_git_lists(
    cwd: Seq<char>,
    rest: Seq<Reply>,
    porcelain: Seq<char>,
    answer: JsonView,
    left: Seq<Reply>,
)
    requires
        rest.len() > 1,
        rest[0] == Ok::<Seq<char>, Seq<char>>(porcelain),
        nonblank_lines(porcelain).len() > 0,
        status(cwd, rest) == Run::Got(Ok::<JsonView, Seq<char>>(answer), left),
    ensures
        ({
            let line = nonblank_lines(porcelain)[0];
            let files = nonblank_lines(porcelain).skip(1);
            let counts = match rest[1] {
                Ok(output) => ahead_and_behind(output),
                Err(_) => (0u64, 0u64),
            };
            let detached = contains(line, "HEAD detached"@) || contains(line, "no branch"@);
            &&& answer.get("branch"@) == Some(opt_text(status_branch(line)))
            &&& answer.get("tracking"@) == Some(opt_text(status_tracking(line)))
            &&& answer.get_bool("dirty"@) == Some(nonblank_lines(porcelain).len() > 1)
            &&& answer.get("files"@) == Some(JsonView::Array(status_files(files)))
            &&& answer.get("ahead"@) == Some(number(counts.0))
            &&& answer.get("behind"@) == Some(number(counts.1))
            &&& answer.get_bool("canPush"@) == Some(
                !detached && (counts.0 > 0 || status_tracking(line) is None),
            )
            &&& detached ==> answer.get_bool("publishedToRemote"@) == Some(false)
            &&& detached ==> answer.get("localOnlyCommitCount"@) == Some(number(0))
            &&& answer.get_str("state"@) == Some(
                if detached {
                    "detached_head"@
                } else if status_tracking(line) is None {
                    "no_upstream"@
                } else if files.len() > 0 && counts.1 > 0 {
                    "dirty_and_behind"@
                } else if files.len() > 0 {
                    "dirty"@
                } else if counts.0 > 0 && counts.1 > 0 {
                    "diverged"@
                } else if counts.1 > 0 {
                    "behind_only"@
                } else if counts.0 > 0 {
                    "ahead_only"@
                } else {
                    "up_to_date"@
                },
            )
        }),
{
    reveal_strlit("repoRoot");
    reveal_strlit("branch");
    reveal_strlit("tracking");
    reveal_strlit("dirty");
    reveal_strlit("ahead");
    reveal_strlit("behind");
    reveal_strlit("localOnlyCommitCount");
    reveal_strlit("state");
    reveal_strlit("canPush");
    reveal_strlit("publishedToRemote");
    reveal_strlit("files");
    reveal_strlit("diff");
    assert("repoRoot"@[0] == 'r' && "tracking"@[0] == 't' && "branch"@[1] == 'r');
    assert("behind"@[1] == 'e' && "dirty"@[0] == 'd' && "ahead"@[0] == 'a');
    assert("state"@[0] == 's' && "files"@[0] == 'f' && "repoRoot"@.len() == 8);
    assert("branch"@.len() == 6 && "tracking"@.len() == 8 && "dirty"@.len() == 5);
    assert("ahead"@.len() == 5 && "behind"@.len() == 6);
    assert("localOnlyCommitCount"@.len() == 20 && "state"@.len() == 5);
    assert("canPush"@.len() == 7 && "publishedToRemote"@.len() == 17 && "files"@.len() == 5);
    assert("diff"@.len() == 4);
}

/// The first two commands of a status: what changed, and how the branch compares with its upstream
/// branch.
pub proof fn law_status_asks_for_changes(cwd: Seq<char>, rest: Seq<Reply>)
    ensures
        rest.len() == 0 ==> status(cwd, rest) == Run::<Answer>::Ask(
            command(cwd, seq!["status"@, "--porcelain=v1"@, "-b"@]),
        ),
        rest.len() == 1 && rest[0] is Ok ==> status(cwd, rest) == Run::<Answer>::Ask(
            command(
                cwd,
                seq!["rev-list"@, "--left-right"@, "--count"@, "HEAD...@{u}"@],
            ),
        ),
        rest.len() > 0 && rest[0] is Err ==> status(cwd, rest) == Run::Got(
            Err::<JsonView, Seq<char>>(rest[0]->Err_0),
            rest.skip(1),
        ),
{
}

/// Changes are counted from where the branch left its upstream branch, or from the parent of the
/// first commit that no remote has; the untracked files are counted too.
pub proof fn law_changes_are_counted_from_the_base(cwd: Seq<char>, rest: Seq<Reply>)
    ensures
        rest.len() == 0 ==> diff_base(cwd, true, rest) == Run::<Reply>::Ask(
            command(cwd, seq!["merge-base"@, "HEAD"@, "@{u}"@]),
        ),
        rest.len() > 0 && rest[0] is Ok ==> diff_base(cwd, true, rest) == Run::Got(
            Ok::<Seq<char>, Seq<char>>(trimmed(rest[0]->Ok_0)),
            rest.skip(1),
        ),
        rest.len() == 0 ==> diff_base(cwd, false, rest) == Run::<Reply>::Ask(
            command(
                cwd,
                seq!["rev-list"@, "--reverse"@, "--topo-order"@, "HEAD"@, "--not"@, "--remotes"@],
            ),
        ),
        rest.len() > 0 && rest[0] is Ok && nonblank_lines(rest[0]->Ok_0).len() == 0 ==> diff_base(
            cwd,
            false,
            rest,
        ) == Run::Got(Ok::<Seq<char>, Seq<char>>("HEAD"@), rest.skip(1)),
        rest.len() == 1 && rest[0] is Ok && nonblank_lines(rest[0]->Ok_0).len() > 0 ==> diff_base(
            cwd,
            false,
            rest,
        ) == Run::<Reply>::Ask(
            command(
                cwd,
                seq!["rev-parse"@, trimmed(nonblank_lines(rest[0]->Ok_0)[0]) + "^"@],
            ),
        ),
        rest.len() > 1 && rest[0] is Ok && nonblank_lines(rest[0]->Ok_0).len() > 0 && rest[1] is Ok
            ==> diff_base(cwd, false, rest) == Run::Got(
            Ok::<Seq<char>, Seq<char>>(trimmed(rest[1]->Ok_0)),
            rest.skip(1).skip(1),
        ),
{
}

/// The changes of a repository as a patch: what git gives for the known files since the base, and
/// behind it the untracked files.
pub proof fn law_diff_gives_known_and_new_files(
    cwd: Seq<char>,
    rest: Seq<Reply>,
    porcelain: Seq<char>,
    base: Seq<char>,
    known: Seq<char>,
    untracked: Seq<char>,
    behind_base: Seq<Reply>,
    left: Seq<Reply>,
)
    requires
        rest.len() > 0,
        rest[0] == Ok::<Seq<char>, Seq<char>>(porcelain),
        nonblank_lines(porcelain).len() > 0,
        diff_base(
            cwd,
            status_tracking(nonblank_lines(porcelain)[0]) is Some,
            rest.skip(1),
        ) == Run::Got(Ok::<Seq<char>, Seq<char>>(base), behind_base),
    ensures
        diff(cwd, Seq::empty()) == Run::<Answer>::Ask(
            command(cwd, seq!["status"@, "--porcelain=v1"@, "-b"@]),
        ),
        behind_base.len() == 0 ==> diff(cwd, rest) == Run::<Answer>::Ask(
            command(cwd, seq!["diff"@, "--binary"@, "--find-renames"@, base]),
        ),
        behind_base.len() > 0 && behind_base[0] == Ok::<Seq<char>, Seq<char>>(known)
            && untracked_patch(
            cwd,
            untracked_paths(nonblank_lines(porcelain).skip(1)),
            behind_base.skip(1),
        ) == Run::Got(Ok::<Seq<char>, Seq<char>>(untracked), left) ==> (diff(cwd, rest)
            matches Run::Got(Ok(answer), end) && end == left && answer.get_str("patch"@) == Some(
            if is_blank(known) {
                trimmed(untracked)
            } else if is_blank(untracked) {
                trimmed(known)
            } else {
                trimmed(known) + "\n\n"@ + trimmed(untracked)
            },
        )),
{
    assert(rest.skip(1).len() >= 0);
}

/// An untracked file becomes a patch against nothing.
pub proof fn law_new_file_is_compared_with_nothing(
    cwd: Seq<char>,
    path: Seq<char>,
    binary: bool,
    rest: Seq<Reply>,
)
    ensures
        rest.len() == 0 ==> (diff_no_index(cwd, path, binary, rest) matches Run::Ask(
            ActionView::Git { cwd: at, args, lenient },
        ) && at == cwd && lenient && args.len() == 6 && args[0] == "diff"@ && args[1]
            == "--no-index"@ && args[2] == (if binary {
            "--binary"@
        } else {
            "--numstat"@
        }) && args[3] == "--"@ && args[4] == "/dev/null"@ && args[5] == path),
{
}

// Commits.

/// A commit takes up everything and carries the message of the request; where nothing changed there
/// is none.
pub proof fn law_commit_takes_up_everything(
    cwd: Seq<char>,
    params: JsonView,
    rest: Seq<Reply>,
)
    ensures
        ({
            let message = match params.read("message"@) {
                Some(message) => message,
                None => "Changes from Codex"@,
            };
            let r = commit(cwd, params, rest);
            &&& rest.len() == 0 ==> r == Run::<Answer>::Ask(
                command(cwd, seq!["status"@, "--porcelain"@]),
            )
            &&& rest.len() > 0 && rest[0] is Ok && is_blank(rest[0]->Ok_0) ==> r == Run::Got(
                Err::<JsonView, Seq<char>>("Nothing to commit."@),
                rest.skip(1),
            )
            &&& rest.len() == 1 && rest[0] is Ok && !is_blank(rest[0]->Ok_0) ==> r == Run::<
                Answer,
            >::Ask(command(cwd, seq!["add"@, "-A"@]))
            &&& rest.len() == 2 && rest[0] is Ok && !is_blank(rest[0]->Ok_0) && rest[1] is Ok ==> r
                == Run::<Answer>::Ask(command(cwd, seq!["commit"@, "-m"@, message]))
            &&& rest.len() > 2 && rest[0] is Ok && !is_blank(rest[0]->Ok_0) && rest[1] is Ok ==> (r
                matches Run::Got(answer, left) && (answer is Ok <==> rest[2] is Ok))
            &&& rest.len() > 1 && rest[0] is Ok && !is_blank(rest[0]->Ok_0) && rest[1] is Err ==> (r
                matches Run::Got(Err(error), left) && error == rest[1]->Err_0)
        }),
{
}

/// What git said of a commit is told: the hash, the branch and the summary.
pub proof fn law_commit_is_told(
    cwd: Seq<char>,
    params: JsonView,
    rest: Seq<Reply>,
    output: Seq<char>,
)
    requires
        rest.len() > 2,
        rest[0] is Ok,
        !is_blank(rest[0]->Ok_0),
        rest[1] is Ok,
        rest[2] == Ok::<Seq<char>, Seq<char>>(output),
        lines(output).len() > 0,
    ensures
        commit(cwd, params, rest) matches Run::Got(Ok(answer), left) && answer.get_str("branch"@)
            == Some(crate::git_text::commit_header(lines(output)[0]).0) && answer.get_str("hash"@)
            == Some(crate::git_text::commit_header(lines(output)[0]).1) && answer.get_str(
            "summary"@,
        ) == Some(crate::git_text::commit_summary(output)),
{
    reveal_strlit("hash");
    reveal_strlit("branch");
    reveal_strlit("summary");
    assert("hash"@.len() == 4 && "branch"@.len() == 6 && "summary"@.len() == 7);
}

// Push and pull.

/// A push pushes the branch that is checked out; one without an upstream branch gets `origin` as
/// its remote, and the answer tells where it went.
#[verifier::rlimit(40)]
#[verifier::spinoff_prover]
pub proof fn law_push_goes_to_the_remote(cwd: Seq<char>, rest: Seq<Reply>)
    ensures
        rest.len() == 0 ==> crate::git_handler::push(cwd, rest) == Run::<Answer>::Ask(
            command(cwd, seq!["rev-parse"@, "--abbrev-ref"@, "HEAD"@]),
        ),
        rest.len() == 1 && rest[0] is Ok ==> crate::git_handler::push(cwd, rest) == Run::<Answer>::Ask(
            command(cwd, seq!["push"@]),
        ),
        rest.len() == 2 && rest[0] is Ok ==> (rest[1] matches Err(error) ==> {
            let no_upstream = contains(error, "no upstream"@) || contains(
                error,
                "has no upstream branch"@,
            );
            &&& no_upstream ==> crate::git_handler::push(cwd, rest) == Run::<Answer>::Ask(
                command(
                    cwd,
                    seq!["push"@, "--set-upstream"@, "origin"@, trimmed(rest[0]->Ok_0)],
                ),
            )
            &&& !no_upstream && contains(error, "rejected"@) ==> (crate::git_handler::push(cwd, rest) matches Run::Got(
                Err(told),
                _,
            ) && told == "Push rejected. Pull changes first."@)
            &&& !no_upstream && !contains(error, "rejected"@) ==> (crate::git_handler::push(cwd, rest)
                matches Run::Got(Err(told), _) && told == error)
        }),
{
}

/// Once a push went through, the answer names the branch, the remote and the new status.
#[verifier::rlimit(40)]
#[verifier::spinoff_prover]
pub proof fn law_push_is_told(
    cwd: Seq<char>,
    rest: Seq<Reply>,
    told: JsonView,
    left: Seq<Reply>,
)
    requires
        rest.len() > 1,
        rest[0] is Ok,
        rest[1] is Ok,
        status(cwd, rest.skip(1).skip(1)) == Run::Got(Ok::<JsonView, Seq<char>>(told), left),
    ensures
        crate::git_handler::push(cwd, rest) matches Run::Got(Ok(answer), end) && end == left && answer.get_str(
            "branch"@,
        ) == Some(trimmed(rest[0]->Ok_0)) && answer.get_str("remote"@) == Some("origin"@)
            && answer.get("status"@) == Some(told),
{
    reveal_strlit("branch");
    reveal_strlit("remote");
    reveal_strlit("status");
    assert("branch"@[0] == 'b' && "remote"@[0] == 'r' && "status"@[0] == 's');
    assert("branch"@.len() == 6 && "remote"@.len() == 6 && "status"@.len() == 6);
}

/// A pull rebases; one that fails is undone and reported.
#[verifier::rlimit(40)]
#[verifier::spinoff_prover]
pub proof fn law_pull_is_undone_where_it_fails(cwd: Seq<char>, rest: Seq<Reply>)
    ensures
        rest.len() == 0 ==> pull(cwd, rest) == Run::<Answer>::Ask(
            command(cwd, seq!["pull"@, "--rebase"@]),
        ),
        rest.len() == 1 && rest[0] is Err ==> pull(cwd, rest) == Run::<Answer>::Ask(
            command(cwd, seq!["rebase"@, "--abort"@]),
        ),
        rest.len() > 1 ==> (rest[0] matches Err(error) ==> (pull(cwd, rest) matches Run::Got(
            Err(told),
            left,
        ) && left == rest.skip(1).skip(1) && told == if error.len() == 0 {
            "Pull failed due to conflicts. Rebase aborted."@
        } else {
            error
        })),
        rest.len() > 0 && rest[0] is Ok ==> match status(cwd, rest.skip(1)) {
            Run::Ask(action) => pull(cwd, rest) == Run::<Answer>::Ask(action),
            Run::Got(Ok(told), left) => pull(cwd, rest) matches Run::Got(Ok(answer), end) && end
                == left && answer.get_bool("success"@) == Some(true) && answer.get("status"@)
                == Some(told),
            Run::Got(Err(error), left) => pull(cwd, rest) == Run::Got(
                Err::<JsonView, Seq<char>>(error),
                left,
            ),
        },
{
    reveal_strlit("success");
    reveal_strlit("status");
    assert("success"@.len() == 7 && "status"@.len() == 6);
}

// Branches.

/// A checkout checks out the branch that is asked for; why it failed is told in plain words.
#[verifier::rlimit(40)]
#[verifier::spinoff_prover]
pub proof fn law_checkout_checks_out_the_branch(
    cwd: Seq<char>,
    params: JsonView,
    rest: Seq<Reply>,
)
    ensures
        params.read("branch"@) is None ==> checkout(cwd, params, rest) == Run::Got(
            Err::<JsonView, Seq<char>>("Branch name is required."@),
            rest,
        ),
        params.read("branch"@) matches Some(branch) ==> {
            &&& rest.len() == 0 ==> checkout(cwd, params, rest) == Run::<Answer>::Ask(
                command(cwd, seq!["checkout"@, branch]),
            )
            &&& rest.len() > 0 ==> (rest[0] matches Err(error) ==> (checkout(cwd, params, rest)
                matches Run::Got(Err(told), left) && left == rest.skip(1) && told == if contains(
                error,
                "would be overwritten"@,
            ) {
                "Cannot switch branches: you have uncommitted changes."@
            } else if contains(error, "already used by worktree"@) {
                "Cannot switch branches: this branch is already open in another worktree."@
            } else {
                error
            }))
            &&& rest.len() > 0 && rest[0] is Ok ==> match status(cwd, rest.skip(1)) {
                Run::Ask(action) => checkout(cwd, params, rest) == Run::<Answer>::Ask(action),
                Run::Got(Ok(told), left) => checkout(cwd, params, rest) matches Run::Got(
                    Ok(answer),
                    end,
                ) && end == left && answer.get("status"@) == Some(told) && (told.get("branch"@)
                    is Some ==> answer.get("current"@) == told.get("branch"@)) && (told.get(
                    "tracking"@,
                ) is Some ==> answer.get("tracking"@) == told.get("tracking"@)),
                Run::Got(Err(error), left) => checkout(cwd, params, rest) == Run::Got(
                    Err::<JsonView, Seq<char>>(error),
                    left,
                ),
            }
        },
{
    reveal_strlit("current");
    reveal_strlit("tracking");
    reveal_strlit("status");
    assert("current"@.len() == 7 && "tracking"@.len() == 8 && "status"@.len() == 6);
}

/// A branch is created under its name in the namespace of the bridge, once git takes the name and
/// no such branch is on the remote alone.
#[verifier::rlimit(60)]
#[verifier::spinoff_prover]
pub proof fn law_branch_is_created(
    cwd: Seq<char>,
    params: JsonView,
    rest: Seq<Reply>,
    name: Seq<char>,
)
    requires
        params.get_str("name"@) == Some(name),
        !is_blank(name),
    ensures
        ({
            let branch = created_branch_name(name);
            let r = create_branch(cwd, params, rest);
            &&& rest.len() == 0 ==> r == Run::<Answer>::Ask(
                command(cwd, seq!["check-ref-format"@, "--branch"@, branch]),
            )
            &&& rest.len() > 0 && rest[0] is Err ==> (r matches Run::Got(Err(told), left) && left
                == rest.skip(1) && told == "Branch "@ + "'"@ + branch + "'"@
                + " is not a valid Git branch name."@)
            &&& rest.len() == 1 && rest[0] is Ok ==> r == Run::<Answer>::Ask(
                command(
                    cwd,
                    seq!["show-ref"@, "--verify"@, "--quiet"@, "refs/heads/"@ + branch],
                ),
            )
            &&& rest.len() == 2 && rest[0] is Ok && rest[1] is Err ==> r == Run::<Answer>::Ask(
                command(
                    cwd,
                    seq!["show-ref"@, "--verify"@, "--quiet"@, "refs/remotes/origin/"@ + branch],
                ),
            )
            &&& rest.len() > 2 && rest[0] is Ok && rest[1] is Err && rest[2] is Ok ==> (r
                matches Run::Got(Err(_), _))
            &&& (rest.len() == 2 && rest[0] is Ok && rest[1] is Ok) || (rest.len() == 3 && rest[0]
                is Ok && rest[1] is Err && rest[2] is Err) ==> r == Run::<Answer>::Ask(
                command(cwd, seq!["checkout"@, "-b"@, branch]),
            )
        }),
{
    crate::git_handler::law_created_branches_have_a_namespace(name);
}

/// A branch that was created is told, with the new status.
#[verifier::rlimit(60)]
#[verifier::spinoff_prover]
pub proof fn law_created_branch_is_told(
    cwd: Seq<char>,
    params: JsonView,
    rest: Seq<Reply>,
    name: Seq<char>,
    told: JsonView,
    left: Seq<Reply>,
)
    requires
        params.get_str("name"@) == Some(name),
        !is_blank(name),
        rest.len() > 3,
        rest[0] is Ok,
        rest[1] is Err,
        rest[2] is Err,
        rest[3] is Ok,
        status(cwd, rest.skip(1).skip(1).skip(1).skip(1)) == Run::Got(
            Ok::<JsonView, Seq<char>>(told),
            left,
        ),
    ensures
        create_branch(cwd, params, rest) matches Run::Got(Ok(answer), end) && end == left
            && answer.get_str("branch"@) == Some(created_branch_name(name)) && answer.get("status"@)
            == Some(told),
{
    crate::git_handler::law_created_branches_have_a_namespace(name);
    reveal_strlit("branch");
    reveal_strlit("status");
    assert("branch"@[0] == 'b' && "status"@[0] == 's' && "branch"@.len() == 6);
    assert("status"@.len() == 6);
}

/// The branches that are told are those that git lists, in order.
#[verifier::rlimit(60)]
#[verifier::spinoff_prover]
pub proof fn law_branches_are_those_that_git_lists(
    cwd: Seq<char>,
    rest: Seq<Reply>,
    output: Seq<char>,
    answer: JsonView,
    left: Seq<Reply>,
)
    requires
        rest.len() > 0,
        rest[0] == Ok::<Seq<char>, Seq<char>>(output),
        branches(cwd, rest) == Run::Got(Ok::<JsonView, Seq<char>>(answer), left),
    ensures
        branches(cwd, Seq::empty()) == Run::<Answer>::Ask(
            command(cwd, seq!["branch"@, "--no-color"@]),
        ),
        answer.get("branches"@) == Some(
            text_array(sorted(list_branches(lines(output)).branches)),
        ),
        answer.get("branchesCheckedOutElsewhere"@) == Some(
            text_array(sorted(list_branches(lines(output)).elsewhere)),
        ),
        answer.get_str("current"@) == Some(list_branches(lines(output)).current),
        answer.get("default"@) is Some,
        answer.get("worktreePathByBranch"@) is Some,
{
    reveal_strlit("branches");
    reveal_strlit("branchesCheckedOutElsewhere");
    reveal_strlit("worktreePathByBranch");
    reveal_strlit("localCheckoutPath");
    reveal_strlit("current");
    reveal_strlit("default");
    assert("current"@[0] == 'c' && "default"@[0] == 'd' && "branches"@.len() == 8);
    assert("branchesCheckedOutElsewhere"@.len() == 27);
    assert("worktreePathByBranch"@.len() == 20 && "localCheckoutPath"@.len() == 17);
    assert("current"@.len() == 7 && "default"@.len() == 7);
}

/// The branches with the status are the branches, and the status beside them.
#[verifier::rlimit(60)]
#[verifier::spinoff_prover]
pub proof fn law_branches_come_with_the_status(
    cwd: Seq<char>,
    rest: Seq<Reply>,
    found: JsonView,
    middle: Seq<Reply>,
    told: JsonView,
    left: Seq<Reply>,
)
    requires
        branches(cwd, rest) == Run::Got(Ok::<JsonView, Seq<char>>(found), middle),
        found is Object,
        status(cwd, middle) == Run::Got(Ok::<JsonView, Seq<char>>(told), left),
    ensures
        branches_with_status(cwd, rest) matches Run::Got(Ok(answer), end) && end == left
            && answer.get("status"@) == Some(told) && forall|key: Seq<char>|
            key != "status"@ ==> #[trigger] answer.get(key) == found.get(key),
{
}

/// The default branch is the one that the remote names; else `main` or `master` on the remote, else
/// one of these that is here, else the first.
pub proof fn law_default_branch(cwd: Seq<char>, names: Seq<Seq<char>>, rest: Seq<Reply>)
    ensures
        ({
            let r = default_branch(cwd, names, rest);
            &&& rest.len() == 0 ==> r == Run::<Option<Seq<char>>>::Ask(
                command(cwd, seq!["symbolic-ref"@, "refs/remotes/origin/HEAD"@]),
            )
            &&& rest.len() > 0 && rest[0] is Ok && remote_head(rest[0]->Ok_0).len() > 0 ==> r
                == Run::Got(Some(remote_head(rest[0]->Ok_0)), rest.skip(1))
            &&& rest.len() == 1 && rest[0] is Err ==> r == Run::<Option<Seq<char>>>::Ask(
                command(
                    cwd,
                    seq!["show-ref"@, "--verify"@, "--quiet"@, "refs/remotes/origin/"@ + "main"@],
                ),
            )
            &&& rest.len() > 1 && rest[0] is Err && rest[1] is Ok ==> r == Run::Got(
                Some("main"@),
                rest.skip(1).skip(1),
            )
            &&& rest.len() > 2 && rest[0] is Err && rest[1] is Err && rest[2] is Ok ==> r
                == Run::Got(Some("master"@), rest.skip(1).skip(1).skip(1))
            &&& rest.len() > 2 && rest[0] is Err && rest[1] is Err && rest[2] is Err ==> (r
                matches Run::Got(default, _) && default == if names.contains("main"@) {
                Some("main"@)
            } else if names.contains("master"@) {
                Some("master"@)
            } else if names.len() > 0 {
                Some(names[0])
            } else {
                None
            })
        }),
{
}

/// The URL of the remote is told as git gives it, and with it the owner and the repository.
pub proof fn law_remote_is_told(cwd: Seq<char>, rest: Seq<Reply>)
    ensures
        rest.len() == 0 ==> remote_url(cwd, rest) == Run::<Answer>::Ask(
            command(cwd, seq!["config"@, "--get"@, "remote.origin.url"@]),
        ),
        rest.len() > 0 && rest[0] is Ok ==> (remote_url(cwd, rest) matches Run::Got(
            Ok(answer),
            left,
        ) && left == rest.skip(1) && answer.get_str("url"@) == Some(trimmed(rest[0]->Ok_0))
            && answer.get("ownerRepo"@) == Some(opt_text(owner_repo(trimmed(rest[0]->Ok_0))))),
        rest.len() > 0 && rest[0] is Err ==> (remote_url(cwd, rest) matches Run::Got(Err(told), _)
            && told == rest[0]->Err_0),
{
    reveal_strlit("url");
    reveal_strlit("ownerRepo");
    assert("url"@.len() == 3 && "ownerRepo"@.len() == 9);
}

// Throwing changes away.

/// Once it is confirmed, the working copy is brought to what the remote has, or without an upstream
/// branch to the last commit, and untracked files go.
#[verifier::rlimit(40)]
#[verifier::spinoff_prover]
pub proof fn law_reset_brings_back_what_the_remote_has(
    cwd: Seq<char>,
    params: JsonView,
    rest: Seq<Reply>,
)
    requires
        params.get_str("confirm"@) == Some("discard_runtime_changes"@),
    ensures
        ({
            let r = reset_to_remote(cwd, params, rest);
            &&& rest.len() == 0 ==> r == Run::<Answer>::Ask(
                command(
                    cwd,
                    seq!["rev-parse"@, "--abbrev-ref"@, "--symbolic-full-name"@, "@{u}"@],
                ),
            )
            &&& rest.len() == 1 && rest[0] is Ok ==> r == Run::<Answer>::Ask(
                command(cwd, seq!["fetch"@]),
            )
            &&& rest.len() == 2 && rest[0] is Ok && rest[1] is Ok ==> r == Run::<Answer>::Ask(
                command(cwd, seq!["reset"@, "--hard"@, "@{u}"@]),
            )
            &&& rest.len() == 3 && rest[0] is Ok && rest[1] is Ok && rest[2] is Ok ==> r == Run::<
                Answer,
            >::Ask(command(cwd, seq!["clean"@, "-fd"@]))
            &&& rest.len() == 1 && rest[0] is Err ==> r == Run::<Answer>::Ask(
                command(cwd, seq!["checkout"@, "--"@, "."@]),
            )
            &&& rest.len() == 2 && rest[0] is Err && rest[1] is Ok ==> r == Run::<Answer>::Ask(
                command(cwd, seq!["clean"@, "-fd"@]),
            )
            &&& rest.len() > 1 && rest[0] is Ok && rest[1] is Err ==> (r matches Run::Got(
                Err(told),
                _,
            ) && told == rest[1]->Err_0)
        }),
{
}

// Worktrees.

/// Whether an action adds a worktree.
pub open spec fn adds_worktree(action: ActionView) -> bool {
    action matches ActionView::Git { args, .. } && args.len() >= 2 && args[0] == "worktree"@
        && args[1] == "add"@
}

proof fn lemma_reading_adds_nothing()
    ensures
        forall|action: ActionView| #[trigger] reads_only(action) ==> !adds_worktree(action),
{
    reveal_strlit("status");
    reveal_strlit("rev-list");
    reveal_strlit("rev-parse");
    reveal_strlit("for-each-ref");
    reveal_strlit("merge-base");
    reveal_strlit("diff");
    reveal_strlit("show-ref");
    reveal_strlit("symbolic-ref");
    reveal_strlit("check-ref-format");
    reveal_strlit("branch");
    reveal_strlit("worktree");
    reveal_strlit("config");
    reveal_strlit("stash");
    reveal_strlit("list");
    reveal_strlit("add");
    reveal_strlit("apply");
    reveal_strlit("remove");
    reveal_strlit("-D");
    assert("status"@[0] == 's' && "branch"@[0] == 'b' && "config"@[0] == 'c');
    assert("remove"@[0] == 'r' && "rev-list"@[0] == 'r' && "show-ref"@[0] == 's');
    assert("worktree"@[0] == 'w' && "for-each-ref"@[0] == 'f' && "symbolic-ref"@[0] == 's');
    assert("diff"@[0] == 'd' && "list"@[0] == 'l' && "stash"@[0] == 's');
    assert("apply"@[0] == 'a' && "status"@.len() == 6 && "rev-list"@.len() == 8);
    assert("rev-parse"@.len() == 9 && "for-each-ref"@.len() == 12);
    assert("merge-base"@.len() == 10 && "diff"@.len() == 4 && "show-ref"@.len() == 8);
    assert("symbolic-ref"@.len() == 12 && "check-ref-format"@.len() == 16);
    assert("branch"@.len() == 6 && "worktree"@.len() == 8 && "config"@.len() == 6);
    assert("stash"@.len() == 5 && "list"@.len() == 4 && "add"@.len() == 3);
    assert("apply"@.len() == 5 && "remove"@.len() == 6 && "-D"@.len() == 2);
}

proof fn lemma_fill_adds_nothing(plan: WorktreePlan, path: Seq<char>, patch: Seq<char>)
    ensures
        forall|rest: Seq<Reply>|
            (#[trigger] moved_changes(plan, path, rest)) matches Run::Ask(action)
                ==> !adds_worktree(action),
        forall|rest: Seq<Reply>|
            (#[trigger] applied_patch(path, patch, rest)) matches Run::Ask(action)
                ==> !adds_worktree(action),
        forall|rest: Seq<Reply>|
            (#[trigger] filled_worktree(plan, path, patch, rest)) matches Run::Ask(action)
                ==> !adds_worktree(action),
{
    reveal_strlit("stash");
    reveal_strlit("worktree");
    reveal_strlit("apply");
    reveal_strlit("list");
    reveal_strlit("add");
    assert("stash"@[0] == 's' && "apply"@[0] == 'a' && "stash"@.len() == 5);
    assert("worktree"@.len() == 8 && "apply"@.len() == 5 && "list"@.len() == 4);
    assert("add"@.len() == 3);
    lemma_roots_read(path);
    lemma_reading_adds_nothing();
    assert forall|rest: Seq<Reply>|
        (#[trigger] scoped_worktree(path, plan.relative, rest)) matches Run::Ask(action)
            ==> !adds_worktree(action) by {
        assert(only_reads(scoped_worktree(path, plan.relative, rest)));
    }
}

proof fn lemma_path_adds_nothing(worktrees_root: Seq<char>, name: Seq<char>, tries: nat, rest: Seq<Reply>)
    ensures
        free_worktree_path(worktrees_root, name, tries, rest) matches Run::Ask(action)
            ==> !adds_worktree(action),
    decreases tries,
{
    if tries > 0 {
        match fresh_worktree_path(worktrees_root, name, rest) {
            Run::Got(Ok(None), left) => {
                lemma_path_adds_nothing(worktrees_root, name, (tries - 1) as nat, left);
            },
            _ => {},
        }
    }
}

proof fn lemma_carried_reads(plan: WorktreePlan)
    ensures
        forall|rest: Seq<Reply>| only_reads(#[trigger] carried_patch(plan, rest)),
{
    lemma_untracked_read(plan.root);
}

/// A worktree is added for the branch of the plan, at its base.
pub open spec fn adds_by_plan(action: ActionView, plan: WorktreePlan) -> bool {
    adds_worktree(action) ==> (action matches ActionView::Git { cwd, args, lenient } && cwd
        == plan.root && !lenient && args.len() == 6 && args[2] == "-b"@ && args[3] == plan.branch
        && args[5] == plan.base)
}

proof fn lemma_added(plan: WorktreePlan, rest: Seq<Reply>)
    ensures
        added_worktree(plan, rest) matches Run::Ask(action) ==> adds_by_plan(action, plan),
{
    lemma_carried_reads(plan);
    lemma_reading_adds_nothing();
    assert forall|rest: Seq<Reply>|
        (#[trigger] managed_worktree_path(plan.root, rest)) matches Run::Ask(action)
            ==> !adds_worktree(action) by {
        assert forall|root: Seq<char>, name: Seq<char>, left: Seq<Reply>|
            (#[trigger] free_worktree_path(root, name, 16, left)) matches Run::Ask(action)
                ==> !adds_worktree(action) by {
            lemma_path_adds_nothing(root, name, 16, left);
        }
    }
    match managed_worktree_path(plan.root, rest) {
        Run::Got(Ok(path), middle) => {
            match carried_patch(plan, middle) {
                Run::Got(Ok(patch), left) => {
                    lemma_fill_adds_nothing(plan, path, patch);
                },
                _ => {
                    assert(only_reads(carried_patch(plan, middle)));
                },
            }
        },
        _ => {},
    }
}

proof fn lemma_planned(
    cwd: Seq<char>,
    found: JsonView,
    told: JsonView,
    plan: WorktreePlan,
    rest: Seq<Reply>,
)
    ensures
        planned_worktree(cwd, found, told, plan, rest) matches Run::Ask(action) ==> adds_by_plan(
            action,
            plan,
        ) && plan.base.len() > 0,
{
    lemma_roots_read(cwd);
    lemma_reading_adds_nothing();
    assert forall|left: Seq<Reply>|
        (#[trigger] added_worktree(plan, left)) matches Run::Ask(action) ==> adds_by_plan(
            action,
            plan,
        ) by {
        lemma_added(plan, left);
    }
    assert forall|left: Seq<Reply>, name: Seq<char>|
        (#[trigger] local_branch_exists(cwd, name, left)) matches Run::Ask(action)
            ==> !adds_worktree(action) by {
        assert(only_reads(local_branch_exists(cwd, name, left)));
    }
    assert forall|left: Seq<Reply>, path: Seq<char>|
        (#[trigger] same_file_path(path, cwd, left)) matches Run::Ask(action) ==> !adds_worktree(
            action,
        ) by {
        lemma_roots_read(path);
        assert(only_reads(same_file_path(path, cwd, left)));
    }
}

/// A request for a worktree starts its branch where it asks to: every `git worktree add` makes the
/// branch that the request names, in the namespace of the bridge, and starts it at the base branch
/// that the request names, or at the default branch where it names none.
#[verifier::rlimit(80)]
#[verifier::spinoff_prover]
pub proof fn law_worktree_starts_at_its_base(cwd: Seq<char>, params: JsonView, rest: Seq<Reply>)
    ensures
        create_worktree(cwd, params, rest) matches Run::Ask(action) ==> adds_worktree(action) ==> {
            &&& action matches ActionView::Git { args, lenient, .. } && !lenient && args.len() == 6
                && args[2] == "-b"@ && args[3] == created_branch_name(
                or_empty(params.get_str("name"@)),
            ) && (params.read("baseBranch"@) matches Some(base) ==> args[5] == base) && (
            params.read("baseBranch"@) is None ==> (branches(cwd, rest.skip(1)) matches Run::Got(
                Ok(found),
                _,
            ) && found.get_str("default"@) == Some(args[5])))
        },
{
    lemma_reading_adds_nothing();
    lemma_roots_read(cwd);
    lemma_branches_read(cwd);
    lemma_status_reads(cwd);
    let branch = requested_branch(params);
    if branch.len() > 0 {
        assert(only_reads(valid_branch_name(cwd, branch, rest)));
        match valid_branch_name(cwd, branch, rest) {
            Run::Got(Ok(_), after_name) => {
                assert(only_reads(branches(cwd, after_name)));
                match branches(cwd, after_name) {
                    Run::Got(Ok(found), after_branches) => {
                        assert(only_reads(repo_root(cwd, after_branches)));
                        match repo_root(cwd, after_branches) {
                            Run::Got(Ok(root), after_root) => {
                                assert(only_reads(status(cwd, after_root)));
                                match status(cwd, after_root) {
                                    Run::Got(Ok(told), after_status) => {
                                        assert(only_reads(
                                            project_relative_path(cwd, root, after_status),
                                        ));
                                        match project_relative_path(cwd, root, after_status) {
                                            Run::Got(relative, left) => {
                                                let plan = worktree_plan(
                                                    params,
                                                    found,
                                                    told,
                                                    root,
                                                    relative,
                                                );
                                                lemma_planned(cwd, found, told, plan, left);
                                            },
                                            _ => {},
                                        }
                                    },
                                    _ => {},
                                }
                            },
                            _ => {},
                        }
                    },
                    _ => {},
                }
            },
            _ => {},
        }
    }
}

/// The plan of a worktree: changes go with it exactly if there are some and the branch that is
/// checked out is the one that it starts from; they are copied where that is asked for, and moved
/// otherwise.
pub proof fn law_plan_of_a_worktree(
    params: JsonView,
    found: JsonView,
    told: JsonView,
    root: Seq<char>,
    relative: Seq<char>,
)
    ensures
        ({
            let plan = worktree_plan(params, found, told, root, relative);
            &&& plan.branch == created_branch_name(or_empty(params.get_str("name"@)))
            &&& params.read("baseBranch"@) matches Some(base) ==> plan.base == base
            &&& params.read("baseBranch"@) is None ==> plan.base == or_empty(
                found.get_str("default"@),
            )
            &&& plan.root == root
            &&& plan.relative == relative
            &&& plan.copy <==> params.get_str("changeTransfer"@) == Some("copy"@)
            &&& plan.carry <==> told.get_bool("dirty"@) == Some(true) && told.get_str("branch"@)
                == Some(plan.base) && plan.base.len() > 0
        }),
{
}

/// A worktree is made in a directory of its own below the worktrees of Codex, under the name of the
/// repository, where nothing is yet.
pub proof fn law_place_of_a_worktree(
    worktrees_root: Seq<char>,
    name: Seq<char>,
    rest: Seq<Reply>,
)
    ensures
        rest.len() > 3 && rest[0] is Ok && rest[1] is Err && rest[2] is Err && rest[3] is Ok
            ==> fresh_worktree_path(worktrees_root, name, rest) == Run::Got(
            Ok::<Option<Seq<char>>, Seq<char>>(
                Some(
                    path_join(
                        path_join(
                            worktrees_root,
                            crate::text::take_chars(rest[0]->Ok_0, 4),
                        ),
                        name,
                    ),
                ),
            ),
            rest.skip(1).skip(1).skip(1).skip(1),
        ),
        rest.len() > 1 && rest[0] is Ok && rest[1] is Ok ==> fresh_worktree_path(
            worktrees_root,
            name,
            rest,
        ) == Run::Got(Ok::<Option<Seq<char>>, Seq<char>>(None), rest.skip(1).skip(1)),
        rest.len() == 1 && rest[0] is Ok ==> fresh_worktree_path(worktrees_root, name, rest)
            == Run::<Result<Option<Seq<char>>, Seq<char>>>::Ask(
            ActionView::Exists(
                path_join(worktrees_root, crate::text::take_chars(rest[0]->Ok_0, 4)),
            ),
        ),
        rest.len() == 3 && rest[0] is Ok && rest[1] is Err && rest[2] is Err
            ==> fresh_worktree_path(worktrees_root, name, rest) == Run::<
            Result<Option<Seq<char>>, Seq<char>>,
        >::Ask(
            ActionView::CreateDirs(
                path_join(worktrees_root, crate::text::take_chars(rest[0]->Ok_0, 4)),
            ),
        ),
{
}

/// The worktrees of the bridge lie below the directory of Codex.
pub proof fn law_worktrees_lie_below_codex(root: Seq<char>, rest: Seq<Reply>)
    ensures
        rest.len() == 0 ==> worktrees_root(rest) == Run::<Reply>::Ask(ActionView::CodexHome),
        rest.len() > 0 && rest[0] is Ok ==> worktrees_root(rest) == Run::Got(
            Ok::<Seq<char>, Seq<char>>(path_join(rest[0]->Ok_0, "worktrees"@)),
            rest.skip(1),
        ),
        rest.len() > 1 && rest[0] is Ok && rest[1] is Ok ==> managed_worktree_path(root, rest)
            == free_worktree_path(
            path_join(rest[0]->Ok_0, "worktrees"@),
            match crate::path::path_file_name(root) {
                Some(name) => name,
                None => "repo"@,
            },
            16,
            rest.skip(1).skip(1),
        ),
{
}

/// Changes that are moved go by way of a stash: everything is stashed in the repository under a
/// label of its own, and the stash with that label is taken out in the worktree.
pub proof fn law_moved_changes_go_by_a_stash(
    plan: WorktreePlan,
    path: Seq<char>,
    rest: Seq<Reply>,
)
    requires
        plan.carry,
        !plan.copy,
    ensures
        ({
            let r = moved_changes(plan, path, rest);
            let label = "remodex-worktree-handoff-"@ + rest[0]->Ok_0;
            &&& rest.len() == 0 ==> r == Run::<Result<(), Seq<char>>>::Ask(ActionView::FreshToken)
            &&& rest.len() == 1 && rest[0] is Ok ==> r == Run::<Result<(), Seq<char>>>::Ask(
                command(
                    plan.root,
                    seq!["stash"@, "push"@, "--include-untracked"@, "--message"@, label],
                ),
            )
            &&& rest.len() == 2 && rest[0] is Ok && rest[1] is Ok && !contains(
                rest[1]->Ok_0,
                "No local changes"@,
            ) ==> r == Run::<Result<(), Seq<char>>>::Ask(
                command(plan.root, seq!["stash"@, "list"@, "--format=%gd%x00%s"@]),
            )
            &&& rest.len() == 3 && rest[0] is Ok && rest[1] is Ok && !contains(
                rest[1]->Ok_0,
                "No local changes"@,
            ) && rest[2] is Ok ==> (stash_ref(rest[2]->Ok_0, label) matches Some(reference) ==> r
                == Run::<Result<(), Seq<char>>>::Ask(
                command(path, seq!["stash"@, "pop"@, reference]),
            ))
            &&& rest.len() > 1 && rest[0] is Ok && rest[1] is Err ==> (r matches Run::Got(
                Err(told),
                _,
            ) && told == rest[1]->Err_0)
        }),
{
}

/// Changes that are not to be moved stay where they are.
pub proof fn law_other_changes_stay(plan: WorktreePlan, path: Seq<char>, rest: Seq<Reply>)
    requires
        !plan.carry || plan.copy,
    ensures
        moved_changes(plan, path, rest) == Run::Got(Ok::<(), Seq<char>>(()), rest),
        !plan.carry ==> carried_patch(plan, rest) == Run::Got(
            Ok::<Seq<char>, Seq<char>>(Seq::empty()),
            rest,
        ),
        plan.carry ==> carried_patch(plan, rest) == local_changes_patch(plan.root, rest),
{
}

/// The changes that are copied are all that are not committed: those of known files and the
/// untracked files.
#[verifier::rlimit(40)]
pub proof fn law_copied_changes_are_all_of_them(
    root: Seq<char>,
    rest: Seq<Reply>,
    known: Seq<char>,
    porcelain: Seq<char>,
    untracked: Seq<char>,
    left: Seq<Reply>,
)
    ensures
        rest.len() == 0 ==> local_changes_patch(root, rest) == Run::<Reply>::Ask(
            command(root, seq!["diff"@, "--binary"@, "--find-renames"@, "HEAD"@]),
        ),
        rest.len() == 1 && rest[0] is Ok ==> local_changes_patch(root, rest) == Run::<Reply>::Ask(
            command(root, seq!["status"@, "--porcelain=v1"@]),
        ),
        rest.len() > 1 && rest[0] == Ok::<Seq<char>, Seq<char>>(known) && rest[1] == Ok::<
            Seq<char>,
            Seq<char>,
        >(porcelain) && untracked_patch(
            root,
            untracked_paths(lines(porcelain)),
            rest.skip(1).skip(1),
        ) == Run::Got(Ok::<Seq<char>, Seq<char>>(untracked), left) ==> (local_changes_patch(
            root,
            rest,
        ) matches Run::Got(Ok(patch), end) && end == left && patch == if is_blank(known) {
            if is_blank(untracked) {
                Seq::empty()
            } else {
                with_newline(untracked)
            }
        } else if is_blank(untracked) {
            with_newline(known)
        } else {
            with_newline(known) + "\n"@ + with_newline(untracked)
        }),
{
}

/// A patch that is copied is written to a new file, applied in the worktree, and the file removed;
/// whether it fits is what git says.
pub proof fn law_copied_patch_is_applied_in_the_worktree(
    path: Seq<char>,
    patch: Seq<char>,
    rest: Seq<Reply>,
)
    requires
        !is_blank(patch),
    ensures
        ({
            let r = applied_patch(path, patch, rest);
            let file = path_join(
                rest[0]->Ok_0,
                "remodex-worktree-copy-"@ + rest[1]->Ok_0 + ".patch"@,
            );
            &&& rest.len() == 0 ==> r == Run::<Result<(), Seq<char>>>::Ask(ActionView::TempDir)
            &&& rest.len() == 1 && rest[0] is Ok ==> r == Run::<Result<(), Seq<char>>>::Ask(
                ActionView::FreshToken,
            )
            &&& rest.len() == 2 && rest[0] is Ok && rest[1] is Ok ==> r == Run::<
                Result<(), Seq<char>>,
            >::Ask(ActionView::WriteFile { path: file, contents: with_newline(patch) })
            &&& rest.len() == 3 && rest[0] is Ok && rest[1] is Ok && rest[2] is Ok ==> r == Run::<
                Result<(), Seq<char>>,
            >::Ask(
                command(path, seq!["apply"@, "--binary"@, "--whitespace=nowarn"@, file]),
            )
            &&& rest.len() == 4 && rest[0] is Ok && rest[1] is Ok && rest[2] is Ok ==> r == Run::<
                Result<(), Seq<char>>,
            >::Ask(ActionView::RemoveFile(file))
            &&& rest.len() > 4 && rest[0] is Ok && rest[1] is Ok && rest[2] is Ok ==> (r
                matches Run::Got(done, _) && (done is Ok <==> rest[3] is Ok))
        }),
{
}

/// A worktree that was made is told, with the branch and the place of the project in it; one that
/// could not be made leaves no directory behind.
#[verifier::rlimit(60)]
#[verifier::spinoff_prover]
pub proof fn law_made_worktree_is_told(
    plan: WorktreePlan,
    rest: Seq<Reply>,
    path: Seq<char>,
    after_path: Seq<Reply>,
    patch: Seq<char>,
    after_patch: Seq<Reply>,
)
    requires
        managed_worktree_path(plan.root, rest) == Run::Got(
            Ok::<Seq<char>, Seq<char>>(path),
            after_path,
        ),
        carried_patch(plan, after_path) == Run::Got(
            Ok::<Seq<char>, Seq<char>>(patch),
            after_patch,
        ),
    ensures
        after_patch.len() == 0 ==> added_worktree(plan, rest) == Run::<Answer>::Ask(
            command(
                plan.root,
                seq!["worktree"@, "add"@, "-b"@, plan.branch, path, plan.base],
            ),
        ),
        after_patch.len() > 0 && after_patch[0] is Ok ==> added_worktree(plan, rest)
            == filled_worktree(plan, path, patch, after_patch.skip(1)),
        after_patch.len() == 1 && after_patch[0] is Err ==> added_worktree(plan, rest) == Run::<
            Answer,
        >::Ask(
            ActionView::RemoveTree(
                match path_parent(path) {
                    Some(parent) => parent,
                    None => path,
                },
            ),
        ),
        after_patch.len() > 1 && after_patch[0] is Err ==> (added_worktree(plan, rest)
            matches Run::Got(Err(_), _)),
{
}

/// The answer names the branch and where the project is, and says that the worktree is new.
#[verifier::rlimit(60)]
#[verifier::spinoff_prover]
pub proof fn law_new_worktree_is_answered(
    plan: WorktreePlan,
    path: Seq<char>,
    patch: Seq<char>,
    rest: Seq<Reply>,
    after_move: Seq<Reply>,
    after_apply: Seq<Reply>,
    scoped: Seq<char>,
    left: Seq<Reply>,
)
    requires
        moved_changes(plan, path, rest) == Run::Got(Ok::<(), Seq<char>>(()), after_move),
        applied_patch(path, patch, after_move) == Run::Got(Ok::<(), Seq<char>>(()), after_apply),
        scoped_worktree(path, plan.relative, after_apply) == Run::Got(scoped, left),
    ensures
        filled_worktree(plan, path, patch, rest) matches Run::Got(Ok(answer), end) && end == left
            && answer.get_str("branch"@) == Some(plan.branch) && answer.get_str("worktreePath"@)
            == Some(scoped) && answer.get_bool("alreadyExisted"@) == Some(false),
{
    reveal_strlit("branch");
    reveal_strlit("worktreePath");
    reveal_strlit("alreadyExisted");
    assert("branch"@.len() == 6 && "worktreePath"@.len() == 12);
    assert("alreadyExisted"@.len() == 14);
}

/// A branch that is open in another worktree is not opened again: that worktree is told.
#[verifier::rlimit(60)]
#[verifier::spinoff_prover]
pub proof fn law_open_worktree_is_used(
    cwd: Seq<char>,
    found: JsonView,
    told: JsonView,
    plan: WorktreePlan,
    rest: Seq<Reply>,
    path: Seq<char>,
    here: bool,
    left: Seq<Reply>,
)
    requires
        plan.carry || told.get_bool("dirty"@) != Some(true),
        found.get2("worktreePathByBranch"@, plan.branch) == Some(JsonView::Text(path)),
        same_file_path(path, cwd, rest) == Run::Got(here, left),
    ensures
        here ==> (chosen_worktree(cwd, found, told, plan, rest) matches Run::Got(Err(_), end)
            && end == left),
        !here ==> (chosen_worktree(cwd, found, told, plan, rest) matches Run::Got(Ok(answer), end)
            && end == left && answer.get_str("branch"@) == Some(plan.branch) && answer.get_str(
            "worktreePath"@,
        ) == Some(path) && answer.get_bool("alreadyExisted"@) == Some(true)),
{
    reveal_strlit("branch");
    reveal_strlit("worktreePath");
    reveal_strlit("alreadyExisted");
    assert("branch"@.len() == 6 && "worktreePath"@.len() == 12);
    assert("alreadyExisted"@.len() == 14);
}

/// A worktree needs a base branch that is here and a branch that is not.
pub proof fn law_worktree_needs_base_and_new_branch(
    cwd: Seq<char>,
    found: JsonView,
    told: JsonView,
    plan: WorktreePlan,
    rest: Seq<Reply>,
)
    ensures
        plan.base.len() == 0 ==> (planned_worktree(cwd, found, told, plan, rest) matches Run::Got(
            Err(_),
            left,
        ) && left == rest),
        plan.base.len() > 0 && rest.len() == 0 ==> planned_worktree(cwd, found, told, plan, rest)
            == Run::<Answer>::Ask(
            command(
                cwd,
                seq!["show-ref"@, "--verify"@, "--quiet"@, "refs/heads/"@ + plan.base],
            ),
        ),
        plan.base.len() > 0 && rest.len() > 0 && rest[0] is Err ==> (planned_worktree(
            cwd,
            found,
            told,
            plan,
            rest,
        ) matches Run::Got(Err(_), left) && left == rest.skip(1)),
        rest.len() == 0 ==> new_branch_worktree(cwd, plan, rest) == Run::<Answer>::Ask(
            command(
                cwd,
                seq!["show-ref"@, "--verify"@, "--quiet"@, "refs/heads/"@ + plan.branch],
            ),
        ),
        rest.len() > 0 && rest[0] is Ok ==> (new_branch_worktree(cwd, plan, rest) matches Run::Got(
            Err(_),
            left,
        ) && left == rest.skip(1)),
        rest.len() > 0 && rest[0] is Err ==> new_branch_worktree(cwd, plan, rest)
            == added_worktree(plan, rest.skip(1)),
{
}

// Removing worktrees.

/// A path is managed exactly if it lies below the worktrees of the bridge.
pub proof fn law_managed_worktrees(path: Seq<char>, rest: Seq<Reply>)
    requires
        rest.len() > 2,
        rest[0] is Ok,
        rest[1] is Ok,
        rest[2] is Ok,
    ensures
        is_managed(path, rest) == Run::Got(
            Ok::<bool, Seq<char>>(
                lies_in(rest[0]->Ok_0, rest[2]->Ok_0) && components(rest[0]->Ok_0) != components(
                    rest[2]->Ok_0,
                ),
            ),
            rest.skip(1).skip(1).skip(1),
        ),
{
}

/// Removing a worktree takes three steps: git removes it, the branch that is named is deleted, and
/// the directory around it goes.
pub proof fn law_worktree_is_cleaned_up(
    checkout_root: Seq<char>,
    path: Seq<char>,
    branch: Option<Seq<char>>,
    rest: Seq<Reply>,
)
    ensures
        rest.len() == 0 ==> cleaned_up(checkout_root, path, branch, rest) == Run::<()>::Ask(
            command(checkout_root, seq!["worktree"@, "remove"@, "--force"@, path]),
        ),
        branch matches Some(name) ==> rest.len() == 1 ==> cleaned_up(
            checkout_root,
            path,
            branch,
            rest,
        ) == Run::<()>::Ask(command(checkout_root, seq!["branch"@, "-D"@, name])),
        (branch is Some && rest.len() == 2) || (branch is None && rest.len() == 1) ==> cleaned_up(
            checkout_root,
            path,
            branch,
            rest,
        ) == Run::<()>::Ask(
            ActionView::RemoveTree(
                match path_parent(path) {
                    Some(parent) => parent,
                    None => path,
                },
            ),
        ),
{
}

/// Nothing is removed but a worktree that the bridge manages: the main checkout is never touched,
/// and what is removed is the worktree that the request is about and the branch that it names.
#[verifier::rlimit(80)]
#[verifier::spinoff_prover]
pub proof fn law_only_managed_worktrees_are_removed(
    cwd: Seq<char>,
    params: JsonView,
    rest: Seq<Reply>,
    path: Seq<char>,
    after_path: Seq<Reply>,
    main: Seq<char>,
    after_main: Seq<Reply>,
    same: bool,
    after_same: Seq<Reply>,
    managed: bool,
    after_managed: Seq<Reply>,
)
    requires
        repo_root(cwd, rest) == Run::Got(Ok::<Seq<char>, Seq<char>>(path), after_path),
        local_checkout_root(cwd, after_path) == Run::Got(
            Ok::<Seq<char>, Seq<char>>(main),
            after_main,
        ),
        same_file_path(path, main, after_main) == Run::Got(same, after_same),
        is_managed(path, after_same) == Run::Got(Ok::<bool, Seq<char>>(managed), after_managed),
    ensures
        same ==> (remove_worktree(cwd, params, rest) matches Run::Got(Err(_), left) && left
            == after_same),
        !same && !managed ==> (remove_worktree(cwd, params, rest) matches Run::Got(Err(_), left)
            && left == after_managed),
        !same && managed ==> match cleaned_up(main, path, params.read("branch"@), after_managed) {
            Run::Ask(action) => remove_worktree(cwd, params, rest) == Run::<Answer>::Ask(action),
            Run::Got(_, left) => remove_worktree(cwd, params, rest) == removed_view(
                main,
                params.read("branch"@),
                left,
            ),
        },
{
}

/// Removing is a success exactly if the branch is gone as well.
pub proof fn law_removed_branch_is_gone(
    checkout_root: Seq<char>,
    name: Seq<char>,
    rest: Seq<Reply>,
)
    ensures
        rest.len() == 0 ==> removed_view(checkout_root, Some(name), rest) == Run::<Answer>::Ask(
            command(
                checkout_root,
                seq!["show-ref"@, "--verify"@, "--quiet"@, "refs/heads/"@ + name],
            ),
        ),
        rest.len() > 0 && rest[0] is Ok ==> (removed_view(checkout_root, Some(name), rest)
            matches Run::Got(Err(_), _)),
        rest.len() > 0 && rest[0] is Err ==> (removed_view(checkout_root, Some(name), rest)
            matches Run::Got(Ok(answer), _) && answer.get_bool("success"@) == Some(true)),
        removed_view(checkout_root, None, rest) matches Run::Got(Ok(answer), left)
            && answer.get_bool("success"@) == Some(true) && left == rest,
{
}

/// The root of a working copy is what git says; the main checkout is what the common directory of
/// git lies in.
pub proof fn law_roots_of_a_repository(cwd: Seq<char>, rest: Seq<Reply>)
    ensures
        rest.len() == 0 ==> repo_root(cwd, rest) == Run::<Reply>::Ask(
            command(cwd, seq!["rev-parse"@, "--show-toplevel"@]),
        ),
        rest.len() > 0 && rest[0] is Ok ==> repo_root(cwd, rest) == Run::Got(
            Ok::<Seq<char>, Seq<char>>(trimmed(rest[0]->Ok_0)),
            rest.skip(1),
        ),
        rest.len() == 0 ==> local_checkout_root(cwd, rest) == Run::<Reply>::Ask(
            command(
                cwd,
                seq!["rev-parse"@, "--path-format=absolute"@, "--git-common-dir"@],
            ),
        ),
        rest.len() > 0 && rest[0] is Ok && crate::path::path_file_name(trimmed(rest[0]->Ok_0))
            == Some(".git"@) ==> (path_parent(trimmed(rest[0]->Ok_0)) matches Some(parent)
            ==> local_checkout_root(cwd, rest) == Run::Got(
            Ok::<Seq<char>, Seq<char>>(parent),
            rest.skip(1),
        )),
{
}

} // verus!
