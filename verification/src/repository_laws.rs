//! What the bridge tells of a repository, and what it says where it refuses.
use vstd::prelude::*;

use crate::git_handler::{
    added_worktree, branches, carried_patch, chosen_worktree, create_branch, default_branch,
    diff_base, diff_no_index, diff_totals, git_request, local_checkout, local_checkout_root,
    local_only_commits, managed_worktree_path, new_branch_worktree, planned_worktree,
    project_relative_path, published, remote_head, removed_view, repo_root, reset_to_remote,
    scoped_worktree, scoped_worktrees, status, untracked_patch, untracked_patches,
    untracked_totals, worktree_paths, WorktreePlan,
};
use crate::git_laws::command;
use crate::git_text::{
    created_branch_name, list_branches, number_in, numstat_totals, status_branch,
    status_tracking, totals_view, untracked_paths, worktrees, DiffTotals,
};
use crate::json::{number, opt_text, JsonView};
use crate::path::{path_below, path_join};
use crate::script::{same_file_path, ActionView, Reply, Run};
use crate::text::{
    contains, has_prefix, is_blank, join, lemma_no_space_trimmed, lines, no_space,
    nonblank_lines, sorted, trimmed,
};
use crate::text_laws::law_ends_are_taken_off;

verus! {

// The status.

/// A branch is published where the remote has one of its name; no detached head is.
pub proof fn law_when_a_branch_is_published(cwd: Seq<char>, line: Seq<char>, rest: Seq<Reply>)
    ensures
        contains(line, "HEAD detached"@) || contains(line, "no branch"@) || status_branch(line)
            is None ==> published(cwd, line, rest) == Run::Got(false, rest),
        !contains(line, "HEAD detached"@) && !contains(line, "no branch"@) ==> (status_branch(line)
            matches Some(branch) ==> {
            &&& rest.len() == 0 ==> published(cwd, line, rest) == Run::<bool>::Ask(
                command(
                    cwd,
                    seq!["show-ref"@, "--verify"@, "--quiet"@, "refs/remotes/origin/"@ + branch],
                ),
            )
            &&& rest.len() > 0 ==> published(cwd, line, rest) == Run::Got(
                rest[0] is Ok,
                rest.skip(1),
            )
        }),
{
}

/// The commits that no remote has are counted where there is a remote.
pub proof fn law_commits_that_no_remote_has(cwd: Seq<char>, rest: Seq<Reply>)
    ensures
        rest.len() == 0 ==> local_only_commits(cwd, rest) == Run::<u64>::Ask(
            command(cwd, seq!["for-each-ref"@, "--format=%(refname)"@, "refs/remotes"@]),
        ),
        rest.len() > 0 && rest[0] is Err ==> local_only_commits(cwd, rest) == Run::Got(
            0u64,
            rest.skip(1),
        ),
        rest.len() > 0 && rest[0] is Ok && nonblank_lines(rest[0]->Ok_0).len() == 0
            ==> local_only_commits(cwd, rest) == Run::Got(0u64, rest.skip(1)),
        rest.len() == 1 && rest[0] is Ok && nonblank_lines(rest[0]->Ok_0).len() > 0
            ==> local_only_commits(cwd, rest) == Run::<u64>::Ask(
            command(cwd, seq!["rev-list"@, "--count"@, "HEAD"@, "--not"@, "--remotes"@]),
        ),
        rest.len() > 1 && rest[0] is Ok && nonblank_lines(rest[0]->Ok_0).len() > 0 && rest[1] is Ok
            ==> local_only_commits(cwd, rest) == Run::Got(
            number_in(trimmed(rest[1]->Ok_0)),
            rest.skip(1).skip(1),
        ),
{
}

/// The status tells whether the branch is published, how many commits no remote has, what the
/// changes count, and where the repository is.
#[verifier::rlimit(100)]
#[verifier::spinoff_prover]
pub proof fn law_status_tells_of_the_remote(
    cwd: Seq<char>,
    rest: Seq<Reply>,
    porcelain: Seq<char>,
    is_published: bool,
    after_published: Seq<Reply>,
    count: u64,
    after_count: Seq<Reply>,
    totals: DiffTotals,
    after_totals: Seq<Reply>,
    root: Seq<char>,
    left: Seq<Reply>,
)
    requires
        rest.len() > 1,
        rest[0] == Ok::<Seq<char>, Seq<char>>(porcelain),
        nonblank_lines(porcelain).len() > 0,
        !contains(nonblank_lines(porcelain)[0], "HEAD detached"@),
        !contains(nonblank_lines(porcelain)[0], "no branch"@),
        published(cwd, nonblank_lines(porcelain)[0], rest.skip(1).skip(1)) == Run::Got(
            is_published,
            after_published,
        ),
        local_only_commits(cwd, after_published) == Run::Got(count, after_count),
        diff_totals(
            cwd,
            status_tracking(nonblank_lines(porcelain)[0]) is Some,
            nonblank_lines(porcelain).skip(1),
            after_count,
        ) == Run::Got(Ok::<DiffTotals, Seq<char>>(totals), after_totals),
        repo_root(cwd, after_totals) == Run::Got(Ok::<Seq<char>, Seq<char>>(root), left),
    ensures
        status(cwd, rest) matches Run::Got(Ok(answer), end) && end == left && answer.get_bool(
            "publishedToRemote"@,
        ) == Some(is_published) && answer.get("localOnlyCommitCount"@) == Some(number(count))
            && answer.get("diff"@) == Some(totals_view(totals)) && answer.get_str("repoRoot"@)
            == Some(root),
{
    reveal_strlit("repoRoot");
    reveal_strlit("branch");
    reveal_strlit("tracking");
    reveal_strlit("dirty");
    reveal_strlit("ahead");
    reveal_strlit("behind");
    reveal_strlit("localOnlyCommitCount");
    reveal_strlit("state");
    reveal_strlit("canPush");
    reveal_strlit("publishedToRemote");
    reveal_strlit("files");
    reveal_strlit("diff");
    assert("repoRoot"@[0] == 'r' && "tracking"@[0] == 't' && "branch"@[1] == 'r');
    assert("behind"@[1] == 'e' && "dirty"@[0] == 'd' && "ahead"@[0] == 'a');
    assert("state"@[0] == 's' && "files"@[0] == 'f' && "repoRoot"@.len() == 8);
    assert("branch"@.len() == 6 && "tracking"@.len() == 8 && "dirty"@.len() == 5);
    assert("ahead"@.len() == 5 && "behind"@.len() == 6);
    assert("localOnlyCommitCount"@.len() == 20 && "state"@.len() == 5);
    assert("canPush"@.len() == 7 && "publishedToRemote"@.len() == 17 && "files"@.len() == 5);
    assert("diff"@.len() == 4);
}

/// The changes are counted with git since the base, and the untracked files on top of them.
pub proof fn law_changes_are_counted(
    cwd: Seq<char>,
    tracking: bool,
    files: Seq<Seq<char>>,
    rest: Seq<Reply>,
    base: Seq<char>,
    after_base: Seq<Reply>,
)
    requires
        diff_base(cwd, tracking, rest) == Run::Got(Ok::<Seq<char>, Seq<char>>(base), after_base),
    ensures
        after_base.len() == 0 ==> diff_totals(cwd, tracking, files, rest) == Run::<
            Result<DiffTotals, Seq<char>>,
        >::Ask(command(cwd, seq!["diff"@, "--numstat"@, base])),
        after_base.len() > 0 && after_base[0] is Ok ==> diff_totals(cwd, tracking, files, rest)
            == untracked_totals(
            cwd,
            untracked_paths(files),
            numstat_totals(after_base[0]->Ok_0),
            after_base.skip(1),
        ),
{
}

/// Every untracked file is counted once, on top of what was counted before.
pub proof fn law_every_untracked_file_is_counted(
    cwd: Seq<char>,
    path: Seq<char>,
    paths: Seq<Seq<char>>,
    totals: DiffTotals,
    rest: Seq<Reply>,
    output: Seq<char>,
    sum: DiffTotals,
)
    requires
        rest.len() > 0,
        rest[0] == Ok::<Seq<char>, Seq<char>>(output),
        totals.additions + numstat_totals(output).additions <= u64::MAX,
        totals.deletions + numstat_totals(output).deletions <= u64::MAX,
        totals.binary_files + numstat_totals(output).binary_files <= u64::MAX,
        sum.additions == totals.additions + numstat_totals(output).additions,
        sum.deletions == totals.deletions + numstat_totals(output).deletions,
        sum.binary_files == totals.binary_files + numstat_totals(output).binary_files,
    ensures
        untracked_totals(cwd, seq![path] + paths, totals, rest) == untracked_totals(
            cwd,
            paths,
            sum,
            rest.skip(1),
        ),
        untracked_totals(cwd, seq![path] + paths, totals, Seq::empty()) == (match diff_no_index(
            cwd,
            path,
            false,
            Seq::empty(),
        ) {
            Run::Ask(action) => Run::<Result<DiffTotals, Seq<char>>>::Ask(action),
            Run::Got(_, left) => Run::Got(Ok(totals), left),
        }),
        untracked_totals(cwd, Seq::empty(), totals, rest) == Run::Got(
            Ok::<DiffTotals, Seq<char>>(totals),
            rest,
        ),
{
    let all = seq![path] + paths;
    assert(all.skip(1) =~= paths);
    assert(all[0] == path);
}

/// Every untracked file is part of the patch, in order.
pub proof fn law_every_untracked_file_is_in_the_patch(
    cwd: Seq<char>,
    path: Seq<char>,
    paths: Seq<Seq<char>>,
    patches: Seq<Seq<char>>,
    rest: Seq<Reply>,
    output: Seq<char>,
)
    requires
        rest.len() > 0,
        rest[0] == Ok::<Seq<char>, Seq<char>>(output),
    ensures
        untracked_patches(cwd, seq![path] + paths, patches, rest) == untracked_patches(
            cwd,
            paths,
            patches.push(output),
            rest.skip(1),
        ),
        untracked_patches(cwd, Seq::empty(), patches, rest) == Run::Got(
            Ok::<Seq<Seq<char>>, Seq<char>>(patches),
            rest,
        ),
        untracked_patches(cwd, paths, Seq::empty(), rest) matches Run::Got(Ok(all), left)
            ==> untracked_patch(cwd, paths, rest) == Run::Got(
            Ok::<Seq<char>, Seq<char>>(join(all.filter(|patch: Seq<char>| !is_blank(patch)), "\n\n"@)),
            left,
        ),
{
    let all = seq![path] + paths;
    assert(all.skip(1) =~= paths);
    assert(all[0] == path);
    let p = crate::text::nonblank_pred();
    let q = |patch: Seq<char>| !is_blank(patch);
    assert(p =~= q) by {
        assert forall|patch: Seq<char>| #[trigger] p(patch) == q(patch) by {}
    }
}

// Branches.

/// The branches tell where each of them is open, where the main checkout is, and which of them is
/// the default.
#[verifier::rlimit(100)]
#[verifier::spinoff_prover]
pub proof fn law_branches_tell_where_they_are(
    cwd: Seq<char>,
    rest: Seq<Reply>,
    output: Seq<char>,
    root: Seq<char>,
    after_root: Seq<Reply>,
    main: Seq<char>,
    after_main: Seq<Reply>,
    relative: Seq<char>,
    after_relative: Seq<Reply>,
    paths: Map<Seq<char>, JsonView>,
    after_paths: Seq<Reply>,
    here: Option<Seq<char>>,
    after_here: Seq<Reply>,
    default: Option<Seq<char>>,
    left: Seq<Reply>,
)
    requires
        rest.len() > 0,
        rest[0] == Ok::<Seq<char>, Seq<char>>(output),
        repo_root(cwd, rest.skip(1)) == Run::Got(Ok::<Seq<char>, Seq<char>>(root), after_root),
        local_checkout_root(cwd, after_root) == Run::Got(
            Ok::<Seq<char>, Seq<char>>(main),
            after_main,
        ),
        project_relative_path(cwd, root, after_main) == Run::Got(relative, after_relative),
        worktree_paths(cwd, relative, after_relative) == Run::Got(paths, after_paths),
        local_checkout(Ok(main), relative, after_paths) == Run::Got(here, after_here),
        default_branch(cwd, sorted(list_branches(lines(output)).branches), after_here) == Run::Got(
            default,
            left,
        ),
    ensures
        branches(cwd, rest) matches Run::Got(Ok(answer), end) && end == left && answer.get(
            "worktreePathByBranch"@,
        ) == Some(JsonView::Object(paths)) && answer.get("localCheckoutPath"@) == Some(
            opt_text(here),
        ) && answer.get("default"@) == Some(opt_text(default)) && answer.get_str("current"@)
            == Some(list_branches(lines(output)).current),
{
    reveal_strlit("branches");
    reveal_strlit("branchesCheckedOutElsewhere");
    reveal_strlit("worktreePathByBranch");
    reveal_strlit("localCheckoutPath");
    reveal_strlit("current");
    reveal_strlit("default");
    assert("current"@[0] == 'c' && "default"@[0] == 'd' && "branches"@.len() == 8);
    assert("branchesCheckedOutElsewhere"@.len() == 27);
    assert("worktreePathByBranch"@.len() == 20 && "localCheckoutPath"@.len() == 17);
    assert("current"@.len() == 7 && "default"@.len() == 7);
}

/// A branch is open where git lists its worktree: at the project in it.
pub proof fn law_where_a_branch_is_open(
    cwd: Seq<char>,
    pair: (Seq<char>, Seq<char>),
    pairs: Seq<(Seq<char>, Seq<char>)>,
    relative: Seq<char>,
    found: Map<Seq<char>, JsonView>,
    rest: Seq<Reply>,
    path: Seq<char>,
    left: Seq<Reply>,
)
    requires
        scoped_worktree(pair.1, relative, rest) == Run::Got(path, left),
    ensures
        scoped_worktrees(seq![pair] + pairs, relative, found, rest) == scoped_worktrees(
            pairs,
            relative,
            found.insert(pair.0, JsonView::Text(path)),
            left,
        ),
        scoped_worktrees(Seq::empty(), relative, found, rest) == Run::Got(found, rest),
        worktree_paths(cwd, relative, Seq::empty()) == Run::<Map<Seq<char>, JsonView>>::Ask(
            command(cwd, seq!["worktree"@, "list"@, "--porcelain"@]),
        ),
        rest.len() > 0 && rest[0] is Ok ==> worktree_paths(cwd, relative, rest) == scoped_worktrees(
            worktrees(rest[0]->Ok_0),
            relative,
            Map::empty(),
            rest.skip(1),
        ),
{
    let all = seq![pair] + pairs;
    assert(all.skip(1) =~= pairs);
    assert(all[0] == pair);
}

/// The project in another working copy is the directory of the same name in it, where there is one,
/// else its root.
pub proof fn law_project_in_a_working_copy(root: Seq<char>, relative: Seq<char>, rest: Seq<Reply>)
    ensures
        rest.len() == 0 ==> scoped_worktree(root, relative, rest) == Run::<Seq<char>>::Ask(
            ActionView::Canonicalize(root),
        ),
        relative.len() == 0 && rest.len() > 0 && rest[0] is Ok ==> scoped_worktree(
            root,
            relative,
            rest,
        ) == Run::Got(rest[0]->Ok_0, rest.skip(1)),
        relative.len() == 0 && rest.len() > 0 && rest[0] is Err ==> scoped_worktree(
            root,
            relative,
            rest,
        ) == Run::Got(root, rest.skip(1)),
        relative.len() > 0 && rest.len() == 1 && rest[0] is Ok ==> scoped_worktree(
            root,
            relative,
            rest,
        ) == Run::<Seq<char>>::Ask(ActionView::IsDir(path_join(rest[0]->Ok_0, relative))),
        relative.len() > 0 && rest.len() > 2 && rest[0] is Ok && rest[1] is Ok && rest[2] is Ok
            ==> scoped_worktree(root, relative, rest) == Run::Got(
            rest[2]->Ok_0,
            rest.skip(1).skip(1).skip(1),
        ),
        relative.len() > 0 && rest.len() > 1 && rest[0] is Ok && rest[1] is Err ==> scoped_worktree(
            root,
            relative,
            rest,
        ) == Run::Got(rest[0]->Ok_0, rest.skip(1).skip(1)),
        relative.len() > 0 && rest.len() > 1 && rest[0] is Ok && rest[1] is Err ==> local_checkout(
            Ok(root),
            relative,
            rest,
        ) == Run::Got(None::<Seq<char>>, rest.skip(1).skip(1)),
        relative.len() == 0 && rest.len() > 0 && rest[0] is Ok ==> local_checkout(
            Ok(root),
            relative,
            rest,
        ) == Run::Got(Some(rest[0]->Ok_0), rest.skip(1)),
{
}

/// Where a project lies in its repository is found by their canonical paths.
pub proof fn law_place_of_a_project(cwd: Seq<char>, root: Seq<char>, rest: Seq<Reply>)
    requires
        rest.len() > 1,
        rest[0] is Ok,
        rest[1] is Ok,
    ensures
        path_below(rest[0]->Ok_0, rest[1]->Ok_0) matches Some(below) ==> project_relative_path(
            cwd,
            root,
            rest,
        ) == Run::Got(below, rest.skip(1).skip(1)),
        path_below(rest[0]->Ok_0, rest[1]->Ok_0) is None ==> project_relative_path(cwd, root, rest)
            == Run::Got(Seq::<char>::empty(), rest.skip(1).skip(1)),
{
}

/// The default branch of the remote is named by its reference.
pub proof fn law_default_branch_of_the_remote(branch: Seq<char>)
    requires
        no_space(branch),
        !has_prefix(branch, "refs/remotes/origin/"@),
    ensures
        remote_head("refs/remotes/origin/"@ + branch) == branch,
        remote_head(branch) == branch,
{
    reveal_strlit("refs/remotes/origin/");
    let reference = "refs/remotes/origin/"@ + branch;
    assert(no_space(reference));
    lemma_no_space_trimmed(reference);
    lemma_no_space_trimmed(branch);
    law_ends_are_taken_off(branch, "refs/remotes/origin/"@);
}

// What is said where something is refused.

/// A request of git needs a directory that is there.
pub proof fn law_directory_that_is_missing_is_told(
    method: Seq<char>,
    params: JsonView,
    rest: Seq<Reply>,
)
    requires
        has_prefix(method, "git/"@),
    ensures
        crate::git_handler::requested_cwd(params) is None ==> git_request(method, params, rest)
            == Run::Got(
            Some(
                Err::<JsonView, Seq<char>>(
                    "Git actions require a bound local working directory."@,
                ),
            ),
            rest,
        ),
        crate::git_handler::requested_cwd(params) is Some && rest.len() > 0 && rest[0] is Err
            ==> git_request(method, params, rest) == Run::Got(
            Some(
                Err::<JsonView, Seq<char>>(
                    "The requested local working directory does not exist on this Mac."@,
                ),
            ),
            rest.skip(1),
        ),
{
}

/// A branch that cannot be created is told with its name.
#[verifier::rlimit(60)]
#[verifier::spinoff_prover]
pub proof fn law_branch_that_is_there_is_told(
    cwd: Seq<char>,
    params: JsonView,
    rest: Seq<Reply>,
    name: Seq<char>,
)
    requires
        params.get_str("name"@) == Some(name),
        !is_blank(name),
        rest.len() > 2,
        rest[0] is Ok,
        rest[1] is Err,
    ensures
        rest[2] is Ok ==> create_branch(cwd, params, rest) == Run::Got(
            Err::<JsonView, Seq<char>>(
                "Branch "@ + "'"@ + created_branch_name(name) + "'"@
                    + " already exists on origin. Check it out locally instead of creating a new branch."@,
            ),
            rest.skip(1).skip(1).skip(1),
        ),
        rest[2] is Err && rest.len() > 3 ==> (rest[3] matches Err(error) ==> create_branch(
            cwd,
            params,
            rest,
        ) == Run::Got(
            Err::<JsonView, Seq<char>>(
                if contains(error, "already exists"@) {
                    "Branch "@ + "'"@ + created_branch_name(name) + "'"@ + " already exists."@
                } else {
                    error
                },
            ),
            rest.skip(1).skip(1).skip(1).skip(1),
        )),
{
    crate::git_handler::law_created_branches_have_a_namespace(name);
}

/// Changes that are not committed do not get lost: where they cannot go with the worktree, none is
/// made.
pub proof fn law_changes_keep_a_worktree_from_being_made(
    cwd: Seq<char>,
    found: JsonView,
    told: JsonView,
    plan: WorktreePlan,
    rest: Seq<Reply>,
)
    requires
        told.get_bool("dirty"@) == Some(true),
        !plan.carry,
    ensures
        told.get_str("branch"@) matches Some(branch) ==> branch.len() > 0 ==> chosen_worktree(
            cwd,
            found,
            told,
            plan,
            rest,
        ) == Run::Got(
            Err::<JsonView, Seq<char>>(
                "Uncommitted changes can "@ + (if plan.copy {
                    "copy"@
                } else {
                    "move"@
                }) + " into a new worktree only from "@ + branch
                    + ". Switch the base branch to match or clean up local changes first."@,
            ),
            rest,
        ),
        told.get_str("branch"@) is None ==> chosen_worktree(cwd, found, told, plan, rest)
            == Run::Got(
            Err::<JsonView, Seq<char>>(
                "Uncommitted changes can "@ + (if plan.copy {
                    "copy"@
                } else {
                    "move"@
                }) + " into a new worktree only from "@ + "the current branch"@
                    + ". Switch the base branch to match or clean up local changes first."@,
            ),
            rest,
        ),
{
}

/// What is said of a worktree that is not made, before anything is tried.
pub proof fn law_why_no_worktree_is_made(
    cwd: Seq<char>,
    found: JsonView,
    told: JsonView,
    plan: WorktreePlan,
    rest: Seq<Reply>,
)
    ensures
        plan.base.len() == 0 ==> planned_worktree(cwd, found, told, plan, rest) == Run::Got(
            Err::<JsonView, Seq<char>>("Base branch is required."@),
            rest,
        ),
        plan.base.len() > 0 && rest.len() > 0 && rest[0] is Err ==> planned_worktree(
            cwd,
            found,
            told,
            plan,
            rest,
        ) == Run::Got(
            Err::<JsonView, Seq<char>>(
                "Base branch "@ + "'"@ + plan.base + "'"@
                    + " is not available locally. Create or check out that branch first."@,
            ),
            rest.skip(1),
        ),
        plan.base.len() > 0 && rest.len() > 0 && rest[0] is Ok ==> planned_worktree(
            cwd,
            found,
            told,
            plan,
            rest,
        ) == chosen_worktree(cwd, found, told, plan, rest.skip(1)),
        rest.len() > 0 && rest[0] is Ok ==> new_branch_worktree(cwd, plan, rest) == Run::Got(
            Err::<JsonView, Seq<char>>(
                "Branch "@ + "'"@ + plan.branch + "'"@
                    + " already exists locally. Choose another name or open that branch instead."@,
            ),
            rest.skip(1),
        ),
        found.get2("worktreePathByBranch"@, plan.branch) is None && (plan.carry || told.get_bool(
            "dirty"@,
        ) != Some(true)) ==> chosen_worktree(cwd, found, told, plan, rest) == new_branch_worktree(
            cwd,
            plan,
            rest,
        ),
{
}

/// A branch that is open in this very project needs no worktree.
pub proof fn law_branch_that_is_open_here_is_told(
    cwd: Seq<char>,
    found: JsonView,
    told: JsonView,
    plan: WorktreePlan,
    rest: Seq<Reply>,
    path: Seq<char>,
    left: Seq<Reply>,
)
    requires
        plan.carry || told.get_bool("dirty"@) != Some(true),
        found.get2("worktreePathByBranch"@, plan.branch) == Some(JsonView::Text(path)),
        same_file_path(path, cwd, rest) == Run::Got(true, left),
    ensures
        chosen_worktree(cwd, found, told, plan, rest) == Run::Got(
            Err::<JsonView, Seq<char>>(
                "Branch "@ + "'"@ + plan.branch + "'"@ + " is already open in this project."@,
            ),
            left,
        ),
{
}

/// What is said of a worktree that git would not add.
#[verifier::rlimit(60)]
#[verifier::spinoff_prover]
pub proof fn law_why_git_adds_no_worktree(
    plan: WorktreePlan,
    rest: Seq<Reply>,
    path: Seq<char>,
    after_path: Seq<Reply>,
    patch: Seq<char>,
    after_patch: Seq<Reply>,
    error: Seq<char>,
)
    requires
        managed_worktree_path(plan.root, rest) == Run::Got(
            Ok::<Seq<char>, Seq<char>>(path),
            after_path,
        ),
        carried_patch(plan, after_path) == Run::Got(Ok::<Seq<char>, Seq<char>>(patch), after_patch),
        after_patch.len() > 1,
        after_patch[0] == Err::<Seq<char>, Seq<char>>(error),
    ensures
        added_worktree(plan, rest) == Run::Got(
            Err::<JsonView, Seq<char>>(
                if contains(error, "invalid reference"@) {
                    "Base branch "@ + "'"@ + plan.base + "'"@ + " does not exist."@
                } else if contains(error, "already exists"@) {
                    "Branch "@ + "'"@ + plan.branch + "'"@ + " already exists."@
                } else if contains(error, "already used by worktree"@) || contains(
                    error,
                    "already checked out at"@,
                ) {
                    "Branch "@ + "'"@ + plan.branch + "'"@
                        + " is already open in another worktree."@
                } else {
                    error
                },
            ),
            after_patch.skip(1).skip(1),
        ),
{
}

/// A branch that outlives its worktree is told with its name.
pub proof fn law_branch_that_is_left_is_told(main: Seq<char>, name: Seq<char>, rest: Seq<Reply>)
    requires
        rest.len() > 0,
        rest[0] is Ok,
    ensures
        removed_view(main, Some(name), rest) == Run::Got(
            Err::<JsonView, Seq<char>>(
                "The temporary worktree was removed, but branch "@ + "'"@ + name + "'"@
                    + " could not be deleted automatically."@,
            ),
            rest.skip(1),
        ),
{
}

/// What is not to be removed is told; so is a reset that was not confirmed.
#[verifier::rlimit(60)]
#[verifier::spinoff_prover]
pub proof fn law_why_nothing_is_removed(
    cwd: Seq<char>,
    params: JsonView,
    rest: Seq<Reply>,
    path: Seq<char>,
    after_path: Seq<Reply>,
    main: Seq<char>,
    after_main: Seq<Reply>,
    same: bool,
    after_same: Seq<Reply>,
    after_managed: Seq<Reply>,
)
    requires
        repo_root(cwd, rest) == Run::Got(Ok::<Seq<char>, Seq<char>>(path), after_path),
        local_checkout_root(cwd, after_path) == Run::Got(
            Ok::<Seq<char>, Seq<char>>(main),
            after_main,
        ),
        same_file_path(path, main, after_main) == Run::Got(same, after_same),
        crate::git_handler::is_managed(path, after_same) == Run::Got(
            Ok::<bool, Seq<char>>(false),
            after_managed,
        ),
    ensures
        same ==> crate::git_handler::remove_worktree(cwd, params, rest) == Run::Got(
            Err::<JsonView, Seq<char>>("Cannot remove the main local checkout."@),
            after_same,
        ),
        !same ==> crate::git_handler::remove_worktree(cwd, params, rest) == Run::Got(
            Err::<JsonView, Seq<char>>("Only managed worktrees can be removed automatically."@),
            after_managed,
        ),
        params.get_str("confirm"@) != Some("discard_runtime_changes"@) ==> reset_to_remote(
            cwd,
            params,
            rest,
        ) == Run::Got(
            Err::<JsonView, Seq<char>>(
                "This action requires params.confirm === \"discard_runtime_changes\"."@,
            ),
            rest,
        ),
{
}

} // verus!
