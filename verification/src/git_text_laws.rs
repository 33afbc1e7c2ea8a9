//! What the bridge reads in the output of git.
use vstd::prelude::*;

use crate::git_text::{
    ahead_and_behind, branch_line, branch_of_ref, commit_header, commit_summary,
    created_branch_name, first_stash, first_summary, git_failure, git_outcome, hyphenated,
    is_summary, list_branches, numstat_line, numstat_sum, numstat_totals, owner_repo, push_new,
    read_worktree_line, read_worktree_lines, stash_on_line, stash_ref, state_word,
    status_branch, status_file, status_tracking, totals_view, untracked_paths, with_newline,
    worktrees_in, BranchLine, DiffTotals, WorktreeRecord,
};
use crate::text::{
    char_pred, contains, decimal, find, has_prefix, has_suffix, is_digit, is_space, join,
    lemma_find, lemma_no_space_trimmed, lines, no_space, nonblank_lines, occurs_at, space_pred,
    split, trim_end_by, trim_start_by, trimmed, without_prefix, words,
};
use crate::text_laws::{
    law_ends_are_taken_off, law_last_part_of_a_text, law_number_is_read_back,
    law_other_texts_are_no_numbers, law_rest_behind_a_prefix, law_text_is_cut_at_a_character,
    law_words_stand_between_spaces,
};

verus! {

// The status.

proof fn lemma_first_cut(a: Seq<char>, rest: Seq<char>)
    requires
        a.len() == 0 || a.last() != '.',
        !contains(a, "..."@),
    ensures
        split(a + "..."@ + rest, "..."@) == seq![a] + split(rest, "..."@),
{
    reveal_strlit("...");
    let sep = "..."@;
    let s = a + sep + rest;
    lemma_find(s, sep);
    assert(s.subrange(a.len() as int, (a.len() + 3) as int) =~= sep);
    assert(occurs_at(s, sep, a.len() as int));
    let i = find(s, sep)->0;
    if i < a.len() {
        if i + 3 <= a.len() {
            assert(a.subrange(i, i + 3) =~= s.subrange(i, i + 3));
            assert(occurs_at(a, sep, i));
        } else {
            assert(s.subrange(i, i + 3)[a.len() - 1 - i] == a[a.len() - 1]);
            assert(sep[a.len() - 1 - i] == '.');
        }
    }
    assert(i == a.len());
    assert(s.take(i) =~= a);
    assert(s.skip(i + 3) =~= rest);
}

proof fn lemma_uncut(a: Seq<char>)
    requires
        !contains(a, "..."@),
    ensures
        split(a, "..."@) == seq![a],
{
    lemma_find(a, "..."@);
}

proof fn lemma_trim_keeps(a: Seq<char>, x: char, rest: Seq<char>)
    requires
        a.len() == 0 || !is_space(a[0]),
        !is_space(x),
    ensures
        exists|n: int| 0 <= n <= rest.len() && trimmed(a + seq![x] + rest) == a + seq![x]
            + #[trigger] rest.take(n),
    decreases rest.len(),
{
    let s = a + seq![x] + rest;
    assert(s[0] == if a.len() > 0 { a[0] } else { x });
    assert(trim_start_by(s, space_pred()) == s);
    if rest.len() > 0 && is_space(rest.last()) {
        let less = rest.drop_last();
        lemma_trim_keeps(a, x, less);
        assert(s.drop_last() =~= a + seq![x] + less);
        let t = a + seq![x] + less;
        assert(t[0] == s[0]);
        assert(trim_start_by(t, space_pred()) == t);
        assert(trimmed(s) == trimmed(t));
        let n = choose|n: int| 0 <= n <= less.len() && trimmed(t) == a + seq![x]
            + #[trigger] less.take(n);
        assert(less.take(n) =~= rest.take(n));
    } else {
        assert(s.last() == if rest.len() > 0 { rest.last() } else { x });
        assert(trim_end_by(s, space_pred()) == s);
        assert(rest.take(rest.len() as int) =~= rest);
    }
}

/// The branch is what the first line of the status names, up to the dots in front of its upstream
/// branch.
pub proof fn law_branch_of_the_status(name: Seq<char>, upstream: Seq<char>)
    requires
        name.len() > 0,
        no_space(name),
        name.last() != '.',
        !contains(name, "..."@),
        !contains(name, "HEAD detached"@),
    ensures
        status_branch("## "@ + name) == Some(name),
        status_branch("## "@ + name + "..."@ + upstream) == Some(name),
{
    reveal_strlit("HEAD (no branch)");
    reveal_strlit("...");
    law_rest_behind_a_prefix("## "@, name);
    lemma_no_space_trimmed(name);
    lemma_uncut(name);
    if name == "HEAD (no branch)"@ {
        assert(is_space(name[4]));
    }
    let rest = name + "..."@ + upstream;
    law_rest_behind_a_prefix("## "@, rest);
    assert("## "@ + name + "..."@ + upstream =~= "## "@ + rest);
    let front = name + seq!['.', '.'];
    assert(rest =~= front + seq!['.'] + upstream);
    assert(front[0] == name[0]);
    lemma_trim_keeps(front, '.', upstream);
    let n = choose|n: int| 0 <= n <= upstream.len() && trimmed(rest) == front + seq!['.']
        + #[trigger] upstream.take(n);
    assert(front + seq!['.'] + upstream.take(n) =~= name + "..."@ + upstream.take(n));
    lemma_first_cut(name, upstream.take(n));
    assert(split(trimmed(rest), "..."@)[0] == name);
}

/// Where no branch is checked out, none is told.
pub proof fn law_no_branch_in_the_status(line: Seq<char>)
    ensures
        without_prefix(line, "## "@) is None ==> status_branch(line) is None,
        status_branch("## HEAD (no branch)"@) is None,
{
    reveal_strlit("## HEAD (no branch)");
    reveal_strlit("HEAD (no branch)");
    reveal_strlit("## ");
    reveal_strlit("...");
    let s = "HEAD (no branch)"@;
    assert("## HEAD (no branch)"@ =~= "## "@ + s);
    law_rest_behind_a_prefix("## "@, s);
    assert(trim_start_by(s, space_pred()) == s);
    assert(trim_end_by(s, space_pred()) == s);
    if contains(s, "..."@) {
        let i = choose|i: int| occurs_at(s, "..."@, i);
        assert(s.subrange(i, i + 3)[0] == s[i]);
        assert("..."@[0] == '.');
        assert(s[i] == '.');
    }
    lemma_uncut(s);
    assert(split(trimmed(s), "..."@)[0] == s);
}

/// The upstream branch is what stands behind the dots, up to the next white space.
pub proof fn law_upstream_of_the_status(name: Seq<char>, upstream: Seq<char>, more: Seq<char>)
    requires
        no_space(name),
        name.len() > 0,
        name.last() != '.',
        !contains("## "@ + name, "..."@),
        upstream.len() > 0,
        no_space(upstream),
        !contains(upstream, "..."@),
        !contains(upstream + seq![' '] + more, "..."@),
    ensures
        status_tracking("## "@ + name + "..."@ + upstream) == Some(upstream),
        status_tracking("## "@ + name + "..."@ + (upstream + seq![' '] + more)) == Some(upstream),
        status_tracking("## "@ + name) is None,
{
    let a = "## "@ + name;
    lemma_first_cut(a, upstream);
    lemma_uncut(upstream);
    lemma_first_cut(a, upstream + seq![' '] + more);
    lemma_uncut(upstream + seq![' '] + more);
    lemma_uncut(a);
    law_words_stand_between_spaces(upstream, ' ', more);
    assert((seq![a] + seq![upstream])[1] == upstream);
    let tail = upstream + seq![' '] + more;
    assert((seq![a] + seq![tail])[1] == tail);
}

/// A changed file is told with its two letters and its path.
pub proof fn law_changed_file_is_told(letters: Seq<char>, path: Seq<char>)
    requires
        letters.len() == 2,
    ensures
        status_file(letters + seq![' '] + path).get_str("path"@) == Some(trimmed(path)),
        status_file(letters + seq![' '] + path).get_str("status"@) == Some(trimmed(letters)),
{
    let line = letters + seq![' '] + path;
    assert(line.skip(3) =~= path);
    assert(line.take(2) =~= letters);
    reveal_strlit("path");
    reveal_strlit("status");
    assert("path"@.len() == 4 && "status"@.len() == 6);
}

/// The untracked files are those behind two question marks, in order; no other line counts.
pub proof fn law_untracked_files_are_found(all: Seq<Seq<char>>, path: Seq<char>, other: Seq<char>)
    requires
        trimmed(path).len() > 0,
        !has_prefix(other, "?? "@),
    ensures
        untracked_paths(all.push("?? "@ + path)) == untracked_paths(all).push(trimmed(path)),
        untracked_paths(all.push(other)) == untracked_paths(all),
        untracked_paths(Seq::empty()) == Seq::<Seq<char>>::empty(),
{
    reveal_strlit("?? ");
    law_rest_behind_a_prefix("?? "@, path);
    assert(all.push("?? "@ + path).drop_last() =~= all);
    assert(all.push(other).drop_last() =~= all);
    assert(("?? "@ + path).skip(3) =~= path);
}

/// The word for a branch: what is most in the way of sending it comes first.
pub proof fn law_word_for_a_branch(dirty: bool, ahead: u64, behind: u64)
    ensures
        state_word(dirty, ahead, behind, true, true) == "detached_head"@,
        state_word(dirty, ahead, behind, true, false) == "detached_head"@,
        state_word(dirty, ahead, behind, false, true) == "no_upstream"@,
        dirty && behind > 0 ==> state_word(dirty, ahead, behind, false, false)
            == "dirty_and_behind"@,
        dirty && behind == 0 ==> state_word(dirty, ahead, behind, false, false) == "dirty"@,
        !dirty && ahead > 0 && behind > 0 ==> state_word(dirty, ahead, behind, false, false)
            == "diverged"@,
        !dirty && ahead == 0 && behind > 0 ==> state_word(dirty, ahead, behind, false, false)
            == "behind_only"@,
        !dirty && ahead > 0 && behind == 0 ==> state_word(dirty, ahead, behind, false, false)
            == "ahead_only"@,
        !dirty && ahead == 0 && behind == 0 ==> state_word(dirty, ahead, behind, false, false)
            == "up_to_date"@,
{
}

proof fn lemma_digits_hold_no_space(n: nat)
    ensures
        no_space(decimal(n)),
        decimal(n).len() > 0,
{
    law_number_is_read_back(n, n);
    assert forall|i: int| 0 <= i < decimal(n).len() implies !is_space(#[trigger] decimal(n)[i]) by {
        assert(is_digit(decimal(n)[i]));
    }
}

/// The two numbers that git counts are how far a branch is ahead and behind, in this order.
pub proof fn law_ahead_and_behind_are_read(ahead: u64, behind: u64)
    ensures
        ahead_and_behind(decimal(ahead as nat) + seq!['\t'] + decimal(behind as nat)) == (
            ahead,
            behind,
        ),
        ahead_and_behind(
            decimal(ahead as nat) + seq!['\t'] + (decimal(behind as nat) + seq!['\n']),
        ) == (ahead, behind),
        ahead_and_behind(Seq::empty()) == (0u64, 0u64),
{
    let a = decimal(ahead as nat);
    let b = decimal(behind as nat);
    lemma_digits_hold_no_space(ahead as nat);
    lemma_digits_hold_no_space(behind as nat);
    law_number_is_read_back(ahead as nat, u64::MAX as nat);
    law_number_is_read_back(behind as nat, u64::MAX as nat);
    law_words_stand_between_spaces(a, '\t', b);
    law_words_stand_between_spaces(b, '\n', Seq::empty());
    law_words_stand_between_spaces(a, '\t', b + seq!['\n']);
    assert(b + seq!['\n'] + Seq::<char>::empty() =~= b + seq!['\n']);
    assert((seq![a] + seq![b])[0] == a && (seq![a] + seq![b])[1] == b);
    assert(seq![b] + Seq::<Seq<char>>::empty() =~= seq![b]);
}

// Totals.

proof fn lemma_digits_hold_no_tab(n: nat)
    ensures
        !decimal(n).contains('\t'),
{
    lemma_digits_hold_no_space(n);
    if decimal(n).contains('\t') {
        let i = choose|i: int| 0 <= i < decimal(n).len() && decimal(n)[i] == '\t';
        assert(!is_space(decimal(n)[i]));
    }
}

/// A line of the counts tells the lines that were added and removed; a binary file counts as one.
pub proof fn law_counts_of_a_file(added: u64, removed: u64, path: Seq<char>)
    ensures
        numstat_line(
            decimal(added as nat) + "\t"@ + (decimal(removed as nat) + "\t"@ + path),
        ) == (DiffTotals { additions: added, deletions: removed, binary_files: 0 }),
        numstat_line("-"@ + "\t"@ + ("-"@ + "\t"@ + path)) == (DiffTotals {
            additions: 0,
            deletions: 0,
            binary_files: 1,
        }),
{
    reveal_strlit("\t");
    reveal_strlit("-");
    assert("\t"@ =~= seq!['\t']);
    let a = decimal(added as nat);
    let b = decimal(removed as nat);
    lemma_digits_hold_no_tab(added as nat);
    lemma_digits_hold_no_tab(removed as nat);
    law_number_is_read_back(added as nat, u64::MAX as nat);
    law_number_is_read_back(removed as nat, u64::MAX as nat);
    law_text_is_cut_at_a_character(a, '\t', b + "\t"@ + path);
    law_text_is_cut_at_a_character(b, '\t', path);
    let rest = split(path, "\t"@);
    assert((seq![a] + (seq![b] + rest))[0] == a);
    assert((seq![a] + (seq![b] + rest))[1] == b);
    let d = "-"@;
    assert(!d.contains('\t'));
    law_text_is_cut_at_a_character(d, '\t', d + "\t"@ + path);
    law_text_is_cut_at_a_character(d, '\t', path);
    assert((seq![d] + (seq![d] + rest))[0] == d);
    law_other_texts_are_no_numbers(d, 0, u64::MAX as nat);
}

/// The totals are the sums over the files.
pub proof fn law_counts_are_summed_up(all: Seq<Seq<char>>, line: Seq<char>, output: Seq<char>)
    ensures
        ({
            let before = numstat_sum(all);
            let one = numstat_line(line);
            let after = numstat_sum(all.push(line));
            &&& before.additions + one.additions <= u64::MAX ==> after.additions
                == before.additions + one.additions
            &&& before.deletions + one.deletions <= u64::MAX ==> after.deletions
                == before.deletions + one.deletions
            &&& before.binary_files + one.binary_files <= u64::MAX ==> after.binary_files
                == before.binary_files + one.binary_files
        }),
        numstat_sum(Seq::empty()) == (DiffTotals { additions: 0, deletions: 0, binary_files: 0 }),
        numstat_totals(output) == numstat_sum(nonblank_lines(output)),
{
    assert(all.push(line).drop_last() =~= all);
}

/// The totals are told under their names.
pub proof fn law_totals_are_told(totals: DiffTotals)
    ensures
        totals_view(totals).get_u64("additions"@) == Some(totals.additions),
        totals_view(totals).get_u64("deletions"@) == Some(totals.deletions),
        totals_view(totals).get_u64("binaryFiles"@) == Some(totals.binary_files),
{
    reveal_strlit("additions");
    reveal_strlit("deletions");
    reveal_strlit("binaryFiles");
    assert("additions"@[0] == 'a' && "deletions"@[0] == 'd' && "additions"@.len() == 9);
    assert("deletions"@.len() == 9 && "binaryFiles"@.len() == 11);
}

// Branches.

/// A line of the list names a branch, and marks the one that is checked out here or elsewhere.
pub proof fn law_branch_on_a_line(name: Seq<char>)
    requires
        name.len() > 0,
        no_space(name),
        name[0] != '*',
        name[0] != '+',
    ensures
        branch_line("* "@ + name) == Some(
            BranchLine { is_current: true, is_checked_out_elsewhere: false, name },
        ),
        branch_line("+ "@ + name) == Some(
            BranchLine { is_current: false, is_checked_out_elsewhere: true, name },
        ),
        branch_line("  "@ + name) == Some(
            BranchLine { is_current: false, is_checked_out_elsewhere: false, name },
        ),
        branch_line(Seq::empty()) is None,
{
    reveal_strlit("* ");
    reveal_strlit("+ ");
    reveal_strlit("  ");
    lemma_no_space_trimmed(name);
    let star = char_pred('*');
    let plus = char_pred('+');
    let spaced = seq![' '] + name;
    assert(spaced.skip(1) =~= name);
    assert(trim_start_by(name, star) == name);
    assert(trim_start_by(name, plus) == name);
    assert(trim_start_by(spaced, star) == spaced);
    assert(trim_start_by(spaced, plus) == spaced);
    assert(trim_start_by(name, space_pred()) == name);
    assert(trim_end_by(name, space_pred()) == name);
    assert(trim_start_by(spaced, space_pred()) == name);
    let a = "* "@ + name;
    assert(a[0] == '*' && a.last() == name.last());
    assert(trim_start_by(a, space_pred()) == a);
    assert(trim_end_by(a, space_pred()) == a);
    assert(a.skip(1) =~= spaced);
    assert(trim_start_by(a, star) == spaced);
    assert(a.subrange(0, 2) =~= "* "@);
    assert("+ "@[0] == '+' && "* "@[0] == '*');
    assert(a.subrange(0, 2)[0] == a[0]);
    let b = "+ "@ + name;
    assert(b[0] == '+' && b.last() == name.last());
    assert(trim_start_by(b, space_pred()) == b);
    assert(trim_end_by(b, space_pred()) == b);
    assert(b.skip(1) =~= spaced);
    assert(trim_start_by(b, star) == b);
    assert(trim_start_by(b, plus) == spaced);
    assert(b.subrange(0, 2) =~= "+ "@);
    assert(b.subrange(0, 2)[0] == b[0]);
    let c = "  "@ + name;
    assert(c.skip(1) =~= spaced);
    assert(trim_start_by(c, space_pred()) == name);
    if has_prefix(name, "* "@) {
        assert(name.subrange(0, 2)[0] == name[0]);
    }
    if has_prefix(name, "+ "@) {
        assert(name.subrange(0, 2)[0] == name[0]);
    }
    let none = Seq::<char>::empty();
    assert(trim_start_by(none, space_pred()) == none);
    assert(trim_end_by(none, space_pred()) == none);
}

/// Every branch on the lines is listed; the one that is checked out is the current one, and those
/// that are checked out elsewhere are told as such.
pub proof fn law_every_branch_is_listed(all: Seq<Seq<char>>, line: Seq<char>, entry: BranchLine)
    requires
        branch_line(line) == Some(entry),
        !contains(entry.name, "HEAD detached"@),
        entry.name != "(no branch)"@,
    ensures
        ({
            let before = list_branches(all);
            let after = list_branches(all.push(line));
            &&& after.branches.contains(entry.name)
            &&& forall|name: Seq<char>| #[trigger]
                before.branches.contains(name) ==> after.branches.contains(name)
            &&& forall|name: Seq<char>| #[trigger]
                after.branches.contains(name) ==> before.branches.contains(name) || name
                    == entry.name
            &&& entry.is_current ==> after.current == entry.name
            &&& !entry.is_current ==> after.current == before.current
            &&& entry.is_checked_out_elsewhere ==> after.elsewhere.contains(entry.name)
            &&& !entry.is_checked_out_elsewhere ==> after.elsewhere == before.elsewhere
        }),
{
    assert(all.push(line).drop_last() =~= all);
    let before = list_branches(all);
    let after = list_branches(all.push(line));
    lemma_push_new(before.branches, entry.name);
    lemma_push_new(before.elsewhere, entry.name);
}

proof fn lemma_push_new(s: Seq<Seq<char>>, x: Seq<char>)
    ensures
        push_new(s, x).contains(x),
        forall|y: Seq<char>| #[trigger] s.contains(y) ==> push_new(s, x).contains(y),
        forall|y: Seq<char>| #[trigger] push_new(s, x).contains(y) ==> s.contains(y) || y == x,
{
    if !s.contains(x) {
        assert(s.push(x)[s.len() as int] == x);
        assert forall|y: Seq<char>| #[trigger] s.contains(y) implies s.push(x).contains(y) by {
            let i = choose|i: int| 0 <= i < s.len() && s[i] == y;
            assert(s.push(x)[i] == y);
        }
        assert forall|y: Seq<char>| #[trigger] s.push(x).contains(y) implies s.contains(y) || y
            == x by {
            let i = choose|i: int| 0 <= i < s.push(x).len() && s.push(x)[i] == y;
            if i < s.len() {
                assert(s[i] == y);
            }
        }
    }
}

/// A line about no branch lists none; where it is the current one, there is no branch.
pub proof fn law_lines_about_no_branch(all: Seq<Seq<char>>, line: Seq<char>)
    ensures
        branch_line(line) is None ==> list_branches(all.push(line)) == list_branches(all),
        branch_line(line) matches Some(entry) ==> contains(entry.name, "HEAD detached"@)
            || entry.name == "(no branch)"@ ==> list_branches(all.push(line)).branches
            == list_branches(all).branches && list_branches(all.push(line)).elsewhere
            == list_branches(all).elsewhere && (entry.is_current ==> list_branches(
            all.push(line),
        ).current == "HEAD"@),
        list_branches(Seq::empty()).branches.len() == 0,
        list_branches(Seq::empty()).elsewhere.len() == 0,
        list_branches(Seq::empty()).current.len() == 0,
{
    assert(all.push(line).drop_last() =~= all);
}

/// A branch is created in the namespace of the bridge, under the name that was asked for.
pub proof fn law_name_of_a_created_branch(name: Seq<char>)
    requires
        no_space(name),
        name.len() > 0,
    ensures
        has_prefix(name, "remodex/"@) ==> created_branch_name(name) == name,
        !has_prefix(name, "remodex/"@) ==> created_branch_name(name) == "remodex/"@ + name,
        created_branch_name(Seq::empty()).len() == 0,
        hyphenated(name) == name,
{
    reveal_strlit("/");
    reveal_strlit("-");
    lemma_no_space_trimmed(name);
    let parts = split(name, "/"@);
    crate::text::lemma_split_no_space(name, "/"@);
    crate::text::lemma_join_split(name, "/"@);
    let joined = parts.map_values(|segment: Seq<char>| join(words(segment), "-"@));
    assert forall|i: int| 0 <= i < parts.len() implies joined[i] == parts[i] by {
        assert(no_space(parts[i]));
        assert(no_space("-"@));
        crate::text::lemma_joined_words(parts[i], "-"@);
    }
    assert(joined =~= parts);
    lemma_no_space_trimmed(Seq::empty());
}

/// White space in the name of a branch becomes hyphens.
pub proof fn law_spaces_become_hyphens(a: Seq<char>, b: Seq<char>)
    requires
        no_space(a),
        a.len() > 0,
        !a.contains('/'),
        no_space(b),
        b.len() > 0,
        !b.contains('/'),
    ensures
        hyphenated(a + seq![' '] + b) == a + "-"@ + b,
{
    reveal_strlit("/");
    assert("/"@ =~= seq!['/']);
    let s = a + seq![' '] + b;
    assert forall|i: int| 0 <= i < s.len() implies s[i] != '/' by {
        if i < a.len() {
            assert(s[i] == a[i]);
        } else if i > a.len() {
            assert(s[i] == b[i - a.len() - 1]);
        }
    }
    law_text_is_cut_at_a_character(s, '/', Seq::empty());
    law_words_stand_between_spaces(a, ' ', b);
    law_words_stand_between_spaces(b, ' ', Seq::empty());
    assert(words(s) =~= seq![a, b]);
    let joined = seq![s].map_values(|segment: Seq<char>| join(words(segment), "-"@));
    assert(joined =~= seq![join(seq![a, b], "-"@)]);
    assert(seq![a, b].drop_last() =~= seq![a]);
    assert(seq![a, b].last() == b);
    assert(join(seq![a], "-"@) == a);
}

// Worktrees.

/// A record tells the path of a worktree.
pub proof fn law_path_of_a_worktree(record: WorktreeRecord, line: Seq<char>, path: Seq<char>)
    requires
        trimmed(line) == "worktree "@ + path,
    ensures
        read_worktree_line(record, line).path == Some(trimmed(path)),
        read_worktree_line(record, line).branch == record.branch,
{
    reveal_strlit("worktree ");
    reveal_strlit("branch ");
    law_rest_behind_a_prefix("worktree "@, path);
    let t = trimmed(line);
    assert(t[0] == 'w');
    if has_prefix(t, "branch "@) {
        assert(t.subrange(0, 7)[0] == t[0]);
        assert("branch "@[0] == 'b');
    }
}

/// A record tells the branch that is checked out in a worktree.
pub proof fn law_branch_of_a_worktree(record: WorktreeRecord, line: Seq<char>, branch: Seq<char>)
    requires
        no_space(branch),
        trimmed(line) == "branch "@ + ("refs/heads/"@ + branch),
    ensures
        read_worktree_line(record, line).branch == Some(branch),
        read_worktree_line(record, line).path == record.path,
{
    let reference = "refs/heads/"@ + branch;
    law_branch_of_a_reference(branch);
    assert(trimmed(reference) == reference) by {
        reveal_strlit("refs/heads/");
        assert(no_space(reference));
        lemma_no_space_trimmed(reference);
    }
    law_rest_behind_a_prefix("branch "@, reference);
    reveal_strlit("worktree ");
    reveal_strlit("branch ");
    let t = trimmed(line);
    assert(t[0] == 'b');
    if has_prefix(t, "worktree "@) {
        assert(t.subrange(0, 9)[0] == t[0]);
        assert("worktree "@[0] == 'w');
    }
}

/// Other lines of a record tell neither.
pub proof fn law_other_lines_of_a_record(record: WorktreeRecord, line: Seq<char>)
    requires
        !has_prefix(trimmed(line), "worktree "@),
        !has_prefix(trimmed(line), "branch "@),
    ensures
        read_worktree_line(record, line) == record,
{
}

/// The lines of a record are read in order, and a worktree counts where it has both.
pub proof fn law_record_is_read_line_by_line(
    all: Seq<Seq<char>>,
    line: Seq<char>,
    records: Seq<Seq<char>>,
    record: Seq<char>,
)
    ensures
        read_worktree_lines(all.push(line)) == read_worktree_line(read_worktree_lines(all), line),
        read_worktree_lines(Seq::empty()).path is None,
        read_worktree_lines(Seq::empty()).branch is None,
        ({
            let read = read_worktree_lines(nonblank_lines(record));
            &&& read.branch matches Some(branch) ==> (read.path matches Some(path) ==> worktrees_in(
                records.push(record),
            ) == worktrees_in(records).push((branch, path)))
            &&& read.branch is None || read.path is None ==> worktrees_in(records.push(record))
                == worktrees_in(records)
        }),
{
    assert(all.push(line).drop_last() =~= all);
    assert(records.push(record).drop_last() =~= records);
}

/// A branch is named by its reference without what all of them begin with.
pub proof fn law_branch_of_a_reference(branch: Seq<char>)
    requires
        no_space(branch),
    ensures
        branch_of_ref("refs/heads/"@ + branch) == Some(branch),
{
    reveal_strlit("refs/heads/");
    assert(no_space("refs/heads/"@ + branch));
    lemma_no_space_trimmed("refs/heads/"@ + branch);
    law_rest_behind_a_prefix("refs/heads/"@, branch);
}

// Commits and stashes.

/// What a commit says first is its branch and its hash, in brackets.
pub proof fn law_head_of_a_commit(branch: Seq<char>, hash: Seq<char>)
    requires
        no_space(branch),
        branch.len() > 0,
        branch[0] != '[',
        no_space(hash),
        hash.len() > 0,
        hash.last() != ']',
    ensures
        commit_header("["@ + branch + " "@ + hash + "]"@) == (branch, hash),
{
    reveal_strlit("[");
    reveal_strlit(" ");
    reveal_strlit("]");
    let s = "["@ + branch + " "@ + hash + "]"@;
    assert(s[0] == '[' && s.last() == ']');
    assert(trim_start_by(s, space_pred()) == s);
    assert(trim_end_by(s, space_pred()) == s);
    assert(s.subrange(0, 1) =~= "["@);
    let t = branch + " "@ + hash + "]"@;
    assert(s.skip(1) =~= t);
    assert(t[0] == branch[0]);
    assert(trim_start_by(t, char_pred('[')) == t);
    assert(trim_start_by(s, char_pred('[')) == t);
    let u = branch + seq![' '] + hash;
    assert(t.drop_last() =~= u);
    assert(u.last() == hash.last());
    assert(trim_end_by(u, char_pred(']')) == u);
    assert(trim_end_by(t, char_pred(']')) == u);
    law_words_stand_between_spaces(branch, ' ', hash);
    law_words_stand_between_spaces(hash, ' ', Seq::empty());
    assert(words(u) =~= seq![branch, hash]);
}

/// What does not begin with a bracket names neither.
pub proof fn law_other_lines_head_no_commit(line: Seq<char>)
    requires
        !has_prefix(trimmed(line), "["@),
    ensures
        commit_header(line) == (Seq::<char>::empty(), Seq::<char>::empty()),
{
}

/// A commit is summed up by the first line that counts its files; without one, by the last line.
pub proof fn law_summary_of_a_commit(output: Seq<char>, i: int)
    requires
        0 <= i < lines(output).len(),
        forall|j: int|
            0 <= j < i ==> !contains(#[trigger] lines(output)[j], " files changed"@) && !contains(
                lines(output)[j],
                " file changed"@,
            ),
    ensures
        contains(lines(output)[i], " files changed"@) || contains(
            lines(output)[i],
            " file changed"@,
        ) ==> commit_summary(output) == trimmed(lines(output)[i]),
        i == lines(output).len() - 1 ==> commit_summary(output) == trimmed(lines(output)[i]),
{
    lemma_first_summary(lines(output), i);
}

proof fn lemma_first_summary(all: Seq<Seq<char>>, i: int)
    requires
        0 <= i < all.len(),
        forall|j: int| 0 <= j < i ==> !is_summary(#[trigger] all[j]),
    ensures
        is_summary(all[i]) ==> first_summary(all) == Some(all[i]),
        i == all.len() - 1 && !is_summary(all[i]) ==> first_summary(all) is None,
    decreases all.len(),
{
    if i > 0 {
        let rest = all.skip(1);
        assert forall|j: int| 0 <= j < i - 1 implies !is_summary(#[trigger] rest[j]) by {
            assert(rest[j] == all[j + 1]);
        }
        assert(rest[i - 1] == all[i]);
        assert(!is_summary(all[0]));
        lemma_first_summary(rest, i - 1);
    } else if all.len() == 1 && !is_summary(all[0]) {
        assert(all.skip(1).len() == 0);
        assert(first_summary(all.skip(1)) is None);
    }
}

/// The stash with a label is the first whose subject holds the label; it is named in front of it.
pub proof fn law_stash_with_a_label(reference: Seq<char>, subject: Seq<char>, label: Seq<char>)
    requires
        reference.len() > 0,
        no_space(reference),
        !reference.contains('\0'),
        no_space(subject),
        !subject.contains('\0'),
        subject.len() > 0,
    ensures
        contains(subject, label) ==> stash_on_line(reference + seq!['\0'] + subject, label) == Some(
            reference,
        ),
        !contains(subject, label) ==> stash_on_line(reference + seq!['\0'] + subject, label)
            is None,
{
    reveal_strlit("\0");
    assert("\0"@ =~= seq!['\0']);
    let line = reference + seq!['\0'] + subject;
    assert(line[0] == reference[0] && line.last() == subject.last());
    assert(trim_start_by(line, space_pred()) == line);
    assert(trim_end_by(line, space_pred()) == line);
    law_text_is_cut_at_a_character(reference, '\0', subject);
    law_text_is_cut_at_a_character(subject, '\0', Seq::empty());
    lemma_no_space_trimmed(reference);
    assert((seq![reference] + seq![subject])[0] == reference);
    assert((seq![reference] + seq![subject])[1] == subject);
}

/// Of several stashes with the label the first counts.
pub proof fn law_first_stash_counts(all: Seq<Seq<char>>, label: Seq<char>, i: int)
    requires
        0 <= i < all.len(),
        stash_on_line(all[i], label) is Some,
        forall|j: int| 0 <= j < i ==> stash_on_line(#[trigger] all[j], label) is None,
    ensures
        first_stash(all, label) == stash_on_line(all[i], label),
    decreases all.len(),
{
    if i > 0 {
        let rest = all.skip(1);
        assert(rest[i - 1] == all[i]);
        assert forall|j: int| 0 <= j < i - 1 implies stash_on_line(#[trigger] rest[j], label)
            is None by {
            assert(rest[j] == all[j + 1]);
        }
        assert(stash_on_line(all[0], label) is None);
        law_first_stash_counts(rest, label, i - 1);
    }
}

/// Lines without the label name no stash.
pub proof fn law_no_stash_without_the_label(all: Seq<Seq<char>>, label: Seq<char>, output: Seq<char>)
    requires
        forall|j: int| 0 <= j < all.len() ==> stash_on_line(#[trigger] all[j], label) is None,
    ensures
        first_stash(all, label) is None,
        stash_ref(output, label) == first_stash(nonblank_lines(output), label),
    decreases all.len(),
{
    if all.len() > 0 {
        let rest = all.skip(1);
        assert forall|j: int| 0 <= j < rest.len() implies stash_on_line(#[trigger] rest[j], label)
            is None by {
            assert(rest[j] == all[j + 1]);
        }
        assert(stash_on_line(all[0], label) is None);
        law_no_stash_without_the_label(rest, label, output);
    }
}

// Remotes and replies.

/// The repository is what stands behind the last colon of its URL, without the ending of git.
pub proof fn law_repository_of_a_url(host: Seq<char>, path: Seq<char>)
    requires
        !path.contains(':'),
        !has_suffix(host + seq![':'] + path, ".git"@),
    ensures
        owner_repo(host + seq![':'] + path) == Some(path),
        owner_repo(host + seq![':'] + path + ".git"@) == Some(path),
{
    reveal_strlit(".git");
    let url = host + seq![':'] + path;
    law_ends_are_taken_off(url, ".git"@);
    law_last_part_of_a_text(host, ':', path);
}

/// Without a colon it is what stands behind the last slash; without either there is none.
pub proof fn law_repository_of_a_path(front: Seq<char>, name: Seq<char>)
    requires
        !front.contains(':'),
        !name.contains(':'),
        !name.contains('/'),
        !has_suffix(front + seq!['/'] + name, ".git"@),
        !has_suffix(name, ".git"@),
    ensures
        owner_repo(front + seq!['/'] + name) == Some(name),
        owner_repo(name) is None,
{
    reveal_strlit(".git");
    let url = front + seq!['/'] + name;
    assert forall|i: int| 0 <= i < url.len() implies url[i] != ':' by {
        if i < front.len() {
            assert(url[i] == front[i]);
        } else if i > front.len() {
            assert(url[i] == name[i - front.len() - 1]);
        }
    }
    law_ends_are_taken_off(url, ".git"@);
    law_ends_are_taken_off(name, ".git"@);
    law_last_part_of_a_text(front, ':', url);
    law_last_part_of_a_text(front, ':', name);
    law_last_part_of_a_text(front, '/', name);
}

/// A patch ends with a line feed, and with no more than it had where it had one.
pub proof fn law_patch_ends_with_a_line_feed(s: Seq<char>)
    ensures
        with_newline(s).len() > 0 && with_newline(s).last() == '\n',
        s.len() > 0 && s.last() == '\n' ==> with_newline(s) == s,
        s.len() == 0 || s.last() != '\n' ==> with_newline(s) == s + seq!['\n'],
{
    reveal_strlit("\n");
    assert("\n"@ =~= seq!['\n']);
}

/// A command that went well gives what it printed; one that did not is told by what it complained
/// of, else by what it printed. With leave, the exit code 1 is no failure.
pub proof fn law_outcome_of_a_command(lenient: bool, stdout: Seq<char>, stderr: Seq<char>)
    ensures
        git_outcome(true, false, lenient, stdout, stderr) == Ok::<Seq<char>, Seq<char>>(stdout),
        git_outcome(false, true, true, stdout, stderr) == Ok::<Seq<char>, Seq<char>>(stdout),
        git_outcome(false, false, true, stdout, stderr) == Err::<Seq<char>, Seq<char>>(
            trimmed(stderr),
        ),
        trimmed(stderr).len() > 0 ==> git_outcome(false, true, false, stdout, stderr) == Err::<
            Seq<char>,
            Seq<char>,
        >(trimmed(stderr)),
        trimmed(stderr).len() == 0 && trimmed(stdout).len() > 0 ==> git_outcome(
            false,
            false,
            false,
            stdout,
            stderr,
        ) == Err::<Seq<char>, Seq<char>>(trimmed(stdout)),
        trimmed(stderr).len() == 0 && trimmed(stdout).len() == 0 ==> git_failure(stdout, stderr)
            == "git command failed"@,
{
}

} // verus!
