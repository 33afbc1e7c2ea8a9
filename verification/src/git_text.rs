//! What git prints, read.
use vstd::prelude::*;

use crate::json::{Json, JsonObject, JsonView};
use crate::script::reply_of;
use crate::text::{
    after_last, blank, char_pred, chars_from, chars_to, concat2, concat3, contains, contains_text,
    has_prefix, has_text, is_blank, join, join_texts, lemma_join_split, lemma_joined_parts,
    lemma_joined_words, lemma_lt_total, lemma_no_space_trimmed, lemma_sorted_keeps,
    lemma_split_no_space, lines, lines_of, no_space, non_blank, nonblank_lines, nonblank_lines_of,
    parse_bounded, parse_number, skip_chars, sorted, split, split_last, split_text, starts_with,
    strip_prefix, take_chars, text_eq, text_lt, trim, trim_end_by, trim_end_char, trim_end_matches,
    trim_end_text, trim_non_blank, trim_start_by, trim_start_char, trimmed, without_prefix, words,
    words_of,
};

verus! {

// The status of a working copy.

/// The branch that the first line of `git status` names, unless there is none.
pub open spec fn status_branch(line: Seq<char>) -> Option<Seq<char>> {
    match without_prefix(line, "## "@) {
        Some(rest) => {
            let branch = trimmed(split(trimmed(rest), "..."@)[0]);
            if branch == "HEAD (no branch)"@ || contains(branch, "HEAD detached"@) {
                None
            } else {
                Some(branch)
            }
        },
        None => None,
    }
}

pub fn parse_branch_from_status(line: &str) -> (r: Option<String>)
    ensures
        r.deep_view() == status_branch(line@),
{
    proof {
        reveal_strlit("...");
    }
    match strip_prefix(line, "## ") {
        Some(rest) => {
            let rest = trim(rest.as_str());
            let parts = split_text(rest.as_str(), "...");
            assert(parts.deep_view().len() > 0) by {
                reveal_with_fuel(split, 1);
            }
            let branch = trim(parts[0].as_str());
            if text_eq(branch.as_str(), "HEAD (no branch)") || contains_text(
                branch.as_str(),
                "HEAD detached",
            ) {
                None
            } else {
                Some(branch)
            }
        },
        None => None,
    }
}

/// The upstream branch that the first line of `git status` names.
pub open spec fn status_tracking(line: Seq<char>) -> Option<Seq<char>> {
    let parts = split(line, "..."@);
    if parts.len() > 1 && words(parts[1]).len() > 0 {
        Some(words(parts[1])[0])
    } else {
        None
    }
}

pub fn parse_tracking_from_status(line: &str) -> (r: Option<String>)
    ensures
        r.deep_view() == status_tracking(line@),
{
    proof {
        reveal_strlit("...");
    }
    let parts = split_text(line, "...");
    if parts.len() > 1 {
        let found = words_of(parts[1].as_str());
        if found.len() > 0 {
            return Some(found[0].clone());
        }
    }
    None
}

/// One changed file: its path, and the two letters that tell what became of it.
pub open spec fn status_file(line: Seq<char>) -> JsonView {
    JsonView::Object(
        map![
            "path"@ => JsonView::Text(trimmed(skip_chars(line, 3))),
            "status"@ => JsonView::Text(trimmed(take_chars(line, 2))),
        ],
    )
}

pub open spec fn status_files(lines: Seq<Seq<char>>) -> Seq<JsonView> {
    Seq::new(lines.len(), |i: int| status_file(lines[i]))
}

pub fn files_from_status(lines: &Vec<String>) -> (r: Vec<Json>)
    ensures
        r.deep_view() == status_files(lines.deep_view()),
{
    let mut out: Vec<Json> = Vec::new();
    let mut i: usize = 0;
    while i < lines.len()
        invariant
            i <= lines@.len(),
            out@.len() == i,
            forall|j: int| 0 <= j < i ==> (#[trigger] out@[j])@ == status_file(lines@[j]@),
        decreases lines@.len() - i,
    {
        let path = trim(chars_from(lines[i].as_str(), 3).as_str());
        let status = trim(chars_to(lines[i].as_str(), 2).as_str());
        let mut file = JsonObject::new();
        file.insert("path", Json::text(path.as_str()));
        file.insert("status", Json::text(status.as_str()));
        out.push(Json::object(file));
        i = i + 1;
    }
    assert(out.deep_view() =~= status_files(lines.deep_view()));
    out
}

/// The path on a line of `git status` about an untracked file.
pub open spec fn untracked_path(line: Seq<char>) -> Option<Seq<char>> {
    if has_prefix(line, "?? "@) {
        non_blank(Some(skip_chars(line, 3)))
    } else {
        None
    }
}

pub open spec fn untracked_paths(lines: Seq<Seq<char>>) -> Seq<Seq<char>>
    decreases lines.len(),
{
    if lines.len() == 0 {
        seq![]
    } else {
        let rest = untracked_paths(lines.drop_last());
        match untracked_path(lines.last()) {
            Some(path) => rest.push(path),
            None => rest,
        }
    }
}

pub fn untracked_from_status(lines: &Vec<String>) -> (r: Vec<String>)
    ensures
        r.deep_view() == untracked_paths(lines.deep_view()),
{
    let ghost all = lines.deep_view();
    let mut out: Vec<String> = Vec::new();
    let mut i: usize = 0;
    assert(all.take(0) =~= Seq::empty());
    assert(out.deep_view() =~= Seq::empty());
    while i < lines.len()
        invariant
            i <= lines@.len(),
            all == lines.deep_view(),
            out.deep_view() == untracked_paths(all.take(i as int)),
        decreases lines@.len() - i,
    {
        let ghost before = out.deep_view();
        assert(all.take(i + 1).drop_last() =~= all.take(i as int));
        assert(all.take(i + 1).last() == lines@[i as int]@);
        if starts_with(lines[i].as_str(), "?? ") {
            match trim_non_blank(chars_from(lines[i].as_str(), 3).as_str()) {
                Some(path) => {
                    out.push(path);
                    assert(out.deep_view() =~= before.push(path@));
                },
                None => {},
            }
        }
        i = i + 1;
    }
    assert(all.take(i as int) =~= all);
    out
}

/// The word for the state of a branch.
pub open spec fn state_word(
    dirty: bool,
    ahead: u64,
    behind: u64,
    detached: bool,
    no_upstream: bool,
) -> Seq<char> {
    if detached {
        "detached_head"@
    } else if no_upstream {
        "no_upstream"@
    } else if dirty && behind > 0 {
        "dirty_and_behind"@
    } else if dirty {
        "dirty"@
    } else if ahead > 0 && behind > 0 {
        "diverged"@
    } else if behind > 0 {
        "behind_only"@
    } else if ahead > 0 {
        "ahead_only"@
    } else {
        "up_to_date"@
    }
}

pub fn compute_state(
    dirty: bool,
    ahead: u64,
    behind: u64,
    detached: bool,
    no_upstream: bool,
) -> (r: &'static str)
    ensures
        r@ == state_word(dirty, ahead, behind, detached, no_upstream),
{
    if detached {
        "detached_head"
    } else if no_upstream {
        "no_upstream"
    } else if dirty && behind > 0 {
        "dirty_and_behind"
    } else if dirty {
        "dirty"
    } else if ahead > 0 && behind > 0 {
        "diverged"
    } else if behind > 0 {
        "behind_only"
    } else if ahead > 0 {
        "ahead_only"
    } else {
        "up_to_date"
    }
}

// Counts.

/// The number that a text is, or zero.
pub open spec fn number_in(s: Seq<char>) -> u64 {
    match parse_number(s, u64::MAX as nat) {
        Some(n) => n as u64,
        None => 0,
    }
}

pub fn number_from(s: &str) -> (r: u64)
    ensures
        r == number_in(s@),
{
    match parse_bounded(s, u64::MAX) {
        Some(n) => n,
        None => 0,
    }
}

/// How far a branch is ahead of its upstream branch and behind it.
pub open spec fn ahead_and_behind(output: Seq<char>) -> (u64, u64) {
    let parts = words(output);
    (
        if parts.len() > 0 {
            number_in(parts[0])
        } else {
            0
        },
        if parts.len() > 1 {
            number_in(parts[1])
        } else {
            0
        },
    )
}

pub fn parse_rev_list_counts(output: &str) -> (r: (u64, u64))
    ensures
        r == ahead_and_behind(output@),
{
    let parts = words_of(output);
    let ahead: u64 = if parts.len() > 0 { number_from(parts[0].as_str()) } else { 0 };
    let behind: u64 = if parts.len() > 1 { number_from(parts[1].as_str()) } else { 0 };
    (ahead, behind)
}

/// Lines added and deleted, and binary files, counted modulo 2^64.
#[derive(Debug, PartialEq, Eq, Clone, Copy)]
pub struct DiffTotals {
    pub additions: u64,
    pub deletions: u64,
    pub binary_files: u64,
}

pub open spec fn zero_totals() -> DiffTotals {
    DiffTotals { additions: 0, deletions: 0, binary_files: 0 }
}

pub open spec fn totals_plus(a: DiffTotals, b: DiffTotals) -> DiffTotals {
    DiffTotals {
        additions: a.additions.wrapping_add(b.additions),
        deletions: a.deletions.wrapping_add(b.deletions),
        binary_files: a.binary_files.wrapping_add(b.binary_files),
    }
}

/// What one line of `git diff --numstat` counts: its first two fields are numbers unless the file
/// is binary.
pub open spec fn numstat_line(line: Seq<char>) -> DiffTotals {
    let parts = split(line, "\t"@);
    let additions = parse_number(parts[0], u64::MAX as nat);
    let deletions = if parts.len() > 1 {
        parse_number(parts[1], u64::MAX as nat)
    } else {
        None
    };
    match (additions, deletions) {
        (Some(a), Some(d)) => DiffTotals {
            additions: a as u64,
            deletions: d as u64,
            binary_files: 0,
        },
        _ => DiffTotals { additions: 0, deletions: 0, binary_files: 1 },
    }
}

pub open spec fn numstat_sum(lines: Seq<Seq<char>>) -> DiffTotals
    decreases lines.len(),
{
    if lines.len() == 0 {
        zero_totals()
    } else {
        totals_plus(numstat_sum(lines.drop_last()), numstat_line(lines.last()))
    }
}

/// What the output of `git diff --numstat` counts.
pub open spec fn numstat_totals(output: Seq<char>) -> DiffTotals {
    numstat_sum(nonblank_lines(output))
}

pub fn add_totals(a: DiffTotals, b: DiffTotals) -> (r: DiffTotals)
    ensures
        r == totals_plus(a, b),
{
    DiffTotals {
        additions: a.additions.wrapping_add(b.additions),
        deletions: a.deletions.wrapping_add(b.deletions),
        binary_files: a.binary_files.wrapping_add(b.binary_files),
    }
}

fn parse_numstat_line(line: &str) -> (r: DiffTotals)
    ensures
        r == numstat_line(line@),
{
    proof {
        reveal_strlit("\t");
    }
    let parts = split_text(line, "\t");
    assert(parts.deep_view().len() > 0) by {
        reveal_with_fuel(split, 1);
    }
    let additions = parse_bounded(parts[0].as_str(), u64::MAX);
    let deletions = if parts.len() > 1 {
        parse_bounded(parts[1].as_str(), u64::MAX)
    } else {
        None
    };
    match (additions, deletions) {
        (Some(additions), Some(deletions)) => DiffTotals {
            additions,
            deletions,
            binary_files: 0,
        },
        _ => DiffTotals { additions: 0, deletions: 0, binary_files: 1 },
    }
}

pub fn parse_numstat_totals(output: &str) -> (r: DiffTotals)
    ensures
        r == numstat_totals(output@),
{
    let lines = nonblank_lines_of(output);
    let ghost all = lines.deep_view();
    let mut totals = DiffTotals { additions: 0, deletions: 0, binary_files: 0 };
    let mut i: usize = 0;
    assert(all.take(0) =~= Seq::empty());
    while i < lines.len()
        invariant
            i <= lines@.len(),
            all == lines.deep_view(),
            totals == numstat_sum(all.take(i as int)),
        decreases lines@.len() - i,
    {
        assert(all.take(i + 1).drop_last() =~= all.take(i as int));
        assert(all.take(i + 1).last() == lines@[i as int]@);
        totals = add_totals(totals, parse_numstat_line(lines[i].as_str()));
        i = i + 1;
    }
    assert(all.take(i as int) =~= all);
    totals
}

/// The totals as they are sent to the phone.
pub open spec fn totals_view(totals: DiffTotals) -> JsonView {
    JsonView::Object(
        map![
            "additions"@ => crate::json::number(totals.additions),
            "deletions"@ => crate::json::number(totals.deletions),
            "binaryFiles"@ => crate::json::number(totals.binary_files),
        ],
    )
}

pub fn totals_json(totals: DiffTotals) -> (r: Json)
    ensures
        r@ == totals_view(totals),
{
    let mut out = JsonObject::new();
    out.insert("additions", Json::unsigned(totals.additions));
    out.insert("deletions", Json::unsigned(totals.deletions));
    out.insert("binaryFiles", Json::unsigned(totals.binary_files));
    Json::object(out)
}

// Branches.

/// A line of `git branch`.
pub struct BranchLine {
    pub is_current: bool,
    pub is_checked_out_elsewhere: bool,
    pub name: Seq<char>,
}

pub open spec fn branch_line(line: Seq<char>) -> Option<BranchLine> {
    let t = trimmed(line);
    let name = trimmed(trim_start_by(trim_start_by(t, char_pred('*')), char_pred('+')));
    if t.len() == 0 || name.len() == 0 {
        None
    } else {
        Some(
            BranchLine {
                is_current: has_prefix(t, "* "@),
                is_checked_out_elsewhere: has_prefix(t, "+ "@),
                name,
            },
        )
    }
}

pub fn normalize_branch_list_entry(raw_line: &str) -> (r: Option<(bool, bool, String)>)
    ensures
        match r {
            Some((is_current, is_checked_out_elsewhere, name)) => branch_line(raw_line@) == Some(
                BranchLine { is_current, is_checked_out_elsewhere, name: name@ },
            ),
            None => branch_line(raw_line@) is None,
        },
{
    let t = trim(raw_line);
    if t.as_str().is_empty() {
        return None;
    }
    let is_current = starts_with(t.as_str(), "* ");
    let is_checked_out_elsewhere = starts_with(t.as_str(), "+ ");
    let name = trim(
        trim_start_char(trim_start_char(t.as_str(), '*').as_str(), '+').as_str(),
    );
    if name.as_str().is_empty() {
        return None;
    }
    Some((is_current, is_checked_out_elsewhere, name))
}

/// What `git branch` lists.
pub struct BranchList {
    pub current: Seq<char>,
    pub branches: Seq<Seq<char>>,
    pub elsewhere: Seq<Seq<char>>,
}

pub open spec fn push_new(s: Seq<Seq<char>>, x: Seq<char>) -> Seq<Seq<char>> {
    if s.contains(x) {
        s
    } else {
        s.push(x)
    }
}

pub open spec fn list_branch(list: BranchList, line: Seq<char>) -> BranchList {
    match branch_line(line) {
        None => list,
        Some(entry) => if contains(entry.name, "HEAD detached"@) || entry.name == "(no branch)"@ {
            if entry.is_current {
                BranchList { current: "HEAD"@, ..list }
            } else {
                list
            }
        } else {
            BranchList {
                current: if entry.is_current {
                    entry.name
                } else {
                    list.current
                },
                branches: push_new(list.branches, entry.name),
                elsewhere: if entry.is_checked_out_elsewhere {
                    push_new(list.elsewhere, entry.name)
                } else {
                    list.elsewhere
                },
            }
        },
    }
}

/// The branches on the lines of `git branch`, each once, in the order in which they are listed.
pub open spec fn list_branches(lines: Seq<Seq<char>>) -> BranchList
    decreases lines.len(),
{
    if lines.len() == 0 {
        BranchList { current: Seq::empty(), branches: Seq::empty(), elsewhere: Seq::empty() }
    } else {
        list_branch(list_branches(lines.drop_last()), lines.last())
    }
}

/// What `git branch` lists.
pub struct ListedBranches {
    pub current: String,
    pub branches: Vec<String>,
    pub elsewhere: Vec<String>,
}

impl ListedBranches {
    pub open spec fn view(&self) -> BranchList {
        BranchList {
            current: self.current@,
            branches: self.branches.deep_view(),
            elsewhere: self.elsewhere.deep_view(),
        }
    }
}

/// Adds a text that is not there yet.
fn add_new(texts: &mut Vec<String>, text: &String)
    ensures
        final(texts).deep_view() == push_new(old(texts).deep_view(), text@),
{
    let ghost before = texts.deep_view();
    if !has_text(texts, text.as_str()) {
        texts.push(text.clone());
        assert(texts.deep_view() =~= before.push(text@));
    }
}

pub fn parse_branch_list(output: &str) -> (r: ListedBranches)
    ensures
        r.view() == list_branches(lines(output@)),
{
    let lines = lines_of(output);
    let ghost all = lines.deep_view();
    let mut current = String::new();
    let mut branches: Vec<String> = Vec::new();
    let mut elsewhere: Vec<String> = Vec::new();
    let mut i: usize = 0;
    proof {
        assert(all.take(0) =~= Seq::empty());
        assert(branches.deep_view() =~= Seq::empty());
        assert(elsewhere.deep_view() =~= Seq::empty());
    }
    while i < lines.len()
        invariant
            i <= lines@.len(),
            all == lines.deep_view(),
            list_branches(all.take(i as int)) == (BranchList {
                current: current@,
                branches: branches.deep_view(),
                elsewhere: elsewhere.deep_view(),
            }),
        decreases lines@.len() - i,
    {
        assert(all.take(i + 1).drop_last() =~= all.take(i as int));
        assert(all.take(i + 1).last() == lines@[i as int]@);
        match normalize_branch_list_entry(lines[i].as_str()) {
            Some((is_current, is_checked_out_elsewhere, name)) => {
                if contains_text(name.as_str(), "HEAD detached") || text_eq(
                    name.as_str(),
                    "(no branch)",
                ) {
                    if is_current {
                        current = "HEAD".to_owned();
                    }
                } else {
                    add_new(&mut branches, &name);
                    if is_checked_out_elsewhere {
                        add_new(&mut elsewhere, &name);
                    }
                    if is_current {
                        current = name;
                    }
                }
            },
            None => {},
        }
        i = i + 1;
    }
    assert(all.take(i as int) =~= all);
    ListedBranches { current, branches, elsewhere }
}

/// The name of a branch with white space replaced by hyphens, segment by segment.
pub open spec fn hyphenated(name: Seq<char>) -> Seq<char> {
    join(split(name, "/"@).map_values(|segment: Seq<char>| join(words(segment), "-"@)), "/"@)
}

/// The name under which the bridge creates a branch: one in its own namespace, or none for a
/// blank name.
pub open spec fn created_branch_name(raw_name: Seq<char>) -> Seq<char> {
    if is_blank(raw_name) {
        Seq::empty()
    } else {
        let name = hyphenated(trimmed(raw_name));
        if has_prefix(name, "remodex/"@) {
            name
        } else {
            "remodex/"@ + name
        }
    }
}

pub fn normalize_created_branch_name(raw_name: &str) -> (r: String)
    ensures
        r@ == created_branch_name(raw_name@),
{
    proof {
        reveal_strlit("/");
    }
    let t = trim(raw_name);
    if t.as_str().is_empty() {
        return String::new();
    }
    let segments = split_text(t.as_str(), "/");
    let mut parts: Vec<String> = Vec::new();
    let mut i: usize = 0;
    while i < segments.len()
        invariant
            i <= segments@.len(),
            parts@.len() == i,
            forall|j: int|
                0 <= j < i ==> (#[trigger] parts@[j])@ == join(words(segments@[j]@), "-"@),
        decreases segments@.len() - i,
    {
        let found = words_of(segments[i].as_str());
        parts.push(join_texts(&found, "-"));
        i = i + 1;
    }
    assert(parts.deep_view() =~= split(trimmed(raw_name@), "/"@).map_values(
        |segment: Seq<char>| join(words(segment), "-"@),
    ));
    let name = join_texts(&parts, "/");
    if starts_with(name.as_str(), "remodex/") {
        name
    } else {
        concat2("remodex/", name.as_str())
    }
}

/// A name that the bridge made holds no white space, and it is one that it makes: normalizing twice
/// changes nothing.
pub proof fn law_branch_names_are_stable(raw_name: Seq<char>)
    ensures
        no_space(created_branch_name(raw_name)),
        created_branch_name(created_branch_name(raw_name)) == created_branch_name(raw_name),
{
    if is_blank(raw_name) {
        assert(trimmed(Seq::<char>::empty()).len() == 0);
    } else {
        reveal_strlit("remodex/");
        reveal_strlit("/");
        reveal_strlit("-");
        let prefix = "remodex/"@;
        let plain = hyphenated(trimmed(raw_name));
        let parts = split(trimmed(raw_name), "/"@).map_values(
            |segment: Seq<char>| join(words(segment), "-"@),
        );
        assert forall|i: int| 0 <= i < parts.len() implies no_space(#[trigger] parts[i]) by {
            lemma_joined_words(split(trimmed(raw_name), "/"@)[i], "-"@);
        }
        lemma_joined_parts(parts, "/"@);
        let name = created_branch_name(raw_name);
        assert(no_space(prefix));
        assert(no_space(name));
        assert(has_prefix(name, prefix)) by {
            if !has_prefix(plain, prefix) {
                assert((prefix + plain).take(prefix.len() as int) =~= prefix);
            }
        }
        lemma_no_space_trimmed(name);
        lemma_split_no_space(name, "/"@);
        let again = split(name, "/"@);
        let mapped = again.map_values(|segment: Seq<char>| join(words(segment), "-"@));
        assert forall|i: int| 0 <= i < again.len() implies mapped[i] == again[i] by {
            lemma_joined_words(again[i], "-"@);
        }
        assert(mapped =~= again);
        lemma_join_split(name, "/"@);
    }
}

/// The branch that a full reference names.
pub open spec fn branch_of_ref(reference: Seq<char>) -> Option<Seq<char>> {
    without_prefix(trimmed(reference), "refs/heads/"@)
}

pub fn normalize_worktree_branch_ref(raw_ref: &str) -> (r: Option<String>)
    ensures
        r.deep_view() == branch_of_ref(raw_ref@),
{
    let t = trim(raw_ref);
    strip_prefix(t.as_str(), "refs/heads/")
}

/// A record of `git worktree list --porcelain` as far as it was read: the path and the branch.
pub struct WorktreeRecord {
    pub path: Option<Seq<char>>,
    pub branch: Option<Seq<char>>,
}

pub open spec fn read_worktree_line(record: WorktreeRecord, line: Seq<char>) -> WorktreeRecord {
    let t = trimmed(line);
    WorktreeRecord {
        path: match without_prefix(t, "worktree "@) {
            Some(path) => Some(trimmed(path)),
            None => record.path,
        },
        branch: match without_prefix(t, "branch "@) {
            Some(branch) => branch_of_ref(trimmed(branch)),
            None => record.branch,
        },
    }
}

pub open spec fn read_worktree_lines(lines: Seq<Seq<char>>) -> WorktreeRecord
    decreases lines.len(),
{
    if lines.len() == 0 {
        WorktreeRecord { path: None, branch: None }
    } else {
        read_worktree_line(read_worktree_lines(lines.drop_last()), lines.last())
    }
}

/// The branch of a worktree and its path, where the record has both.
pub open spec fn worktree_of(record: Seq<char>) -> Option<(Seq<char>, Seq<char>)> {
    let read = read_worktree_lines(nonblank_lines(record));
    match (read.branch, read.path) {
        (Some(branch), Some(path)) => Some((branch, path)),
        _ => None,
    }
}

pub open spec fn worktrees_in(records: Seq<Seq<char>>) -> Seq<(Seq<char>, Seq<char>)>
    decreases records.len(),
{
    if records.len() == 0 {
        seq![]
    } else {
        let rest = worktrees_in(records.drop_last());
        match worktree_of(records.last()) {
            Some(worktree) => rest.push(worktree),
            None => rest,
        }
    }
}

/// The branches and paths in the output of `git worktree list --porcelain`, in order.
pub open spec fn worktrees(output: Seq<char>) -> Seq<(Seq<char>, Seq<char>)> {
    worktrees_in(split(output, "\n\n"@))
}

fn parse_worktree_record(record: &str) -> (r: Option<(String, String)>)
    ensures
        match r {
            Some((branch, path)) => worktree_of(record@) == Some((branch@, path@)),
            None => worktree_of(record@) is None,
        },
{
    let lines = nonblank_lines_of(record);
    let ghost all = lines.deep_view();
    let mut path: Option<String> = None;
    let mut branch: Option<String> = None;
    let mut i: usize = 0;
    assert(all.take(0) =~= Seq::empty());
    while i < lines.len()
        invariant
            i <= lines@.len(),
            all == lines.deep_view(),
            read_worktree_lines(all.take(i as int)) == (WorktreeRecord {
                path: path.deep_view(),
                branch: branch.deep_view(),
            }),
        decreases lines@.len() - i,
    {
        assert(all.take(i + 1).drop_last() =~= all.take(i as int));
        assert(all.take(i + 1).last() == lines@[i as int]@);
        let line = trim(lines[i].as_str());
        match strip_prefix(line.as_str(), "worktree ") {
            Some(rest) => {
                path = Some(trim(rest.as_str()));
            },
            None => {},
        }
        match strip_prefix(line.as_str(), "branch ") {
            Some(rest) => {
                branch = normalize_worktree_branch_ref(trim(rest.as_str()).as_str());
            },
            None => {},
        }
        i = i + 1;
    }
    assert(all.take(i as int) =~= all);
    match (branch, path) {
        (Some(branch), Some(path)) => Some((branch, path)),
        _ => None,
    }
}

/// Whether the pairs of texts are the given ones.
pub open spec fn pairs_view(pairs: Seq<(String, String)>) -> Seq<(Seq<char>, Seq<char>)> {
    pairs.map_values(|pair: (String, String)| (pair.0@, pair.1@))
}

pub fn parse_worktree_list(output: &str) -> (r: Vec<(String, String)>)
    ensures
        pairs_view(r@) == worktrees(output@),
{
    proof {
        reveal_strlit("\n\n");
    }
    let records = split_text(output, "\n\n");
    let ghost all = records.deep_view();
    let mut out: Vec<(String, String)> = Vec::new();
    let mut i: usize = 0;
    assert(all.take(0) =~= Seq::empty());
    assert(pairs_view(out@) =~= Seq::empty());
    while i < records.len()
        invariant
            i <= records@.len(),
            all == records.deep_view(),
            pairs_view(out@) == worktrees_in(all.take(i as int)),
        decreases records@.len() - i,
    {
        let ghost before = pairs_view(out@);
        assert(all.take(i + 1).drop_last() =~= all.take(i as int));
        assert(all.take(i + 1).last() == records@[i as int]@);
        match parse_worktree_record(records[i].as_str()) {
            Some((branch, path)) => {
                out.push((branch, path));
                assert(pairs_view(out@) =~= before.push((branch@, path@)));
            },
            None => {},
        }
        i = i + 1;
    }
    assert(all.take(i as int) =~= all);
    out
}

// Commits, stashes, remotes.

/// The branch and the hash in the first line that `git commit` prints.
pub open spec fn commit_header(line: Seq<char>) -> (Seq<char>, Seq<char>) {
    let t = trimmed(line);
    let parts = words(trim_end_by(trim_start_by(t, char_pred('[')), char_pred(']')));
    if !has_prefix(t, "["@) {
        (Seq::empty(), Seq::empty())
    } else {
        (
            if parts.len() > 0 {
                parts[0]
            } else {
                Seq::empty()
            },
            if parts.len() > 1 {
                parts[1]
            } else {
                Seq::empty()
            },
        )
    }
}

pub fn regex_like_commit_header(line: &str) -> (r: (String, String))
    ensures
        (r.0@, r.1@) == commit_header(line@),
{
    let t = trim(line);
    if !starts_with(t.as_str(), "[") {
        return (String::new(), String::new());
    }
    let inner = trim_end_char(trim_start_char(t.as_str(), '[').as_str(), ']');
    let parts = words_of(inner.as_str());
    let branch = if parts.len() > 0 { parts[0].clone() } else { String::new() };
    let hash = if parts.len() > 1 { parts[1].clone() } else { String::new() };
    (branch, hash)
}

pub open spec fn is_summary(line: Seq<char>) -> bool {
    contains(line, " files changed"@) || contains(line, " file changed"@)
}

/// The first line that sums up a commit.
pub open spec fn first_summary(lines: Seq<Seq<char>>) -> Option<Seq<char>>
    decreases lines.len(),
{
    if lines.len() == 0 {
        None
    } else if is_summary(lines[0]) {
        Some(lines[0])
    } else {
        first_summary(lines.skip(1))
    }
}

/// What `git commit` says of the commit: the line that sums it up, else the last line.
pub open spec fn commit_summary(output: Seq<char>) -> Seq<char> {
    let all = lines(output);
    match first_summary(all) {
        Some(line) => trimmed(line),
        None => if all.len() > 0 {
            trimmed(all.last())
        } else {
            trimmed(Seq::empty())
        },
    }
}

pub fn summarize_commit(output: &str) -> (r: String)
    ensures
        r@ == commit_summary(output@),
{
    let lines = lines_of(output);
    let ghost all = lines.deep_view();
    let mut i: usize = 0;
    assert(all.skip(0) =~= all);
    while i < lines.len()
        invariant
            i <= lines@.len(),
            all == lines.deep_view(),
            all == crate::text::lines(output@),
            first_summary(all) == first_summary(all.skip(i as int)),
        decreases lines@.len() - i,
    {
        assert(all.skip(i as int)[0] == lines@[i as int]@);
        assert(all.skip(i as int).skip(1) =~= all.skip(i + 1));
        if contains_text(lines[i].as_str(), " files changed") || contains_text(
            lines[i].as_str(),
            " file changed",
        ) {
            return trim(lines[i].as_str());
        }
        i = i + 1;
    }
    if lines.len() > 0 {
        trim(lines[lines.len() - 1].as_str())
    } else {
        trim(String::new().as_str())
    }
}

/// The stash that a line of `git stash list` is about, where its subject holds the label.
pub open spec fn stash_on_line(line: Seq<char>, label: Seq<char>) -> Option<Seq<char>> {
    let parts = split(trimmed(line), "\0"@);
    let reference = trimmed(parts[0]);
    let summary = if parts.len() > 1 {
        parts[1]
    } else {
        Seq::empty()
    };
    if reference.len() > 0 && contains(summary, label) {
        Some(reference)
    } else {
        None
    }
}

pub open spec fn first_stash(lines: Seq<Seq<char>>, label: Seq<char>) -> Option<Seq<char>>
    decreases lines.len(),
{
    if lines.len() == 0 {
        None
    } else {
        match stash_on_line(lines[0], label) {
            Some(reference) => Some(reference),
            None => first_stash(lines.skip(1), label),
        }
    }
}

/// The first stash in the output of `git stash list` whose subject holds the label.
pub open spec fn stash_ref(output: Seq<char>, label: Seq<char>) -> Option<Seq<char>> {
    first_stash(nonblank_lines(output), label)
}

pub fn find_stash_ref_by_label(output: &str, label: &str) -> (r: Option<String>)
    ensures
        r.deep_view() == stash_ref(output@, label@),
{
    proof {
        reveal_strlit("\0");
    }
    let lines = nonblank_lines_of(output);
    let ghost all = lines.deep_view();
    let mut i: usize = 0;
    assert(all.skip(0) =~= all);
    while i < lines.len()
        invariant
            i <= lines@.len(),
            all == lines.deep_view(),
            all == nonblank_lines(output@),
            "\0"@.len() > 0,
            first_stash(all, label@) == first_stash(all.skip(i as int), label@),
        decreases lines@.len() - i,
    {
        assert(all.skip(i as int)[0] == lines@[i as int]@);
        assert(all.skip(i as int).skip(1) =~= all.skip(i + 1));
        let record = trim(lines[i].as_str());
        let parts = split_text(record.as_str(), "\0");
        assert(parts.deep_view().len() > 0) by {
            reveal_with_fuel(split, 1);
        }
        let reference = trim(parts[0].as_str());
        let summary = if parts.len() > 1 { parts[1].clone() } else { String::new() };
        if !reference.as_str().is_empty() && contains_text(summary.as_str(), label) {
            return Some(reference);
        }
        i = i + 1;
    }
    None
}

/// The owner and the repository in the URL of a remote.
pub open spec fn owner_repo(remote_url: Seq<char>) -> Option<Seq<char>> {
    let url = trim_end_text(remote_url, ".git"@);
    match split_last(url, ':') {
        Some((_, rest)) => Some(rest),
        None => match split_last(url, '/') {
            Some((_, rest)) => Some(rest),
            None => None,
        },
    }
}

pub fn parse_owner_repo(remote_url: &str) -> (r: Option<String>)
    ensures
        r.deep_view() == owner_repo(remote_url@),
{
    proof {
        reveal_strlit(".git");
    }
    let url = trim_end_matches(remote_url, ".git");
    match after_last(url.as_str(), ':') {
        Some(rest) => Some(rest),
        None => after_last(url.as_str(), '/'),
    }
}

/// The text with a line end at its end.
pub open spec fn with_newline(s: Seq<char>) -> Seq<char> {
    if s.len() > 0 && s.last() == '\n' {
        s
    } else {
        s + "\n"@
    }
}

pub fn ensure_trailing_newline(value: &str) -> (r: String)
    ensures
        r@ == with_newline(value@),
{
    proof {
        reveal_strlit("\n");
    }
    if crate::text::ends_with(value, "\n") {
        proof {
            assert(value@.skip(value@.len() - 1)[0] == '\n');
        }
        value.to_owned()
    } else {
        proof {
            if value@.len() > 0 && value@.last() == '\n' {
                assert(value@.skip(value@.len() - 1) =~= "\n"@);
            }
        }
        concat2(value, "\n")
    }
}

/// What a git command that failed is reported as.
pub open spec fn git_failure(stdout: Seq<char>, stderr: Seq<char>) -> Seq<char> {
    if !is_blank(stderr) {
        trimmed(stderr)
    } else if !is_blank(stdout) {
        trimmed(stdout)
    } else {
        "git command failed"@
    }
}

pub fn git_failure_message(stdout: &str, stderr: &str) -> (r: String)
    ensures
        r@ == git_failure(stdout@, stderr@),
{
    if !blank(stderr) {
        trim(stderr)
    } else if !blank(stdout) {
        trim(stdout)
    } else {
        "git command failed".to_owned()
    }
}

/// What a git command that ended gives. With `lenient`, the exit code 1 is a success too.
pub open spec fn git_outcome(
    success: bool,
    code_is_one: bool,
    lenient: bool,
    stdout: Seq<char>,
    stderr: Seq<char>,
) -> Result<Seq<char>, Seq<char>> {
    if success || (lenient && code_is_one) {
        Ok(stdout)
    } else if lenient {
        Err(trimmed(stderr))
    } else {
        Err(git_failure(stdout, stderr))
    }
}

/// The reply to a git command that ended.
pub fn git_reply(
    success: bool,
    code_is_one: bool,
    lenient: bool,
    stdout: String,
    stderr: &str,
) -> (r: Result<String, String>)
    ensures
        reply_of(r) == git_outcome(success, code_is_one, lenient, stdout@, stderr@),
{
    if success || (lenient && code_is_one) {
        Ok(stdout)
    } else if lenient {
        Err(trim(stderr))
    } else {
        Err(git_failure_message(stdout.as_str(), stderr))
    }
}

/// The reply to a command whose success counts: a digit, and what it printed.
pub open spec fn status_text(success: bool, stdout: Seq<char>, stderr: Seq<char>) -> Seq<char> {
    if success {
        "0"@ + stdout + stderr
    } else {
        "1"@ + stdout + stderr
    }
}

pub fn status_reply(success: bool, stdout: &str, stderr: &str) -> (r: String)
    ensures
        r@ == status_text(success, stdout@, stderr@),
{
    concat3(if success { "0" } else { "1" }, stdout, stderr)
}

/// What such a reply says is what was put into it.
pub proof fn law_status_reply_is_read_back(success: bool, stdout: Seq<char>, stderr: Seq<char>)
    ensures
        has_prefix(status_text(success, stdout, stderr), "0"@) == success,
        skip_chars(status_text(success, stdout, stderr), 1) == stdout + stderr,
{
    reveal_strlit("0");
    reveal_strlit("1");
    let text = status_text(success, stdout, stderr);
    assert(text.take(1)[0] == if success { '0' } else { '1' });
    if success {
        assert(text.take(1) =~= "0"@);
    } else {
        assert("0"@[0] == '0');
    }
    assert(text.skip(1) =~= stdout + stderr);
}

// What holds of every list of branches.

/// Whether each text comes before the next.
pub open spec fn ascending(s: Seq<Seq<char>>) -> bool {
    forall|i: int, j: int| 0 <= i < j < s.len() ==> text_lt(#[trigger] s[i], #[trigger] s[j])
}

proof fn lemma_push_new(s: Seq<Seq<char>>, x: Seq<char>)
    requires
        s.no_duplicates(),
    ensures
        push_new(s, x).no_duplicates(),
        forall|y: Seq<char>| #[trigger]
            push_new(s, x).contains(y) <==> s.contains(y) || y == x,
{
    assert forall|y: Seq<char>| #[trigger] push_new(s, x).contains(y) <==> s.contains(y) || y
        == x by {
        if s.contains(y) {
            let i = choose|i: int| 0 <= i < s.len() && s[i] == y;
            assert(push_new(s, x)[i] == y);
        }
        if y == x && !s.contains(x) {
            assert(push_new(s, x)[s.len() as int] == y);
        }
    }
}

proof fn lemma_list_branches(lines: Seq<Seq<char>>)
    ensures
        ({
            let list = list_branches(lines);
            &&& list.branches.no_duplicates()
            &&& list.elsewhere.no_duplicates()
            &&& forall|name: Seq<char>| #[trigger]
                list.elsewhere.contains(name) ==> list.branches.contains(name)
            &&& forall|name: Seq<char>| #[trigger]
                list.branches.contains(name) ==> name.len() > 0 && name != "(no branch)"@
                    && !contains(name, "HEAD detached"@)
            &&& list.current.len() == 0 || list.current == "HEAD"@ || list.branches.contains(
                list.current,
            )
        }),
    decreases lines.len(),
{
    if lines.len() > 0 {
        lemma_list_branches(lines.drop_last());
        let before = list_branches(lines.drop_last());
        if let Some(entry) = branch_line(lines.last()) {
            lemma_push_new(before.branches, entry.name);
            lemma_push_new(before.elsewhere, entry.name);
            assert(push_new(before.branches, entry.name).contains(entry.name));
            assert(before.branches.contains(before.current) ==> push_new(
                before.branches,
                entry.name,
            ).contains(before.current));
        }
    }
}

proof fn lemma_sorted_ascends(s: Seq<Seq<char>>)
    requires
        s.no_duplicates(),
    ensures
        ascending(sorted(s)),
        forall|x: Seq<char>| #[trigger] sorted(s).contains(x) <==> s.contains(x),
{
    broadcast use vstd::seq_lib::group_to_multiset_ensures;

    lemma_sorted_keeps(s);
    let t = sorted(s);
    assert forall|i: int, j: int| 0 <= i < j < t.len() implies text_lt(
        #[trigger] t[i],
        #[trigger] t[j],
    ) by {
        lemma_lt_total(t[i], t[j]);
    }
    assert forall|x: Seq<char>| #[trigger] t.contains(x) <==> s.contains(x) by {
        assert(t.contains(x) <==> t.to_multiset().count(x) > 0);
        assert(s.contains(x) <==> s.to_multiset().count(x) > 0);
    }
}

/// Branches are listed in order and each once, those that are checked out elsewhere among them. A
/// detached head is none of them; the current branch is one of them, `HEAD` or not known.
pub proof fn law_branches_are_listed_once(lines: Seq<Seq<char>>)
    ensures
        ({
            let list = list_branches(lines);
            let branches = sorted(list.branches);
            let elsewhere = sorted(list.elsewhere);
            &&& ascending(branches)
            &&& ascending(elsewhere)
            &&& forall|name: Seq<char>| #[trigger]
                elsewhere.contains(name) ==> branches.contains(name)
            &&& forall|name: Seq<char>| #[trigger]
                branches.contains(name) ==> name.len() > 0 && name != "(no branch)"@ && !contains(
                    name,
                    "HEAD detached"@,
                )
            &&& list.current.len() == 0 || list.current == "HEAD"@ || branches.contains(
                list.current,
            )
        }),
{
    lemma_list_branches(lines);
    let list = list_branches(lines);
    lemma_sorted_ascends(list.branches);
    lemma_sorted_ascends(list.elsewhere);
    assert forall|name: Seq<char>| #[trigger]
        sorted(list.elsewhere).contains(name) implies sorted(list.branches).contains(name) by {
        assert(list.elsewhere.contains(name));
    }
    assert forall|name: Seq<char>| #[trigger]
        sorted(list.branches).contains(name) implies name.len() > 0 && name != "(no branch)"@
        && !contains(name, "HEAD detached"@) by {
        assert(list.branches.contains(name));
    }
    assert(sorted(list.branches).contains(list.current) <==> list.branches.contains(list.current));
}

} // verus!
