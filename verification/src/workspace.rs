//! The workspace requests of the phone: looking at a patch, and taking it back.
use vstd::prelude::*;

use crate::git_handler::{git_status, requested_cwd, status, Answer, RequestStep};
use crate::git_text::push_new;
use crate::json::{text_array, Json, JsonObject, JsonView};
use crate::path::{components, join_path, path_join, same_path};
use crate::script::{
    args2, ask, bind, git, json_result, ran, replies_of, text_result, try_bind, Action,
    ActionView, Reply, Run, Script,
};
use crate::text::{
    blank, chars_from, concat2, concat3, has_prefix, has_text, is_blank, is_sorted, join,
    join_texts, lines, lines_of, nonblank_lines, nonblank_lines_of, skip_chars,
    sort_texts, sorted, split, split_text, starts_with, strip_prefix, text_eq, trim, trim_end,
    trim_non_blank, trimmed, trimmed_end, trimmed_lines, trimmed_lines_of, without_prefix, words,
    words_of,
};

verus! {

// Reading a patch.

/// The path that a line of a patch names, without the side that it is on.
pub open spec fn diff_path(raw_path: Seq<char>) -> Option<Seq<char>> {
    let path = trimmed(raw_path);
    if path.len() == 0 {
        None
    } else if has_prefix(path, "a/"@) || has_prefix(path, "b/"@) {
        Some(skip_chars(path, 2))
    } else {
        Some(path)
    }
}

pub fn normalize_diff_path(raw_path: &str) -> (r: Option<String>)
    ensures
        r.deep_view() == diff_path(raw_path@),
{
    let path = trim(raw_path);
    if path.as_str().is_empty() {
        None
    } else if starts_with(path.as_str(), "a/") || starts_with(path.as_str(), "b/") {
        Some(chars_from(path.as_str(), 2))
    } else {
        Some(path)
    }
}

/// Whether a line names the file that the patch makes, unless it deletes one.
pub open spec fn names_new_file(line: Seq<char>) -> bool {
    has_prefix(line, "+++ "@) && diff_path(skip_chars(line, 4)) != Some("/dev/null"@)
}

/// What the first line that names the new file says.
pub open spec fn new_file_path(lines: Seq<Seq<char>>) -> Option<Option<Seq<char>>>
    decreases lines.len(),
{
    if lines.len() == 0 {
        None
    } else if names_new_file(lines[0]) {
        Some(diff_path(skip_chars(lines[0], 4)))
    } else {
        new_file_path(lines.skip(1))
    }
}

pub open spec fn names_both_files(line: Seq<char>) -> bool {
    has_prefix(line, "diff --git "@) && words(line).len() >= 4
}

/// The file that the header of a patch names.
pub open spec fn header_path(lines: Seq<Seq<char>>) -> Option<Seq<char>>
    decreases lines.len(),
{
    if lines.len() == 0 {
        None
    } else if names_both_files(lines[0]) {
        diff_path(words(lines[0])[3])
    } else {
        header_path(lines.skip(1))
    }
}

/// The file that a patch is about.
pub open spec fn patch_path(lines: Seq<Seq<char>>) -> Option<Seq<char>> {
    match new_file_path(lines) {
        Some(path) => path,
        None => header_path(lines),
    }
}

pub fn extract_patch_path(lines: &Vec<String>) -> (r: Option<String>)
    ensures
        r.deep_view() == patch_path(lines.deep_view()),
{
    let ghost all = lines.deep_view();
    proof {
        reveal_strlit("+++ ");
        reveal_strlit("/dev/null");
        assert(all.skip(0) =~= all);
    }
    let mut i: usize = 0;
    while i < lines.len()
        invariant
            i <= lines@.len(),
            all == lines.deep_view(),
            "+++ "@.len() == 4,
            new_file_path(all) == new_file_path(all.skip(i as int)),
        decreases lines@.len() - i,
    {
        assert(all.skip(i as int)[0] == lines@[i as int]@);
        assert(all.skip(i as int).skip(1) =~= all.skip(i + 1));
        if starts_with(lines[i].as_str(), "+++ ") {
            let path = normalize_diff_path(chars_from(lines[i].as_str(), 4).as_str());
            let deleted = match &path {
                Some(path) => text_eq(path.as_str(), "/dev/null"),
                None => false,
            };
            if !deleted {
                return path;
            }
        }
        i = i + 1;
    }
    assert(new_file_path(all) is None);
    i = 0;
    while i < lines.len()
        invariant
            i <= lines@.len(),
            all == lines.deep_view(),
            new_file_path(all) is None,
            header_path(all) == header_path(all.skip(i as int)),
        decreases lines@.len() - i,
    {
        assert(all.skip(i as int)[0] == lines@[i as int]@);
        assert(all.skip(i as int).skip(1) =~= all.skip(i + 1));
        if starts_with(lines[i].as_str(), "diff --git ") {
            let found = words_of(lines[i].as_str());
            if found.len() >= 4 {
                return normalize_diff_path(found[3].as_str());
            }
        }
        i = i + 1;
    }
    None
}

/// Whether a line starts with the text.
pub open spec fn some_starts(lines: Seq<Seq<char>>, prefix: Seq<char>) -> bool {
    exists|i: int| 0 <= i < lines.len() && has_prefix(#[trigger] lines[i], prefix)
}

fn any_starts(lines: &Vec<String>, prefix: &str) -> (r: bool)
    ensures
        r == some_starts(lines.deep_view(), prefix@),
{
    let mut i: usize = 0;
    while i < lines.len()
        invariant
            i <= lines@.len(),
            forall|j: int| 0 <= j < i ==> !has_prefix((#[trigger] lines@[j])@, prefix@),
        decreases lines@.len() - i,
    {
        if starts_with(lines[i].as_str(), prefix) {
            assert(has_prefix(lines.deep_view()[i as int], prefix@));
            return true;
        }
        i = i + 1;
    }
    false
}

/// Whether a line starts with the first text and not with the second.
pub open spec fn some_starts_but(
    lines: Seq<Seq<char>>,
    prefix: Seq<char>,
    longer: Seq<char>,
) -> bool {
    exists|i: int|
        0 <= i < lines.len() && has_prefix(#[trigger] lines[i], prefix) && !has_prefix(
            lines[i],
            longer,
        )
}

fn any_starts_but(lines: &Vec<String>, prefix: &str, longer: &str) -> (r: bool)
    ensures
        r == some_starts_but(lines.deep_view(), prefix@, longer@),
{
    let mut i: usize = 0;
    while i < lines.len()
        invariant
            i <= lines@.len(),
            forall|j: int|
                0 <= j < i ==> !(has_prefix((#[trigger] lines@[j])@, prefix@) && !has_prefix(
                    lines@[j]@,
                    longer@,
                )),
        decreases lines@.len() - i,
    {
        if starts_with(lines[i].as_str(), prefix) && !starts_with(lines[i].as_str(), longer) {
            assert(has_prefix(lines.deep_view()[i as int], prefix@));
            return true;
        }
        i = i + 1;
    }
    false
}

/// Whether a patch of one file changes bytes that are no text.
pub open spec fn is_binary_chunk(lines: Seq<Seq<char>>) -> bool {
    some_starts(lines, "Binary files "@) || lines.contains("GIT binary patch"@)
}

/// Whether a patch of one file does more than change lines.
pub open spec fn is_rename_chunk(lines: Seq<Seq<char>>) -> bool {
    some_starts(lines, "rename from "@) || some_starts(lines, "rename to "@) || some_starts(
        lines,
        "copy from "@,
    ) || some_starts(lines, "copy to "@) || some_starts(lines, "old mode "@) || some_starts(
        lines,
        "new mode "@,
    ) || some_starts(lines, "similarity index "@) || some_starts(lines, "new file mode 120"@)
        || some_starts(lines, "deleted file mode 120"@)
}

/// Whether a patch of one file adds or deletes a line, or a whole file.
pub open spec fn changes_lines(lines: Seq<Seq<char>>) -> bool {
    some_starts_but(lines, "+"@, "+++"@) || some_starts_but(lines, "-"@, "---"@) || lines.contains(
        "--- /dev/null"@,
    ) || lines.contains("+++ /dev/null"@)
}

/// Why a patch of one file cannot be taken back.
pub open spec fn chunk_reasons(lines: Seq<Seq<char>>) -> Seq<Seq<char>> {
    let binary = is_binary_chunk(lines);
    let rename = is_rename_chunk(lines);
    (if binary {
        seq!["Binary changes are not auto-revertable in v1."@]
    } else {
        seq![]
    }) + (if rename {
        seq!["Rename, mode-only, or symlink changes are not auto-revertable in v1."@]
    } else {
        seq![]
    }) + (if patch_path(lines) is None || (!changes_lines(lines) && !binary && !rename) {
        seq!["No exact patch was captured."@]
    } else {
        seq![]
    })
}

/// A patch of one file.
pub struct PatchChunkAnalysis {
    pub path: Option<String>,
    pub unsupported_reasons: Vec<String>,
}

pub fn analyze_patch_chunk(lines: &Vec<String>) -> (r: PatchChunkAnalysis)
    ensures
        r.path.deep_view() == patch_path(lines.deep_view()),
        r.unsupported_reasons.deep_view() == chunk_reasons(lines.deep_view()),
{
    let path = extract_patch_path(lines);
    let binary = any_starts(lines, "Binary files ") || has_text(lines, "GIT binary patch");
    let rename = any_starts(lines, "rename from ") || any_starts(lines, "rename to ")
        || any_starts(lines, "copy from ") || any_starts(lines, "copy to ") || any_starts(
        lines,
        "old mode ",
    ) || any_starts(lines, "new mode ") || any_starts(lines, "similarity index ") || any_starts(
        lines,
        "new file mode 120",
    ) || any_starts(lines, "deleted file mode 120");
    let changes = any_starts_but(lines, "+", "+++") || any_starts_but(lines, "-", "---")
        || has_text(lines, "--- /dev/null") || has_text(lines, "+++ /dev/null");
    let mut reasons: Vec<String> = Vec::new();
    if binary {
        reasons.push("Binary changes are not auto-revertable in v1.".to_owned());
    }
    if rename {
        reasons.push(
            "Rename, mode-only, or symlink changes are not auto-revertable in v1.".to_owned(),
        );
    }
    if path.is_none() || (!changes && !binary && !rename) {
        reasons.push("No exact patch was captured.".to_owned());
    }
    assert(reasons.deep_view() =~= chunk_reasons(lines.deep_view()));
    PatchChunkAnalysis { path, unsupported_reasons: reasons }
}

/// The lines of a patch, file by file: a new one starts at each header.
pub open spec fn patch_chunks(lines: Seq<Seq<char>>) -> Seq<Seq<Seq<char>>>
    decreases lines.len(),
{
    if lines.len() == 0 {
        seq![]
    } else {
        let before = patch_chunks(lines.drop_last());
        if before.len() == 0 || has_prefix(lines.last(), "diff --git "@) {
            before.push(seq![lines.last()])
        } else {
            before.drop_last().push(before.last().push(lines.last()))
        }
    }
}

pub open spec fn chunks_view(chunks: Seq<Vec<String>>) -> Seq<Seq<Seq<char>>> {
    chunks.map_values(|chunk: Vec<String>| chunk.deep_view())
}

fn split_chunks(lines: &Vec<String>) -> (r: Vec<Vec<String>>)
    ensures
        chunks_view(r@) == patch_chunks(lines.deep_view()),
{
    let ghost all = lines.deep_view();
    let mut chunks: Vec<Vec<String>> = Vec::new();
    let mut i: usize = 0;
    assert(all.take(0) =~= Seq::empty());
    assert(chunks_view(chunks@) =~= Seq::empty());
    while i < lines.len()
        invariant
            i <= lines@.len(),
            all == lines.deep_view(),
            chunks_view(chunks@) == patch_chunks(all.take(i as int)),
        decreases lines@.len() - i,
    {
        let ghost before = chunks_view(chunks@);
        assert(all.take(i + 1).drop_last() =~= all.take(i as int));
        assert(all.take(i + 1).last() == lines@[i as int]@);
        let line = lines[i].clone();
        if chunks.len() == 0 || starts_with(lines[i].as_str(), "diff --git ") {
            let mut chunk: Vec<String> = Vec::new();
            chunk.push(line);
            assert(chunk.deep_view() =~= seq![line@]);
            chunks.push(chunk);
            assert(chunks_view(chunks@) =~= before.push(seq![line@]));
        } else {
            match chunks.pop() {
                Some(last) => {
                    let mut last = last;
                    let ghost held = last.deep_view();
                    assert(held == before.last());
                    last.push(line);
                    assert(last.deep_view() =~= held.push(line@));
                    chunks.push(last);
                    assert(chunks_view(chunks@) =~= before.drop_last().push(held.push(line@)));
                },
                None => {},
            }
        }
        i = i + 1;
    }
    assert(all.take(i as int) =~= all);
    chunks
}

/// Adds every text that is not there yet.
pub open spec fn push_all_new(s: Seq<Seq<char>>, more: Seq<Seq<char>>) -> Seq<Seq<char>>
    decreases more.len(),
{
    if more.len() == 0 {
        s
    } else {
        push_new(push_all_new(s, more.drop_last()), more.last())
    }
}

/// The files of the chunks, each once.
pub open spec fn chunk_files(chunks: Seq<Seq<Seq<char>>>) -> Seq<Seq<char>>
    decreases chunks.len(),
{
    if chunks.len() == 0 {
        seq![]
    } else {
        match patch_path(chunks.last()) {
            Some(path) => push_new(chunk_files(chunks.drop_last()), path),
            None => chunk_files(chunks.drop_last()),
        }
    }
}

/// The reasons of the chunks, each once.
pub open spec fn all_reasons(chunks: Seq<Seq<Seq<char>>>) -> Seq<Seq<char>>
    decreases chunks.len(),
{
    if chunks.len() == 0 {
        seq![]
    } else {
        push_all_new(all_reasons(chunks.drop_last()), chunk_reasons(chunks.last()))
    }
}

/// What a patch is about.
pub struct PatchView {
    pub affected_files: Seq<Seq<char>>,
    pub unsupported_reasons: Seq<Seq<char>>,
}

/// The files of a patch and why it cannot be taken back, in order and each once.
pub open spec fn patch_analysis(raw_patch: Seq<char>) -> PatchView {
    let patch = trimmed(raw_patch);
    if patch.len() == 0 {
        PatchView {
            affected_files: seq![],
            unsupported_reasons: seq!["No exact patch was captured."@],
        }
    } else {
        let chunks = patch_chunks(lines(patch));
        let files = chunk_files(chunks);
        PatchView {
            affected_files: sorted(files),
            unsupported_reasons: sorted(
                if files.len() == 0 {
                    push_new(all_reasons(chunks), "No exact patch was captured."@)
                } else {
                    all_reasons(chunks)
                },
            ),
        }
    }
}

/// What a patch is about.
pub struct PatchAnalysis {
    pub affected_files: Vec<String>,
    pub unsupported_reasons: Vec<String>,
}

impl PatchAnalysis {
    pub open spec fn view(&self) -> PatchView {
        PatchView {
            affected_files: self.affected_files.deep_view(),
            unsupported_reasons: self.unsupported_reasons.deep_view(),
        }
    }
}

fn add_text(texts: &mut Vec<String>, text: String)
    ensures
        final(texts).deep_view() == push_new(old(texts).deep_view(), text@),
{
    let ghost before = texts.deep_view();
    if !has_text(texts, text.as_str()) {
        texts.push(text);
        assert(texts.deep_view() =~= before.push(text@));
    }
}

fn add_texts(texts: &mut Vec<String>, more: &Vec<String>)
    ensures
        final(texts).deep_view() == push_all_new(old(texts).deep_view(), more.deep_view()),
{
    let ghost start = texts.deep_view();
    let ghost all = more.deep_view();
    let mut i: usize = 0;
    assert(all.take(0) =~= Seq::empty());
    while i < more.len()
        invariant
            i <= more@.len(),
            all == more.deep_view(),
            texts.deep_view() == push_all_new(start, all.take(i as int)),
        decreases more@.len() - i,
    {
        assert(all.take(i + 1).drop_last() =~= all.take(i as int));
        assert(all.take(i + 1).last() == more@[i as int]@);
        add_text(texts, more[i].clone());
        i = i + 1;
    }
    assert(all.take(i as int) =~= all);
}

pub fn analyze_unified_patch(raw_patch: &str) -> (r: PatchAnalysis)
    ensures
        r.view() == patch_analysis(raw_patch@),
{
    let patch = trim(raw_patch);
    let mut files: Vec<String> = Vec::new();
    let mut reasons: Vec<String> = Vec::new();
    assert(files.deep_view() =~= Seq::empty());
    assert(reasons.deep_view() =~= Seq::empty());
    if patch.as_str().is_empty() {
        reasons.push("No exact patch was captured.".to_owned());
        assert(reasons.deep_view() =~= seq!["No exact patch was captured."@]);
        return PatchAnalysis { affected_files: files, unsupported_reasons: reasons };
    }
    let lines = lines_of(patch.as_str());
    let chunks = split_chunks(&lines);
    let ghost all = chunks_view(chunks@);
    let mut i: usize = 0;
    assert(all.take(0) =~= Seq::empty());
    while i < chunks.len()
        invariant
            i <= chunks@.len(),
            all == chunks_view(chunks@),
            files.deep_view() == chunk_files(all.take(i as int)),
            reasons.deep_view() == all_reasons(all.take(i as int)),
        decreases chunks@.len() - i,
    {
        assert(all.take(i + 1).drop_last() =~= all.take(i as int));
        assert(all.take(i + 1).last() == chunks@[i as int].deep_view());
        let chunk = analyze_patch_chunk(&chunks[i]);
        match chunk.path {
            Some(path) => {
                add_text(&mut files, path);
            },
            None => {},
        }
        add_texts(&mut reasons, &chunk.unsupported_reasons);
        i = i + 1;
    }
    assert(all.take(i as int) =~= all);
    if files.len() == 0 {
        add_text(&mut reasons, "No exact patch was captured.".to_owned());
    }
    PatchAnalysis {
        affected_files: sort_texts(files),
        unsupported_reasons: sort_texts(reasons),
    }
}

// Reading what `git apply` says.

/// The file that a line of `git apply` is about.
pub open spec fn conflict_path(line: Seq<char>) -> Seq<char> {
    match without_prefix(line, "error: patch failed: "@) {
        Some(rest) => split(rest, ":"@)[0],
        None => match without_prefix(line, "error: "@) {
            Some(rest) => split(rest, ": patch does not apply"@)[0],
            None => "unknown"@,
        },
    }
}

pub open spec fn conflict_view(path: Seq<char>, message: Seq<char>) -> JsonView {
    JsonView::Object(
        map!["path"@ => JsonView::Text(path), "message"@ => JsonView::Text(message)],
    )
}

/// Whether a file is among the conflicts.
pub open spec fn has_conflict(conflicts: Seq<(Seq<char>, Seq<char>)>, path: Seq<char>) -> bool {
    exists|i: int| 0 <= i < conflicts.len() && (#[trigger] conflicts[i]).0 == path
}

/// The conflicts on the lines, the first of each file.
pub open spec fn line_conflicts(lines: Seq<Seq<char>>) -> Seq<(Seq<char>, Seq<char>)>
    decreases lines.len(),
{
    if lines.len() == 0 {
        seq![]
    } else {
        let before = line_conflicts(lines.drop_last());
        let line = trimmed(lines.last());
        if has_conflict(before, conflict_path(line)) {
            before
        } else {
            before.push((conflict_path(line), line))
        }
    }
}

/// The conflicts that `git apply` reports.
pub open spec fn apply_conflicts(output: Seq<char>) -> Seq<(Seq<char>, Seq<char>)> {
    let found = line_conflicts(nonblank_lines(output));
    if found.len() == 0 && !is_blank(output) {
        seq![("unknown"@, join(words(output), " "@))]
    } else {
        found
    }
}

pub open spec fn conflicts_view(conflicts: Seq<(Seq<char>, Seq<char>)>) -> Seq<JsonView> {
    conflicts.map_values(|c: (Seq<char>, Seq<char>)| conflict_view(c.0, c.1))
}

fn read_conflict_path(line: &str) -> (r: String)
    ensures
        r@ == conflict_path(line@),
{
    proof {
        reveal_strlit(":");
        reveal_strlit(": patch does not apply");
    }
    match strip_prefix(line, "error: patch failed: ") {
        Some(rest) => {
            let parts = split_text(rest.as_str(), ":");
            assert(parts.deep_view().len() > 0) by {
                reveal_with_fuel(split, 1);
            }
            parts[0].clone()
        },
        None => match strip_prefix(line, "error: ") {
            Some(rest) => {
                let parts = split_text(rest.as_str(), ": patch does not apply");
                assert(parts.deep_view().len() > 0) by {
                    reveal_with_fuel(split, 1);
                }
                parts[0].clone()
            },
            None => "unknown".to_owned(),
        },
    }
}

pub open spec fn pair_texts(pairs: Seq<(String, String)>) -> Seq<(Seq<char>, Seq<char>)> {
    pairs.map_values(|pair: (String, String)| (pair.0@, pair.1@))
}

fn knows_conflict(conflicts: &Vec<(String, String)>, path: &str) -> (r: bool)
    ensures
        r == has_conflict(pair_texts(conflicts@), path@),
{
    let mut i: usize = 0;
    while i < conflicts.len()
        invariant
            i <= conflicts@.len(),
            forall|j: int| 0 <= j < i ==> (#[trigger] conflicts@[j]).0@ != path@,
        decreases conflicts@.len() - i,
    {
        if text_eq(conflicts[i].0.as_str(), path) {
            assert(pair_texts(conflicts@)[i as int].0 == path@);
            return true;
        }
        i = i + 1;
    }
    assert forall|j: int| 0 <= j < conflicts@.len() implies (#[trigger] pair_texts(
        conflicts@,
    )[j]).0 != path@ by {
        assert(conflicts@[j].0@ != path@);
    }
    false
}

pub fn parse_apply_conflicts(output: &str) -> (r: Vec<Json>)
    ensures
        r.deep_view() == conflicts_view(apply_conflicts(output@)),
{
    let lines = nonblank_lines_of(output);
    let ghost all = lines.deep_view();
    let mut found: Vec<(String, String)> = Vec::new();
    let mut i: usize = 0;
    assert(all.take(0) =~= Seq::empty());
    assert(pair_texts(found@) =~= Seq::empty());
    while i < lines.len()
        invariant
            i <= lines@.len(),
            all == lines.deep_view(),
            pair_texts(found@) == line_conflicts(all.take(i as int)),
        decreases lines@.len() - i,
    {
        let ghost before = pair_texts(found@);
        assert(all.take(i + 1).drop_last() =~= all.take(i as int));
        assert(all.take(i + 1).last() == lines@[i as int]@);
        let line = trim(lines[i].as_str());
        let path = read_conflict_path(line.as_str());
        if !knows_conflict(&found, path.as_str()) {
            found.push((path, line));
            assert(pair_texts(found@) =~= before.push((path@, line@)));
        }
        i = i + 1;
    }
    assert(all.take(i as int) =~= all);
    if found.len() == 0 && !blank(output) {
        let message = join_texts(&words_of(output), " ");
        found.push(("unknown".to_owned(), message));
        assert(pair_texts(found@) =~= seq![("unknown"@, message@)]);
    }
    let mut out: Vec<Json> = Vec::new();
    let mut k: usize = 0;
    while k < found.len()
        invariant
            k <= found@.len(),
            out@.len() == k,
            forall|j: int|
                0 <= j < k ==> (#[trigger] out@[j])@ == conflict_view(
                    found@[j].0@,
                    found@[j].1@,
                ),
        decreases found@.len() - k,
    {
        let mut conflict = JsonObject::new();
        conflict.insert("path", Json::text(found[k].0.as_str()));
        conflict.insert("message", Json::text(found[k].1.as_str()));
        out.push(Json::object(conflict));
        k = k + 1;
    }
    assert(out.deep_view() =~= conflicts_view(pair_texts(found@)));
    out
}

// The requests.

/// The patch that a request is about.
pub open spec fn forward_patch(params: JsonView) -> Result<Seq<char>, Seq<char>> {
    match params.get_str("forwardPatch"@) {
        Some(patch) => if is_blank(trimmed_end(patch)) {
            Err("The request must include a non-empty forwardPatch."@)
        } else {
            Ok(trimmed_end(patch) + "\n"@)
        },
        None => Err("The request must include a non-empty forwardPatch."@),
    }
}

pub fn resolve_forward_patch(params: &Json) -> (r: Result<String, String>)
    ensures
        crate::script::reply_of(r) == forward_patch(params@),
{
    match params.get_str("forwardPatch") {
        Some(patch) => {
            let patch = trim_end(patch);
            if !blank(patch.as_str()) {
                return Ok(concat2(patch.as_str(), "\n"));
            }
        },
        None => {},
    }
    Err("The request must include a non-empty forwardPatch.".to_owned())
}

/// The files of a patch that are staged.
pub open spec fn staged_files(root: Seq<char>, files: Seq<Seq<char>>, rest: Seq<Reply>) -> Run<
    Result<Seq<Seq<char>>, Seq<char>>,
> {
    if files.len() == 0 {
        Run::Got(Ok(seq![]), rest)
    } else {
        try_bind(
            git(root, seq!["diff"@, "--name-only"@, "--cached"@, "--"@] + files, rest),
            |output: Seq<char>, rest: Seq<Reply>|
                Run::Got(Ok(sorted(trimmed_lines(output))), rest),
        )
    }
}

fn find_staged_targeted_files(root: &str, files: &Vec<String>, script: &mut Script) -> (r: Option<
    Result<Vec<String>, String>,
>)
    requires
        old(script).wf(),
    ensures
        final(script).wf(),
        ran(
            staged_files(root@, files.deep_view(), old(script)@.rest),
            match r {
                Some(Ok(found)) => Some(Ok(found.deep_view())),
                Some(Err(error)) => Some(Err(error@)),
                None => None,
            },
            final(script)@,
        ),
{
    if files.len() == 0 {
        let none: Vec<String> = Vec::new();
        assert(none.deep_view() =~= seq![]);
        return Some(Ok(none));
    }
    let mut args: Vec<String> = vec![
        "diff".to_owned(),
        "--name-only".to_owned(),
        "--cached".to_owned(),
        "--".to_owned(),
    ];
    let mut i: usize = 0;
    while i < files.len()
        invariant
            i <= files@.len(),
            args@.len() == 4 + i,
            args@[0]@ == "diff"@,
            args@[1]@ == "--name-only"@,
            args@[2]@ == "--cached"@,
            args@[3]@ == "--"@,
            forall|j: int| 4 <= j < 4 + i ==> (#[trigger] args@[j])@ == files@[j - 4]@,
        decreases files@.len() - i,
    {
        args.push(files[i].clone());
        i = i + 1;
    }
    assert(args.deep_view() =~= seq!["diff"@, "--name-only"@, "--cached"@, "--"@]
        + files.deep_view());
    match script.git(root, args) {
        Some(Ok(output)) => Some(Ok(sort_texts(trimmed_lines_of(output.as_str())))),
        Some(Err(error)) => Some(Err(error)),
        None => None,
    }
}

/// A patch was handed to `git apply`: whether it fits, and what git printed.
pub open spec fn applied(root: Seq<char>, check: bool, patch: Seq<char>, rest: Seq<Reply>) -> Run<
    Result<(bool, Seq<char>), Seq<char>>,
> {
    try_bind(
        ask(ActionView::TempDir, rest),
        |directory: Seq<char>, rest: Seq<Reply>|
            try_bind(
                ask(ActionView::FreshToken, rest),
                |token: Seq<char>, rest: Seq<Reply>|
                    {
                        let file = path_join(directory, "remodex-revert-"@ + token + ".patch"@);
                        try_bind(
                            ask(ActionView::WriteFile { path: file, contents: patch }, rest),
                            |written: Seq<char>, rest: Seq<Reply>|
                                try_bind(
                                    ask(
                                        ActionView::GitApply {
                                            cwd: root,
                                            args: if check {
                                                seq!["apply"@, "--reverse"@, "--check"@, file]
                                            } else {
                                                seq!["apply"@, "--reverse"@, file]
                                            },
                                        },
                                        rest,
                                    ),
                                    |output: Seq<char>, rest: Seq<Reply>|
                                        bind(
                                            ask(ActionView::RemoveFile(file), rest),
                                            |removed: Reply, rest: Seq<Reply>|
                                                Run::Got(
                                                    Ok(
                                                        (
                                                            has_prefix(output, "0"@),
                                                            skip_chars(output, 1),
                                                        ),
                                                    ),
                                                    rest,
                                                ),
                                        ),
                                ),
                        )
                    },
            ),
    )
}

fn run_git_apply(root: &str, check: bool, patch: &str, script: &mut Script) -> (r: Option<
    Result<(bool, String), String>,
>)
    requires
        old(script).wf(),
    ensures
        final(script).wf(),
        ran(
            applied(root@, check, patch@, old(script)@.rest),
            match r {
                Some(Ok((fits, output))) => Some(Ok((fits, output@))),
                Some(Err(error)) => Some(Err(error@)),
                None => None,
            },
            final(script)@,
        ),
{
    let directory = match script.ask(Action::TempDir) {
        Some(Ok(directory)) => directory,
        Some(Err(error)) => {
            return Some(Err(error));
        },
        None => {
            return None;
        },
    };
    let file = match script.ask(Action::FreshToken) {
        Some(Ok(token)) => join_path(
            directory.as_str(),
            concat3("remodex-revert-", token.as_str(), ".patch").as_str(),
        ),
        Some(Err(error)) => {
            return Some(Err(error));
        },
        None => {
            return None;
        },
    };
    match script.ask(Action::WriteFile { path: file.clone(), contents: patch.to_owned() }) {
        Some(Ok(_)) => {},
        Some(Err(error)) => {
            return Some(Err(error));
        },
        None => {
            return None;
        },
    }
    let args = if check {
        crate::script::args4("apply", "--reverse", "--check", file.as_str())
    } else {
        crate::script::args3("apply", "--reverse", file.as_str())
    };
    let output = match script.ask(Action::GitApply { cwd: root.to_owned(), args }) {
        Some(Ok(output)) => output,
        Some(Err(error)) => {
            return Some(Err(error));
        },
        None => {
            return None;
        },
    };
    match script.ask(Action::RemoveFile(file)) {
        Some(_) => Some(
            Ok((starts_with(output.as_str(), "0"), chars_from(output.as_str(), 1))),
        ),
        None => None,
    }
}

/// What can be said of taking a patch back.
pub struct PreviewView {
    pub can_revert: bool,
    pub affected_files: Seq<Seq<char>>,
    pub conflicts: Seq<JsonView>,
    pub unsupported_reasons: Seq<Seq<char>>,
    pub staged_files: Seq<Seq<char>>,
}

impl PreviewView {
    pub open spec fn json(self) -> JsonView {
        JsonView::Object(
            map![
                "canRevert"@ => JsonView::Bool(self.can_revert),
                "affectedFiles"@ => text_array(self.affected_files),
                "conflicts"@ => JsonView::Array(self.conflicts),
                "unsupportedReasons"@ => text_array(self.unsupported_reasons),
                "stagedFiles"@ => text_array(self.staged_files),
            ],
        )
    }
}

/// Whether a patch can be taken back. It is tried out only where nothing else speaks against it.
pub open spec fn preview(root: Seq<char>, params: JsonView, rest: Seq<Reply>) -> Run<
    Result<PreviewView, Seq<char>>,
> {
    match forward_patch(params) {
        Err(error) => Run::Got(Err(error), rest),
        Ok(patch) => {
            let analysis = patch_analysis(patch);
            try_bind(
                staged_files(root, analysis.affected_files, rest),
                |staged: Seq<Seq<char>>, rest: Seq<Reply>|
                    if analysis.unsupported_reasons.len() > 0 || staged.len() > 0 {
                        Run::Got(
                            Ok(
                                PreviewView {
                                    can_revert: false,
                                    affected_files: analysis.affected_files,
                                    conflicts: seq![],
                                    unsupported_reasons: analysis.unsupported_reasons,
                                    staged_files: staged,
                                },
                            ),
                            rest,
                        )
                    } else {
                        try_bind(
                            applied(root, true, patch, rest),
                            |check: (bool, Seq<char>), rest: Seq<Reply>|
                                Run::Got(
                                    Ok(
                                        PreviewView {
                                            can_revert: check.0,
                                            affected_files: analysis.affected_files,
                                            conflicts: if check.0 {
                                                seq![]
                                            } else {
                                                conflicts_view(apply_conflicts(check.1))
                                            },
                                            unsupported_reasons: seq![],
                                            staged_files: staged,
                                        },
                                    ),
                                    rest,
                                ),
                        )
                    },
            )
        },
    }
}

struct Preview {
    can_revert: bool,
    affected_files: Vec<String>,
    conflicts: Vec<Json>,
    unsupported_reasons: Vec<String>,
    staged_files: Vec<String>,
}

impl Preview {
    spec fn view(&self) -> PreviewView {
        PreviewView {
            can_revert: self.can_revert,
            affected_files: self.affected_files.deep_view(),
            conflicts: self.conflicts.deep_view(),
            unsupported_reasons: self.unsupported_reasons.deep_view(),
            staged_files: self.staged_files.deep_view(),
        }
    }
}

fn workspace_revert_patch_preview(root: &str, params: &Json, script: &mut Script) -> (r: Option<
    Result<Preview, String>,
>)
    requires
        old(script).wf(),
    ensures
        final(script).wf(),
        ran(
            preview(root@, params@, old(script)@.rest),
            match r {
                Some(Ok(found)) => Some(Ok(found.view())),
                Some(Err(error)) => Some(Err(error@)),
                None => None,
            },
            final(script)@,
        ),
{
    let patch = match resolve_forward_patch(params) {
        Ok(patch) => patch,
        Err(error) => {
            return Some(Err(error));
        },
    };
    let analysis = analyze_unified_patch(patch.as_str());
    let staged = match find_staged_targeted_files(root, &analysis.affected_files, script) {
        Some(Ok(staged)) => staged,
        Some(Err(error)) => {
            return Some(Err(error));
        },
        None => {
            return None;
        },
    };
    let mut conflicts: Vec<Json> = Vec::new();
    assert(conflicts.deep_view() =~= seq![]);
    if analysis.unsupported_reasons.len() > 0 || staged.len() > 0 {
        return Some(
            Ok(
                Preview {
                    can_revert: false,
                    affected_files: analysis.affected_files,
                    conflicts,
                    unsupported_reasons: analysis.unsupported_reasons,
                    staged_files: staged,
                },
            ),
        );
    }
    let fits = match run_git_apply(root, true, patch.as_str(), script) {
        Some(Ok((fits, output))) => {
            if !fits {
                conflicts = parse_apply_conflicts(output.as_str());
            }
            fits
        },
        Some(Err(error)) => {
            return Some(Err(error));
        },
        None => {
            return None;
        },
    };
    let unsupported_reasons: Vec<String> = Vec::new();
    assert(unsupported_reasons.deep_view() =~= seq![]);
    Some(
        Ok(
            Preview {
                can_revert: fits,
                affected_files: analysis.affected_files,
                conflicts,
                unsupported_reasons,
                staged_files: staged,
            },
        ),
    )
}

/// What became of taking a patch back.
pub open spec fn revert_view(
    success: bool,
    files: Seq<Seq<char>>,
    conflicts: Seq<JsonView>,
    reasons: Seq<Seq<char>>,
    staged: Seq<Seq<char>>,
) -> Map<Seq<char>, JsonView> {
    map![
        "success"@ => JsonView::Bool(success),
        "revertedFiles"@ => text_array(files),
        "conflicts"@ => JsonView::Array(conflicts),
        "unsupportedReasons"@ => text_array(reasons),
        "stagedFiles"@ => text_array(staged),
    ]
}

fn revert_object(
    success: bool,
    files: &Vec<String>,
    conflicts: Vec<Json>,
    reasons: &Vec<String>,
    staged: &Vec<String>,
) -> (r: JsonObject)
    ensures
        r.view() == revert_view(
            success,
            files.deep_view(),
            conflicts.deep_view(),
            reasons.deep_view(),
            staged.deep_view(),
        ),
{
    let mut out = JsonObject::new();
    out.insert("success", Json::Bool(success));
    out.insert("revertedFiles", Json::texts(files));
    out.insert("conflicts", Json::array(conflicts));
    out.insert("unsupportedReasons", Json::texts(reasons));
    out.insert("stagedFiles", Json::texts(staged));
    out
}

/// The answer with the status of the repository, where git tells it.
pub open spec fn with_status(
    root: Seq<char>,
    members: Map<Seq<char>, JsonView>,
    rest: Seq<Reply>,
) -> Run<Answer> {
    bind(
        status(root, rest),
        |found: Answer, rest: Seq<Reply>|
            Run::Got(
                Ok(
                    JsonView::Object(
                        members.insert(
                            "status"@,
                            match found {
                                Ok(status) => status,
                                Err(_) => JsonView::Null,
                            },
                        ),
                    ),
                ),
                rest,
            ),
    )
}

/// Takes a patch back, where that can be done, while no other request changes the repository.
pub open spec fn revert(root: Seq<char>, params: JsonView, rest: Seq<Reply>) -> Run<Answer> {
    try_bind(
        ask(ActionView::LockRepo(root), rest),
        |locked: Seq<char>, rest: Seq<Reply>|
            try_bind(
                preview(root, params, rest),
                |found: PreviewView, rest: Seq<Reply>|
                    if !found.can_revert {
                        Run::Got(
                            Ok(
                                JsonView::Object(
                                    revert_view(
                                        false,
                                        seq![],
                                        found.conflicts,
                                        found.unsupported_reasons,
                                        found.staged_files,
                                    ),
                                ),
                            ),
                            rest,
                        )
                    } else {
                        try_bind(
                            applied(root, false, forward_patch(params)->Ok_0, rest),
                            |done: (bool, Seq<char>), rest: Seq<Reply>|
                                with_status(
                                    root,
                                    if done.0 {
                                        revert_view(
                                            true,
                                            found.affected_files,
                                            seq![],
                                            seq![],
                                            seq![],
                                        )
                                    } else {
                                        revert_view(
                                            false,
                                            seq![],
                                            conflicts_view(apply_conflicts(done.1)),
                                            seq![],
                                            seq![],
                                        )
                                    },
                                    rest,
                                ),
                        )
                    },
            ),
    )
}

fn workspace_revert_patch_apply(root: &str, params: &Json, script: &mut Script) -> (r: Option<
    Result<Json, String>,
>)
    requires
        old(script).wf(),
    ensures
        final(script).wf(),
        ran(revert(root@, params@, old(script)@.rest), json_result(r), final(script)@),
{
    match script.ask(Action::LockRepo(root.to_owned())) {
        Some(Ok(_)) => {},
        Some(Err(error)) => {
            return Some(Err(error));
        },
        None => {
            return None;
        },
    }
    let found = match workspace_revert_patch_preview(root, params, script) {
        Some(Ok(found)) => found,
        Some(Err(error)) => {
            return Some(Err(error));
        },
        None => {
            return None;
        },
    };
    let no_texts: Vec<String> = Vec::new();
    let no_conflicts: Vec<Json> = Vec::new();
    assert(no_texts.deep_view() =~= seq![]);
    assert(no_conflicts.deep_view() =~= seq![]);
    if !found.can_revert {
        return Some(
            Ok(
                Json::object(
                    revert_object(
                        false,
                        &no_texts,
                        found.conflicts,
                        &found.unsupported_reasons,
                        &found.staged_files,
                    ),
                ),
            ),
        );
    }
    let patch = match resolve_forward_patch(params) {
        Ok(patch) => patch,
        Err(error) => {
            return Some(Err(error));
        },
    };
    let mut out = match run_git_apply(root, false, patch.as_str(), script) {
        Some(Ok((true, _))) => revert_object(
            true,
            &found.affected_files,
            no_conflicts,
            &no_texts,
            &no_texts,
        ),
        Some(Ok((false, output))) => revert_object(
            false,
            &no_texts,
            parse_apply_conflicts(output.as_str()),
            &no_texts,
            &no_texts,
        ),
        Some(Err(error)) => {
            return Some(Err(error));
        },
        None => {
            return None;
        },
    };
    match git_status(root, script) {
        Some(Ok(status)) => {
            out.insert("status", status);
        },
        Some(Err(_)) => {
            out.insert("status", Json::Null);
        },
        None => {
            return None;
        },
    }
    Some(Ok(Json::object(out)))
}

/// The directory that a request is about.
pub open spec fn workspace_cwd(params: JsonView, rest: Seq<Reply>) -> Run<Reply> {
    match requested_cwd(params) {
        None => Run::Got(
            Err("Workspace actions require a bound local working directory."@),
            rest,
        ),
        Some(path) => bind(
            ask(ActionView::IsDir(path), rest),
            |reply: Reply, rest: Seq<Reply>|
                Run::Got(
                    match reply {
                        Ok(_) => Ok(path),
                        Err(_) => Err(
                            "The requested local working directory does not exist on this Mac."@,
                        ),
                    },
                    rest,
                ),
        ),
    }
}

fn resolve_workspace_cwd(params: &Json, script: &mut Script) -> (r: Option<Result<String, String>>)
    requires
        old(script).wf(),
    ensures
        final(script).wf(),
        ran(workspace_cwd(params@, old(script)@.rest), text_result(r), final(script)@),
{
    let requested = match params.get_str("cwd") {
        Some(path) => trim_non_blank(path),
        None => match params.get_str("currentWorkingDirectory") {
            Some(path) => trim_non_blank(path),
            None => None,
        },
    };
    match requested {
        Some(path) => match script.ask(Action::IsDir(path.clone())) {
            Some(Ok(_)) => Some(Ok(path)),
            Some(Err(_)) => Some(
                Err(
                    "The requested local working directory does not exist on this Mac.".to_owned(),
                ),
            ),
            None => None,
        },
        None => Some(
            Err("Workspace actions require a bound local working directory.".to_owned()),
        ),
    }
}

/// The root of the repository around a directory.
pub open spec fn workspace_root(cwd: Seq<char>, rest: Seq<Reply>) -> Run<Reply> {
    try_bind(
        git(cwd, seq!["rev-parse"@, "--show-toplevel"@], rest),
        |output: Seq<char>, rest: Seq<Reply>|
            Run::Got(
                if is_blank(output) {
                    Err("The selected local folder is not inside a Git repository."@)
                } else {
                    Ok(trimmed(output))
                },
                rest,
            ),
    )
}

fn resolve_repo_root(cwd: &str, script: &mut Script) -> (r: Option<Result<String, String>>)
    requires
        old(script).wf(),
    ensures
        final(script).wf(),
        ran(workspace_root(cwd@, old(script)@.rest), text_result(r), final(script)@),
{
    match script.git(cwd, args2("rev-parse", "--show-toplevel")) {
        Some(Ok(output)) => match trim_non_blank(output.as_str()) {
            Some(root) => Some(Ok(root)),
            None => Some(
                Err("The selected local folder is not inside a Git repository.".to_owned()),
            ),
        },
        Some(Err(error)) => Some(Err(error)),
        None => None,
    }
}

/// What each workspace method does.
pub open spec fn workspace_method(
    method: Seq<char>,
    root: Seq<char>,
    params: JsonView,
    rest: Seq<Reply>,
) -> Run<Answer> {
    if method == "workspace/revertPatchPreview"@ {
        try_bind(
            preview(root, params, rest),
            |found: PreviewView, rest: Seq<Reply>| Run::Got(Ok(found.json()), rest),
        )
    } else if method == "workspace/revertPatchApply"@ {
        revert(root, params, rest)
    } else {
        Run::Got(Err("Unknown workspace method: "@ + method), rest)
    }
}

/// A workspace request: nothing where the method is not one of the workspace.
pub open spec fn workspace_request(method: Seq<char>, params: JsonView, rest: Seq<Reply>) -> Run<
    Option<Answer>,
> {
    if !has_prefix(method, "workspace/"@) {
        Run::Got(None, rest)
    } else {
        bind(
            try_bind(
                workspace_cwd(params, rest),
                |cwd: Seq<char>, rest: Seq<Reply>|
                    try_bind(
                        workspace_root(cwd, rest),
                        |root: Seq<char>, rest: Seq<Reply>|
                            workspace_method(method, root, params, rest),
                    ),
            ),
            |answer: Answer, rest: Seq<Reply>| Run::Got(Some(answer), rest),
        )
    }
}

fn run_workspace_method(method: &str, params: &Json, script: &mut Script) -> (r: Option<
    Result<Json, String>,
>)
    requires
        old(script).wf(),
    ensures
        final(script).wf(),
        ran(
            try_bind(
                workspace_cwd(params@, old(script)@.rest),
                |cwd: Seq<char>, rest: Seq<Reply>|
                    try_bind(
                        workspace_root(cwd, rest),
                        |root: Seq<char>, rest: Seq<Reply>|
                            workspace_method(method@, root, params@, rest),
                    ),
            ),
            json_result(r),
            final(script)@,
        ),
{
    let cwd = match resolve_workspace_cwd(params, script) {
        Some(Ok(cwd)) => cwd,
        Some(Err(error)) => {
            return Some(Err(error));
        },
        None => {
            return None;
        },
    };
    let root = match resolve_repo_root(cwd.as_str(), script) {
        Some(Ok(root)) => root,
        Some(Err(error)) => {
            return Some(Err(error));
        },
        None => {
            return None;
        },
    };
    if text_eq(method, "workspace/revertPatchPreview") {
        match workspace_revert_patch_preview(root.as_str(), params, script) {
            Some(Ok(found)) => {
                let mut out = JsonObject::new();
                out.insert("canRevert", Json::Bool(found.can_revert));
                out.insert("affectedFiles", Json::texts(&found.affected_files));
                out.insert("conflicts", Json::array(found.conflicts));
                out.insert("unsupportedReasons", Json::texts(&found.unsupported_reasons));
                out.insert("stagedFiles", Json::texts(&found.staged_files));
                Some(Ok(Json::object(out)))
            },
            Some(Err(error)) => Some(Err(error)),
            None => None,
        }
    } else if text_eq(method, "workspace/revertPatchApply") {
        workspace_revert_patch_apply(root.as_str(), params, script)
    } else {
        Some(Err(concat2("Unknown workspace method: ", method)))
    }
}

/// Runs a workspace request as far as the replies reach.
pub fn handle_workspace_request(
    method: &str,
    params: &Json,
    replies: Vec<Result<String, String>>,
) -> (r: RequestStep)
    ensures
        r.is_step_of(workspace_request(method@, params@, replies_of(replies@))),
{
    if !starts_with(method, "workspace/") {
        return RequestStep::Done(None);
    }
    let mut script = Script::new(replies);
    match run_workspace_method(method, params, &mut script) {
        Some(answer) => RequestStep::Done(Some(answer)),
        None => match script.into_asked() {
            Some(action) => RequestStep::Ask(action),
            None => RequestStep::Done(None),
        },
    }
}

// Locks.

/// The repositories that are being changed.
#[derive(Debug)]
pub struct RepoLocks {
    held: Vec<String>,
}

/// What the paths are made of.
spec fn held_components(held: Seq<String>) -> Seq<Seq<Seq<char>>> {
    held.map_values(|root: String| components(root@))
}

impl RepoLocks {
    /// The repositories that are being changed, by what their paths are made of.
    pub closed spec fn view(&self) -> Set<Seq<Seq<char>>> {
        held_components(self.held@).to_set()
    }

    pub fn new() -> (r: RepoLocks)
        ensures
            r.view() == Set::<Seq<Seq<char>>>::empty(),
    {
        let r = RepoLocks { held: Vec::new() };
        assert(r.view() =~= Set::empty());
        r
    }

    /// Takes the lock of a repository, unless it is taken.
    pub fn acquire(&mut self, root: &str) -> (r: Result<(), String>)
        ensures
            final(self).view() == old(self).view().insert(components(root@)),
            match r {
                Ok(_) => !old(self).view().contains(components(root@)),
                Err(error) => old(self).view().contains(components(root@)) && error@
                    == "Another workspace mutation is already running for this repository."@,
            },
    {
        let ghost before = held_components(self.held@);
        let mut i: usize = 0;
        while i < self.held.len()
            invariant
                i <= self.held@.len(),
                *self == *old(self),
                before == held_components(self.held@),
                forall|j: int| 0 <= j < i ==> #[trigger] before[j] != components(root@),
            decreases self.held@.len() - i,
        {
            if same_path(self.held[i].as_str(), root) {
                assert(before[i as int] == components(root@));
                assert(self.view() =~= old(self).view().insert(components(root@)));
                return Err(
                    "Another workspace mutation is already running for this repository.".to_owned(),
                );
            }
            i = i + 1;
        }
        self.held.push(root.to_owned());
        proof {
            assert(held_components(self.held@) =~= before.push(components(root@)));
            assert forall|x: Seq<Seq<char>>|
                self.view().contains(x) == old(self).view().insert(components(root@)).contains(
                    x,
                ) by {
                lemma_pushed(before, components(root@), x);
            }
            assert(self.view() =~= old(self).view().insert(components(root@)));
        }
        Ok(())
    }

    /// Gives the lock of a repository back.
    pub fn release(&mut self, root: &str)
        ensures
            final(self).view() == old(self).view().remove(components(root@)),
    {
        let ghost all = held_components(self.held@);
        let mut kept: Vec<String> = Vec::new();
        let mut i: usize = 0;
        while i < self.held.len()
            invariant
                i <= self.held@.len(),
                held_components(self.held@) == all,
                forall|x: Seq<Seq<char>>| #[trigger]
                    held_components(kept@).contains(x) <==> x != components(root@) && all.take(
                        i as int,
                    ).contains(x),
            decreases self.held@.len() - i,
        {
            let ghost before = held_components(kept@);
            let ghost item = components(self.held@[i as int]@);
            assert(all.take(i + 1) =~= all.take(i as int).push(item));
            if !same_path(self.held[i].as_str(), root) {
                kept.push(self.held[i].clone());
                assert(held_components(kept@) =~= before.push(item));
            }
            assert forall|x: Seq<Seq<char>>| #[trigger]
                held_components(kept@).contains(x) <==> x != components(root@) && all.take(
                    i + 1,
                ).contains(x) by {
                lemma_pushed(before, item, x);
                lemma_pushed(all.take(i as int), item, x);
            }
            i = i + 1;
        }
        assert(all.take(i as int) =~= all);
        self.held = kept;
        assert(self.view() =~= old(self).view().remove(components(root@)));
    }
}

proof fn lemma_pushed<T>(s: Seq<T>, item: T, x: T)
    ensures
        s.push(item).contains(x) <==> s.contains(x) || x == item,
{
    if s.contains(x) {
        let i = choose|i: int| 0 <= i < s.len() && s[i] == x;
        assert(s.push(item)[i] == x);
    }
    if x == item {
        assert(s.push(item)[s.len() as int] == x);
    }
}

// What holds of every patch and request.

proof fn lemma_push_new_distinct(s: Seq<Seq<char>>, x: Seq<char>)
    requires
        s.no_duplicates(),
    ensures
        push_new(s, x).no_duplicates(),
        push_new(s, x).contains(x),
        forall|y: Seq<char>| s.contains(y) ==> push_new(s, x).contains(y),
{
    assert forall|y: Seq<char>| s.contains(y) implies push_new(s, x).contains(y) by {
        lemma_pushed(s, x, y);
    }
    lemma_pushed(s, x, x);
}

proof fn lemma_chunk_files_distinct(chunks: Seq<Seq<Seq<char>>>)
    ensures
        chunk_files(chunks).no_duplicates(),
    decreases chunks.len(),
{
    if chunks.len() > 0 {
        lemma_chunk_files_distinct(chunks.drop_last());
        match patch_path(chunks.last()) {
            Some(path) => {
                lemma_push_new_distinct(chunk_files(chunks.drop_last()), path);
            },
            None => {},
        }
    }
}

proof fn lemma_all_new_distinct(s: Seq<Seq<char>>, more: Seq<Seq<char>>)
    requires
        s.no_duplicates(),
    ensures
        push_all_new(s, more).no_duplicates(),
    decreases more.len(),
{
    if more.len() > 0 {
        lemma_all_new_distinct(s, more.drop_last());
        lemma_push_new_distinct(push_all_new(s, more.drop_last()), more.last());
    }
}

proof fn lemma_reasons_distinct(chunks: Seq<Seq<Seq<char>>>)
    ensures
        all_reasons(chunks).no_duplicates(),
    decreases chunks.len(),
{
    if chunks.len() > 0 {
        lemma_reasons_distinct(chunks.drop_last());
        lemma_all_new_distinct(
            all_reasons(chunks.drop_last()),
            chunk_reasons(chunks.last()),
        );
    }
}

/// The reasons why a patch cannot be taken back are listed in order and each once.
pub proof fn law_reasons_are_listed_once(raw_patch: Seq<char>)
    ensures
        is_sorted(patch_analysis(raw_patch).unsupported_reasons),
        patch_analysis(raw_patch).unsupported_reasons.no_duplicates(),
{
    let patch = trimmed(raw_patch);
    if patch.len() > 0 {
        let chunks = patch_chunks(lines(patch));
        lemma_reasons_distinct(chunks);
        lemma_push_new_distinct(all_reasons(chunks), "No exact patch was captured."@);
        crate::text::lemma_sorted_keeps(all_reasons(chunks));
        crate::text::lemma_sorted_keeps(
            push_new(all_reasons(chunks), "No exact patch was captured."@),
        );
    }
}

/// The files of a patch are listed in order and each once.
pub proof fn law_files_are_listed_once(raw_patch: Seq<char>)
    ensures
        is_sorted(patch_analysis(raw_patch).affected_files),
        patch_analysis(raw_patch).affected_files.no_duplicates(),
{
    let patch = trimmed(raw_patch);
    if patch.len() > 0 {
        let files = chunk_files(patch_chunks(lines(patch)));
        lemma_chunk_files_distinct(patch_chunks(lines(patch)));
        crate::text::lemma_sorted_keeps(files);
    }
}

/// A patch that names no file is never taken back.
pub proof fn law_no_file_no_revert(raw_patch: Seq<char>)
    ensures
        patch_analysis(raw_patch).affected_files.len() == 0 ==> patch_analysis(
            raw_patch,
        ).unsupported_reasons.len() > 0,
{
    let patch = trimmed(raw_patch);
    if patch.len() > 0 {
        let chunks = patch_chunks(lines(patch));
        let files = chunk_files(chunks);
        crate::text::lemma_sorted_keeps(files);
        if files.len() == 0 {
            let reasons = push_new(all_reasons(chunks), "No exact patch was captured."@);
            if !all_reasons(chunks).contains("No exact patch was captured."@) {
                assert(reasons.len() > 0);
            }
            crate::text::lemma_sorted_keeps(reasons);
        }
    }
}

/// A patch whose preview speaks against it changes nothing: git is not asked to apply it.
pub proof fn law_refused_patch_is_not_applied(
    root: Seq<char>,
    params: JsonView,
    rest: Seq<Reply>,
    found: PreviewView,
    left: Seq<Reply>,
)
    requires
        rest.len() > 0,
        rest[0] is Ok,
        preview(root, params, rest.skip(1)) == Run::Got(
            Ok::<PreviewView, Seq<char>>(found),
            left,
        ),
        !found.can_revert,
    ensures
        revert(root, params, rest) matches Run::Got(answer, after) && (after == left
            && answer is Ok && answer->Ok_0.get_bool("success"@) == Some(false)),
{
    reveal_strlit("success");
    reveal_strlit("revertedFiles");
    reveal_strlit("conflicts");
    reveal_strlit("unsupportedReasons");
    reveal_strlit("stagedFiles");
    assert("success"@ != "revertedFiles"@ && "success"@ != "conflicts"@ && "success"@
        != "unsupportedReasons"@ && "success"@ != "stagedFiles"@) by {
        assert("success"@.len() == 7);
    }
}

} // verus!
