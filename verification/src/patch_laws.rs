//! What it means to take a patch back.
//!
//! The laws here speak of the lines of a patch, of the replies of git, and of what is asked of git
//! next.
use vstd::prelude::*;

use crate::git_handler::{requested_cwd, status, Answer};
use crate::git_text::push_new;
use crate::json::{text_array, JsonView};
use crate::path::path_join;
use crate::script::{ActionView, Reply, Run};
use crate::text::{
    has_prefix, is_blank, join, lemma_sorted_keeps, lines, nonblank_lines, sorted, split,
    trimmed, trimmed_end, trimmed_lines, words,
};
use crate::workspace::{
    all_reasons, applied, apply_conflicts, chunk_files, chunk_reasons, conflict_path,
    conflicts_view, diff_path, forward_patch, header_path, line_conflicts, new_file_path,
    patch_analysis, patch_chunks, patch_path, preview, push_all_new, revert, staged_files,
    workspace_method, workspace_request, PreviewView,
};

verus! {

// The lines of a patch.

/// All lines of chunks, one behind the other.
pub open spec fn all_lines(chunks: Seq<Seq<Seq<char>>>) -> Seq<Seq<char>>
    decreases chunks.len(),
{
    if chunks.len() == 0 {
        Seq::empty()
    } else {
        all_lines(chunks.drop_last()) + chunks.last()
    }
}

/// A patch is cut into chunks at its headers: no line is lost, every chunk but the first starts
/// with a header, and no header stands inside a chunk.
pub proof fn law_patch_is_cut_at_its_headers(lines: Seq<Seq<char>>)
    ensures
        all_lines(patch_chunks(lines)) == lines,
        lines.len() > 0 ==> patch_chunks(lines).len() > 0,
        forall|i: int|
            0 <= i < patch_chunks(lines).len() ==> (#[trigger] patch_chunks(lines)[i]).len() > 0,
        forall|i: int|
            1 <= i < patch_chunks(lines).len() ==> has_prefix(
                (#[trigger] patch_chunks(lines)[i])[0],
                "diff --git "@,
            ),
        forall|i: int, j: int|
            0 <= i < patch_chunks(lines).len() && 1 <= j < patch_chunks(lines)[i].len()
                ==> !has_prefix(#[trigger] patch_chunks(lines)[i][j], "diff --git "@),
    decreases lines.len(),
{
    if lines.len() > 0 {
        let rest = lines.drop_last();
        law_patch_is_cut_at_its_headers(rest);
        let before = patch_chunks(rest);
        let chunks = patch_chunks(lines);
        assert(lines =~= rest.push(lines.last()));
        if before.len() == 0 || has_prefix(lines.last(), "diff --git "@) {
            assert(chunks.drop_last() =~= before);
            assert(all_lines(chunks) =~= lines);
        } else {
            assert(chunks.drop_last() =~= before.drop_last());
            assert(all_lines(chunks) =~= all_lines(before).push(lines.last()));
            assert forall|i: int, j: int|
                0 <= i < chunks.len() && 1 <= j < chunks[i].len() implies !has_prefix(
                #[trigger] chunks[i][j],
                "diff --git "@,
            ) by {
                if i < chunks.len() - 1 {
                    assert(chunks[i] == before[i]);
                } else if j < before.last().len() {
                    assert(before[i][j] == chunks[i][j]);
                }
            }
            assert forall|i: int| 1 <= i < chunks.len() implies has_prefix(
                (#[trigger] chunks[i])[0],
                "diff --git "@,
            ) by {
                assert(before[i][0] == chunks[i][0]);
            }
        }
    }
}

/// A path is among the files of a patch exactly if one of its chunks is about it.
pub proof fn law_every_file_of_a_patch_is_listed(raw_patch: Seq<char>, path: Seq<char>)
    requires
        !is_blank(raw_patch),
    ensures
        patch_analysis(raw_patch).affected_files.contains(path) <==> exists|i: int|
            0 <= i < patch_chunks(lines(trimmed(raw_patch))).len() && patch_path(
                #[trigger] patch_chunks(lines(trimmed(raw_patch)))[i],
            ) == Some(path),
{
    let chunks = patch_chunks(lines(trimmed(raw_patch)));
    lemma_chunk_files(chunks, path);
    lemma_sorted_contains(chunk_files(chunks), path);
}

proof fn lemma_sorted_contains(s: Seq<Seq<char>>, x: Seq<char>)
    ensures
        sorted(s).contains(x) <==> s.contains(x),
{
    broadcast use vstd::seq_lib::group_to_multiset_ensures;

    lemma_sorted_keeps(s);
    assert(sorted(s).contains(x) <==> sorted(s).to_multiset().count(x) > 0);
    assert(s.contains(x) <==> s.to_multiset().count(x) > 0);
}

proof fn lemma_push_new(s: Seq<Seq<char>>, x: Seq<char>, y: Seq<char>)
    ensures
        push_new(s, x).contains(y) <==> s.contains(y) || y == x,
{
    if s.contains(y) {
        let i = choose|i: int| 0 <= i < s.len() && s[i] == y;
        assert(push_new(s, x)[i] == y);
    }
    if y == x && !s.contains(x) {
        assert(push_new(s, x)[s.len() as int] == y);
    }
}

proof fn lemma_chunk_files(chunks: Seq<Seq<Seq<char>>>, path: Seq<char>)
    ensures
        chunk_files(chunks).contains(path) <==> exists|i: int|
            0 <= i < chunks.len() && patch_path(#[trigger] chunks[i]) == Some(path),
    decreases chunks.len(),
{
    if chunks.len() > 0 {
        let rest = chunks.drop_last();
        lemma_chunk_files(rest, path);
        if let Some(last) = patch_path(chunks.last()) {
            lemma_push_new(chunk_files(rest), last, path);
        }
        assert(chunks[chunks.len() - 1] == chunks.last());
        if exists|i: int| 0 <= i < rest.len() && patch_path(#[trigger] rest[i]) == Some(path) {
            let i = choose|i: int| 0 <= i < rest.len() && patch_path(#[trigger] rest[i]) == Some(path);
            assert(chunks[i] == rest[i]);
        }
        if exists|i: int| 0 <= i < chunks.len() && patch_path(#[trigger] chunks[i]) == Some(path) {
            let i = choose|i: int|
                0 <= i < chunks.len() && patch_path(#[trigger] chunks[i]) == Some(path);
            if i < rest.len() {
                assert(rest[i] == chunks[i]);
            }
        }
    }
}

/// A reason speaks against a patch exactly if it speaks against one of its chunks, or the patch
/// names no file at all.
pub proof fn law_every_reason_is_listed(raw_patch: Seq<char>, reason: Seq<char>)
    requires
        !is_blank(raw_patch),
    ensures
        patch_analysis(raw_patch).unsupported_reasons.contains(reason) <==> (reason
            == "No exact patch was captured."@ && patch_analysis(raw_patch).affected_files.len()
            == 0) || exists|i: int|
            0 <= i < patch_chunks(lines(trimmed(raw_patch))).len() && chunk_reasons(
                #[trigger] patch_chunks(lines(trimmed(raw_patch)))[i],
            ).contains(reason),
{
    let chunks = patch_chunks(lines(trimmed(raw_patch)));
    let none = "No exact patch was captured."@;
    lemma_all_reasons(chunks, reason);
    lemma_sorted_contains(all_reasons(chunks), reason);
    lemma_sorted_contains(push_new(all_reasons(chunks), none), reason);
    lemma_push_new(all_reasons(chunks), none, reason);
    lemma_sorted_keeps(chunk_files(chunks));
}

proof fn lemma_push_all_new(s: Seq<Seq<char>>, more: Seq<Seq<char>>, y: Seq<char>)
    ensures
        push_all_new(s, more).contains(y) <==> s.contains(y) || more.contains(y),
    decreases more.len(),
{
    if more.len() > 0 {
        let rest = more.drop_last();
        lemma_push_all_new(s, rest, y);
        lemma_push_new(push_all_new(s, rest), more.last(), y);
        assert(more[more.len() - 1] == more.last());
        if rest.contains(y) {
            let i = choose|i: int| 0 <= i < rest.len() && rest[i] == y;
            assert(more[i] == y);
        }
        if more.contains(y) {
            let i = choose|i: int| 0 <= i < more.len() && more[i] == y;
            if i < rest.len() {
                assert(rest[i] == y);
            }
        }
    }
}

proof fn lemma_all_reasons(chunks: Seq<Seq<Seq<char>>>, reason: Seq<char>)
    ensures
        all_reasons(chunks).contains(reason) <==> exists|i: int|
            0 <= i < chunks.len() && chunk_reasons(#[trigger] chunks[i]).contains(reason),
    decreases chunks.len(),
{
    if chunks.len() > 0 {
        let rest = chunks.drop_last();
        lemma_all_reasons(rest, reason);
        lemma_push_all_new(all_reasons(rest), chunk_reasons(chunks.last()), reason);
        assert(chunks[chunks.len() - 1] == chunks.last());
        if exists|i: int| 0 <= i < rest.len() && chunk_reasons(#[trigger] rest[i]).contains(reason) {
            let i = choose|i: int|
                0 <= i < rest.len() && chunk_reasons(#[trigger] rest[i]).contains(reason);
            assert(chunks[i] == rest[i]);
        }
        if exists|i: int|
            0 <= i < chunks.len() && chunk_reasons(#[trigger] chunks[i]).contains(reason) {
            let i = choose|i: int|
                0 <= i < chunks.len() && chunk_reasons(#[trigger] chunks[i]).contains(reason);
            if i < rest.len() {
                assert(rest[i] == chunks[i]);
            }
        }
    }
}

/// Whether a line of a chunk starts with a text.
pub open spec fn starts(chunk: Seq<Seq<char>>, text: Seq<char>) -> bool {
    exists|i: int| 0 <= i < chunk.len() && has_prefix(#[trigger] chunk[i], text)
}

/// Binary changes, renames and changes of mode cannot be taken back, and neither can a chunk that
/// names no file or changes nothing.
pub proof fn law_why_a_chunk_cannot_be_taken_back(chunk: Seq<Seq<char>>)
    ensures
        ({
            let binary = starts(chunk, "Binary files "@) || chunk.contains("GIT binary patch"@);
            let moved = starts(chunk, "rename from "@) || starts(chunk, "rename to "@) || starts(
                chunk,
                "copy from "@,
            ) || starts(chunk, "copy to "@) || starts(chunk, "old mode "@) || starts(
                chunk,
                "new mode "@,
            ) || starts(chunk, "similarity index "@) || starts(chunk, "new file mode 120"@)
                || starts(chunk, "deleted file mode 120"@);
            let changes = (exists|i: int|
                0 <= i < chunk.len() && has_prefix(#[trigger] chunk[i], "+"@) && !has_prefix(
                    chunk[i],
                    "+++"@,
                )) || (exists|i: int|
                0 <= i < chunk.len() && has_prefix(#[trigger] chunk[i], "-"@) && !has_prefix(
                    chunk[i],
                    "---"@,
                )) || chunk.contains("--- /dev/null"@) || chunk.contains("+++ /dev/null"@);
            let reasons = chunk_reasons(chunk);
            &&& reasons.contains("Binary changes are not auto-revertable in v1."@) <==> binary
            &&& reasons.contains(
                "Rename, mode-only, or symlink changes are not auto-revertable in v1."@,
            ) <==> moved
            &&& reasons.contains("No exact patch was captured."@) <==> patch_path(chunk) is None
                || (!changes && !binary && !moved)
            &&& reasons.len() == 0 <==> patch_path(chunk) is Some && changes && !binary && !moved
        }),
{
    let a = "Binary changes are not auto-revertable in v1."@;
    let b = "Rename, mode-only, or symlink changes are not auto-revertable in v1."@;
    let c = "No exact patch was captured."@;
    reveal_strlit("Binary changes are not auto-revertable in v1.");
    reveal_strlit("Rename, mode-only, or symlink changes are not auto-revertable in v1.");
    reveal_strlit("No exact patch was captured.");
    assert(a.len() == 45 && b.len() == 68 && c.len() == 28);
    let reasons = chunk_reasons(chunk);
    let binary = crate::workspace::is_binary_chunk(chunk);
    let moved = crate::workspace::is_rename_chunk(chunk);
    let n = (if binary {
        1int
    } else {
        0int
    }) + (if moved {
        1int
    } else {
        0int
    });
    if binary {
        assert(reasons[0] == a);
    }
    if moved {
        assert(reasons[n - 1] == b);
    }
    if patch_path(chunk) is None || (!crate::workspace::changes_lines(chunk) && !binary && !moved) {
        assert(reasons[n] == c);
    }
}

/// The file of a chunk is the one that its new side names, without the side; a chunk that deletes a
/// file is about the file that its header names.
pub proof fn law_file_of_a_chunk(
    before: Seq<Seq<char>>,
    line: Seq<char>,
    after: Seq<Seq<char>>,
)
    requires
        forall|i: int| 0 <= i < before.len() ==> !has_prefix(#[trigger] before[i], "+++ "@),
        has_prefix(line, "+++ "@),
    ensures
        diff_path(line.skip(4)) != Some("/dev/null"@) ==> patch_path(before.push(line) + after)
            == diff_path(line.skip(4)),
        diff_path(line.skip(4)) == Some("/dev/null"@) && (forall|i: int|
            0 <= i < after.len() ==> !has_prefix(#[trigger] after[i], "+++ "@)) ==> patch_path(
            before.push(line) + after,
        ) == header_path(before.push(line) + after),
    decreases before.len(),
{
    let all = before.push(line) + after;
    reveal_strlit("+++ ");
    assert("+++ "@.len() == 4);
    assert(line.len() >= 4);
    assert(crate::text::skip_chars(line, 4) =~= line.skip(4));
    lemma_new_file(before, line, after);
}

proof fn lemma_new_file(before: Seq<Seq<char>>, line: Seq<char>, after: Seq<Seq<char>>)
    requires
        forall|i: int| 0 <= i < before.len() ==> !has_prefix(#[trigger] before[i], "+++ "@),
        has_prefix(line, "+++ "@),
    ensures
        diff_path(crate::text::skip_chars(line, 4)) != Some("/dev/null"@) ==> new_file_path(
            before.push(line) + after,
        ) == Some(diff_path(crate::text::skip_chars(line, 4))),
        diff_path(crate::text::skip_chars(line, 4)) == Some("/dev/null"@) && (forall|i: int|
            0 <= i < after.len() ==> !has_prefix(#[trigger] after[i], "+++ "@)) ==> new_file_path(
            before.push(line) + after,
        ) is None,
    decreases before.len(),
{
    let all = before.push(line) + after;
    if before.len() == 0 {
        assert(all[0] == line);
        assert(all.skip(1) =~= after);
        if forall|i: int| 0 <= i < after.len() ==> !has_prefix(#[trigger] after[i], "+++ "@) {
            lemma_no_new_file(after);
        }
    } else {
        let rest = before.skip(1);
        assert(all[0] == before[0]);
        assert(all.skip(1) =~= rest.push(line) + after);
        assert forall|i: int| 0 <= i < rest.len() implies !has_prefix(#[trigger] rest[i], "+++ "@) by {
            assert(rest[i] == before[i + 1]);
        }
        lemma_new_file(rest, line, after);
    }
}

proof fn lemma_no_new_file(lines: Seq<Seq<char>>)
    requires
        forall|i: int| 0 <= i < lines.len() ==> !has_prefix(#[trigger] lines[i], "+++ "@),
    ensures
        new_file_path(lines) is None,
    decreases lines.len(),
{
    if lines.len() > 0 {
        assert forall|i: int| 0 <= i < lines.skip(1).len() implies !has_prefix(
            #[trigger] lines.skip(1)[i],
            "+++ "@,
        ) by {
            assert(lines.skip(1)[i] == lines[i + 1]);
        }
        lemma_no_new_file(lines.skip(1));
    }
}

/// A path loses the side that it is on and nothing else.
pub proof fn law_path_loses_its_side(path: Seq<char>)
    requires
        trimmed(path) == path,
        path.len() > 0,
    ensures
        has_prefix(path, "a/"@) || has_prefix(path, "b/"@) ==> diff_path(path) == Some(
            path.skip(2),
        ),
        !has_prefix(path, "a/"@) && !has_prefix(path, "b/"@) ==> diff_path(path) == Some(path),
{
    reveal_strlit("a/");
    reveal_strlit("b/");
    if has_prefix(path, "a/"@) || has_prefix(path, "b/"@) {
        assert(path.len() >= 2);
        assert(crate::text::skip_chars(path, 2) =~= path.skip(2));
    }
}

/// The header of a chunk names its file as the fourth word.
pub proof fn law_header_names_the_file(line: Seq<char>, rest: Seq<Seq<char>>)
    requires
        has_prefix(line, "diff --git "@),
        words(line).len() >= 4,
    ensures
        header_path(seq![line] + rest) == diff_path(words(line)[3]),
{
    assert((seq![line] + rest)[0] == line);
}

/// Other lines name no file: a header is looked for behind them, and it counts where no line names
/// a new file.
pub proof fn law_other_lines_name_no_file(line: Seq<char>, rest: Seq<Seq<char>>)
    ensures
        !has_prefix(line, "diff --git "@) || words(line).len() < 4 ==> header_path(
            seq![line] + rest,
        ) == header_path(rest),
        (forall|i: int| 0 <= i < rest.len() ==> !has_prefix(#[trigger] rest[i], "+++ "@))
            ==> patch_path(rest) == header_path(rest),
        patch_path(Seq::empty()) is None,
{
    assert((seq![line] + rest)[0] == line);
    assert((seq![line] + rest).skip(1) =~= rest);
    if forall|i: int| 0 <= i < rest.len() ==> !has_prefix(#[trigger] rest[i], "+++ "@) {
        lemma_no_new_file(rest);
    }
}

// What is handed to git.

/// The patch of a request is handed on with a line end behind it; a blank one is refused.
pub proof fn law_patch_of_a_request(params: JsonView)
    ensures
        params.get_str("forwardPatch"@) matches Some(patch) ==> !is_blank(trimmed_end(patch))
            ==> forward_patch(params) == Ok::<Seq<char>, Seq<char>>(trimmed_end(patch) + "\n"@),
        params.get_str("forwardPatch"@) is None ==> forward_patch(params) is Err,
        params.get_str("forwardPatch"@) matches Some(patch) ==> is_blank(trimmed_end(patch))
            ==> forward_patch(params) is Err,
{
}

/// Whether all replies but the last are no errors.
pub open spec fn fine(rest: Seq<Reply>, n: int) -> bool {
    forall|i: int| 0 <= i < n ==> (#[trigger] rest[i]) is Ok
}

/// Applying a patch backwards: it is written to a new file in the temporary directory, git is asked
/// to apply that file in reverse, with `--check` where it is only tried, and the file is removed.
/// The patch fits exactly if git says so.
pub proof fn law_patch_is_applied_backwards(
    root: Seq<char>,
    check: bool,
    patch: Seq<char>,
    rest: Seq<Reply>,
)
    ensures
        rest.len() == 0 ==> applied(root, check, patch, rest) == Run::<
            Result<(bool, Seq<char>), Seq<char>>,
        >::Ask(ActionView::TempDir),
        rest.len() == 1 && fine(rest, 1) ==> applied(root, check, patch, rest) == Run::<
            Result<(bool, Seq<char>), Seq<char>>,
        >::Ask(ActionView::FreshToken),
        rest.len() >= 2 && fine(rest, 2) ==> {
            let file = path_join(rest[0]->Ok_0, "remodex-revert-"@ + rest[1]->Ok_0 + ".patch"@);
            let r = applied(root, check, patch, rest);
            &&& rest.len() == 2 ==> r == Run::<Result<(bool, Seq<char>), Seq<char>>>::Ask(
                ActionView::WriteFile { path: file, contents: patch },
            )
            &&& rest.len() == 3 && rest[2] is Ok ==> (r matches Run::Ask(
                ActionView::GitApply { cwd, args },
            ) && cwd == root && args[0] == "apply"@ && args[1] == "--reverse"@ && args.last()
                == file && args.contains("--check"@) == check && args.len() == if check {
                4nat
            } else {
                3nat
            })
            &&& rest.len() == 4 && rest[2] is Ok && rest[3] is Ok ==> r == Run::<
                Result<(bool, Seq<char>), Seq<char>>,
            >::Ask(ActionView::RemoveFile(file))
            &&& rest.len() >= 5 && rest[2] is Ok && rest[3] is Ok ==> (r matches Run::Got(
                Ok((fits, output)),
                left,
            ) && fits == has_prefix(rest[3]->Ok_0, "0"@) && left == rest.skip(5))
        },
{
    reveal_strlit("--check");
    reveal_strlit("apply");
    reveal_strlit("--reverse");
    if rest.len() >= 2 && fine(rest, 2) {
        let file = path_join(rest[0]->Ok_0, "remodex-revert-"@ + rest[1]->Ok_0 + ".patch"@);
        assert("--check"@.len() == 7 && "apply"@.len() == 5 && "--reverse"@.len() == 9);
        let checked = seq!["apply"@, "--reverse"@, "--check"@, file];
        let plain = seq!["apply"@, "--reverse"@, file];
        assert(checked[2] == "--check"@);
        lemma_no_check(rest[0]->Ok_0, rest[1]->Ok_0);
        assert(!plain.contains("--check"@)) by {
            assert(plain[0] != "--check"@ && plain[1] != "--check"@ && plain[2] != "--check"@);
        }
        assert(rest.skip(1).skip(1) =~= rest.skip(2));
        if rest.len() >= 5 {
            assert(rest.skip(2).skip(1) =~= rest.skip(3));
            assert(rest.skip(3).skip(1) =~= rest.skip(4));
            assert(rest.skip(4).skip(1) =~= rest.skip(5));
        }
    }
}

proof fn lemma_no_check(directory: Seq<char>, token: Seq<char>)
    ensures
        path_join(directory, "remodex-revert-"@ + token + ".patch"@) != "--check"@,
{
    reveal_strlit("remodex-revert-");
    reveal_strlit(".patch");
    reveal_strlit("--check");
    reveal_strlit("/");
    let name = "remodex-revert-"@ + token + ".patch"@;
    assert("remodex-revert-"@.len() == 15 && ".patch"@.len() == 6 && "--check"@.len() == 7);
    assert(name.len() >= 21);
    assert(path_join(directory, name).len() >= name.len());
}

/// The files of a patch that are staged are looked for among all of its files, and what git lists
/// is taken line by line, in order.
pub proof fn law_staged_files_are_looked_for(
    root: Seq<char>,
    files: Seq<Seq<char>>,
    rest: Seq<Reply>,
)
    requires
        files.len() > 0,
    ensures
        rest.len() == 0 ==> (staged_files(root, files, rest) matches Run::Ask(
            ActionView::Git { cwd, args, lenient },
        ) && cwd == root && !lenient && args.len() == files.len() + 4 && args.take(4) == seq![
            "diff"@,
            "--name-only"@,
            "--cached"@,
            "--"@,
        ] && args.skip(4) == files),
        rest.len() > 0 ==> (rest[0] matches Ok(output) ==> staged_files(root, files, rest)
            == Run::Got(
            Ok::<Seq<Seq<char>>, Seq<char>>(sorted(trimmed_lines(output))),
            rest.skip(1),
        )),
{
    let head = seq!["diff"@, "--name-only"@, "--cached"@, "--"@];
    assert((head + files).take(4) =~= head);
    assert((head + files).skip(4) =~= files);
}

// Previews.

/// A patch with a reason against it, or with a staged file, cannot be taken back, and is not even
/// tried; the reasons and the staged files are told.
pub proof fn law_preview_tells_what_speaks_against_it(
    root: Seq<char>,
    params: JsonView,
    rest: Seq<Reply>,
    patch: Seq<char>,
)
    requires
        forward_patch(params) == Ok::<Seq<char>, Seq<char>>(patch),
        patch_analysis(patch).affected_files.len() > 0,
        rest.len() > 0,
        rest[0] is Ok,
        patch_analysis(patch).unsupported_reasons.len() > 0 || trimmed_lines(rest[0]->Ok_0).len()
            > 0,
    ensures
        preview(root, params, rest) matches Run::Got(Ok(found), left) && !found.can_revert && left
            == rest.skip(1) && found.affected_files == patch_analysis(patch).affected_files
            && found.unsupported_reasons == patch_analysis(patch).unsupported_reasons
            && found.staged_files == sorted(trimmed_lines(rest[0]->Ok_0)) && found.conflicts.len()
            == 0,
{
    lemma_sorted_keeps(trimmed_lines(rest[0]->Ok_0));
}

/// A patch that nothing speaks against is tried out: it can be taken back exactly if git says that
/// it fits, and what does not fit is told.
pub proof fn law_preview_tries_the_patch(
    root: Seq<char>,
    params: JsonView,
    rest: Seq<Reply>,
    patch: Seq<char>,
)
    requires
        forward_patch(params) == Ok::<Seq<char>, Seq<char>>(patch),
        patch_analysis(patch).affected_files.len() > 0,
        patch_analysis(patch).unsupported_reasons.len() == 0,
        rest.len() > 0,
        rest[0] is Ok,
        trimmed_lines(rest[0]->Ok_0).len() == 0,
    ensures
        match applied(root, true, patch, rest.skip(1)) {
            Run::Ask(action) => preview(root, params, rest) == Run::<
                Result<PreviewView, Seq<char>>,
            >::Ask(action),
            Run::Got(Ok((fits, output)), left) => preview(root, params, rest) matches Run::Got(
                Ok(found),
                after,
            ) && after == left && found.can_revert == fits && found.affected_files
                == patch_analysis(patch).affected_files && found.unsupported_reasons.len() == 0
                && found.staged_files.len() == 0 && (fits ==> found.conflicts.len() == 0) && (!fits
                ==> found.conflicts.len() == apply_conflicts(output).len()),
            Run::Got(Err(error), left) => preview(root, params, rest) == Run::Got(
                Err::<PreviewView, Seq<char>>(error),
                left,
            ),
        },
{
    lemma_sorted_keeps(trimmed_lines(rest[0]->Ok_0));
}

/// What the phone is told of a preview.
pub proof fn law_preview_is_told(found: PreviewView)
    ensures
        found.json().get_bool("canRevert"@) == Some(found.can_revert),
        found.json().get("affectedFiles"@) == Some(text_array(found.affected_files)),
        found.json().get("conflicts"@) == Some(JsonView::Array(found.conflicts)),
        found.json().get("unsupportedReasons"@) == Some(text_array(found.unsupported_reasons)),
        found.json().get("stagedFiles"@) == Some(text_array(found.staged_files)),
{
    reveal_strlit("canRevert");
    reveal_strlit("affectedFiles");
    reveal_strlit("conflicts");
    reveal_strlit("unsupportedReasons");
    reveal_strlit("stagedFiles");
    assert("canRevert"@[1] == 'a' && "conflicts"@[1] == 'o' && "canRevert"@.len() == 9);
    assert("affectedFiles"@.len() == 13 && "conflicts"@.len() == 9);
    assert("unsupportedReasons"@.len() == 18 && "stagedFiles"@.len() == 11);
}

/// What git says of a patch that does not fit is told file by file.
pub proof fn law_conflicts_name_their_file(path: Seq<char>, line: Seq<char>)
    requires
        path.len() > 0,
        !crate::text::contains(path, ":"@),
    ensures
        conflict_path("error: patch failed: "@ + path + ":"@ + line) == path,
{
    let prefix = "error: patch failed: "@;
    let rest = path + ":"@ + line;
    reveal_strlit(":");
    assert(prefix + path + ":"@ + line =~= prefix + rest);
    assert((prefix + rest).take(prefix.len() as int) =~= prefix);
    assert((prefix + rest).skip(prefix.len() as int) =~= rest);
    lemma_first_part(path, line);
}

proof fn lemma_first_part(path: Seq<char>, line: Seq<char>)
    requires
        !crate::text::contains(path, ":"@),
    ensures
        split(path + ":"@ + line, ":"@)[0] == path,
{
    reveal_strlit(":");
    let rest = path + ":"@ + line;
    let at = path.len() as int;
    crate::text::lemma_find(rest, ":"@);
    assert(rest.subrange(at, at + 1) =~= ":"@);
    assert(crate::text::occurs_at(rest, ":"@, at));
    let found = crate::text::find(rest, ":"@)->0;
    if found < at {
        assert(path.subrange(found, found + 1) =~= rest.subrange(found, found + 1));
        assert(crate::text::occurs_at(path, ":"@, found));
    }
    assert(found == at);
    assert(rest.take(at) =~= path);
}

/// Every file that git complains about is told once, with the first line about it.
pub proof fn law_conflicts_are_told_once(lines: Seq<Seq<char>>)
    ensures
        forall|i: int, j: int|
            0 <= i < j < line_conflicts(lines).len() ==> (#[trigger] line_conflicts(lines)[i]).0 != (
            #[trigger] line_conflicts(lines)[j]).0,
        forall|k: int|
            0 <= k < lines.len() ==> exists|i: int|
                0 <= i < line_conflicts(lines).len() && (#[trigger] line_conflicts(lines)[i]).0
                    == conflict_path(trimmed(#[trigger] lines[k])),
    decreases lines.len(),
{
    if lines.len() > 0 {
        let rest = lines.drop_last();
        law_conflicts_are_told_once(rest);
        let before = line_conflicts(rest);
        let after = line_conflicts(lines);
        let path = conflict_path(trimmed(lines.last()));
        assert forall|k: int| 0 <= k < lines.len() implies exists|i: int|
            0 <= i < after.len() && (#[trigger] after[i]).0 == conflict_path(
                trimmed(#[trigger] lines[k]),
            ) by {
            if k < rest.len() {
                assert(rest[k] == lines[k]);
                let i = choose|i: int|
                    0 <= i < before.len() && (#[trigger] before[i]).0 == conflict_path(
                        trimmed(rest[k]),
                    );
                assert(after[i] == before[i]);
            } else if crate::workspace::has_conflict(before, path) {
                let i = choose|i: int| 0 <= i < before.len() && (#[trigger] before[i]).0 == path;
                assert(after[i].0 == path);
            } else {
                assert(after[before.len() as int].0 == path);
            }
        }
    }
}

/// A file is told with what git says of it: the first line about it, without the white space around
/// it.
pub proof fn law_conflict_is_told_with_its_line(lines: Seq<Seq<char>>, line: Seq<char>)
    ensures
        ({
            let before = line_conflicts(lines);
            let path = conflict_path(trimmed(line));
            let known = exists|i: int| 0 <= i < before.len() && (#[trigger] before[i]).0 == path;
            &&& known ==> line_conflicts(lines.push(line)) == before
            &&& !known ==> line_conflicts(lines.push(line)) == before.push((path, trimmed(line)))
        }),
        line_conflicts(Seq::empty()).len() == 0,
{
    assert(lines.push(line).drop_last() =~= lines);
}

/// Where git printed something and no line of it can be told, all of it is told.
pub proof fn law_some_conflict_is_told(output: Seq<char>)
    requires
        !is_blank(output),
    ensures
        apply_conflicts(output).len() > 0,
        line_conflicts(nonblank_lines(output)).len() > 0 ==> apply_conflicts(output)
            == line_conflicts(nonblank_lines(output)),
        line_conflicts(nonblank_lines(output)).len() == 0 ==> apply_conflicts(output)[0].1 == join(
            words(output),
            " "@,
        ),
{
}

// Taking a patch back.

/// A patch is taken back while the repository is locked, once its preview allows it: the very patch
/// of the request is applied backwards, and its files are told exactly if git applied it.
pub proof fn law_patch_is_taken_back(
    root: Seq<char>,
    params: JsonView,
    rest: Seq<Reply>,
    patch: Seq<char>,
    found: PreviewView,
    left: Seq<Reply>,
)
    requires
        forward_patch(params) == Ok::<Seq<char>, Seq<char>>(patch),
        rest.len() > 0,
        rest[0] is Ok,
        preview(root, params, rest.skip(1)) == Run::Got(
            Ok::<PreviewView, Seq<char>>(found),
            left,
        ),
        found.can_revert,
    ensures
        revert(root, params, Seq::empty()) == Run::<Answer>::Ask(ActionView::LockRepo(root)),
        match applied(root, false, patch, left) {
            Run::Ask(action) => revert(root, params, rest) == Run::<Answer>::Ask(action),
            Run::Got(Err(error), after) => revert(root, params, rest) == Run::Got(
                Err::<JsonView, Seq<char>>(error),
                after,
            ),
            Run::Got(Ok((done, output)), after) => match status(root, after) {
                Run::Ask(action) => revert(root, params, rest) == Run::<Answer>::Ask(action),
                Run::Got(told, last) => revert(root, params, rest) matches Run::Got(Ok(answer), end)
                    && end == last && answer.get_bool("success"@) == Some(done) && answer.get(
                    "revertedFiles"@,
                ) == Some(
                    text_array(
                        if done {
                            found.affected_files
                        } else {
                            Seq::empty()
                        },
                    ),
                ) && answer.get("status"@) == Some(
                    match told {
                        Ok(status) => status,
                        Err(_) => JsonView::Null,
                    },
                ) && (done ==> answer.get("conflicts"@) == Some(JsonView::Array(Seq::empty())))
                    && (!done ==> (answer.get("conflicts"@) matches Some(JsonView::Array(conflicts))
                    && conflicts.len() == apply_conflicts(output).len())),
            },
        },
{
    reveal_strlit("success");
    reveal_strlit("revertedFiles");
    reveal_strlit("conflicts");
    reveal_strlit("unsupportedReasons");
    reveal_strlit("stagedFiles");
    reveal_strlit("status");
    assert("success"@.len() == 7 && "revertedFiles"@.len() == 13 && "conflicts"@.len() == 9);
    assert("unsupportedReasons"@.len() == 18 && "stagedFiles"@.len() == 11);
    assert("status"@.len() == 6);
}

/// A patch that cannot be taken back changes nothing: the answer tells what speaks against it.
pub proof fn law_refused_patch_is_told(
    root: Seq<char>,
    params: JsonView,
    rest: Seq<Reply>,
    found: PreviewView,
    left: Seq<Reply>,
)
    requires
        rest.len() > 0,
        rest[0] is Ok,
        preview(root, params, rest.skip(1)) == Run::Got(
            Ok::<PreviewView, Seq<char>>(found),
            left,
        ),
        !found.can_revert,
    ensures
        revert(root, params, rest) matches Run::Got(Ok(answer), end) && end == left
            && answer.get_bool("success"@) == Some(false) && answer.get("revertedFiles"@) == Some(
            text_array(Seq::empty()),
        ) && answer.get("conflicts"@) == Some(JsonView::Array(found.conflicts)) && answer.get(
            "unsupportedReasons"@,
        ) == Some(text_array(found.unsupported_reasons)) && answer.get("stagedFiles"@) == Some(
            text_array(found.staged_files),
        ),
{
    reveal_strlit("success");
    reveal_strlit("revertedFiles");
    reveal_strlit("conflicts");
    reveal_strlit("unsupportedReasons");
    reveal_strlit("stagedFiles");
    assert("success"@.len() == 7 && "revertedFiles"@.len() == 13 && "conflicts"@.len() == 9);
    assert("unsupportedReasons"@.len() == 18 && "stagedFiles"@.len() == 11);
}

/// Every conflict is told with its file and with what git said, in order.
pub proof fn law_conflicts_are_written_out(conflicts: Seq<(Seq<char>, Seq<char>)>, i: int)
    requires
        0 <= i < conflicts.len(),
    ensures
        conflicts_view(conflicts).len() == conflicts.len(),
        conflicts_view(conflicts)[i].get_str("path"@) == Some(conflicts[i].0),
        conflicts_view(conflicts)[i].get_str("message"@) == Some(conflicts[i].1),
{
    reveal_strlit("path");
    reveal_strlit("message");
    assert("path"@.len() == 4 && "message"@.len() == 7);
}

/// A patch that git would not apply after all is told with the conflicts.
pub proof fn law_failed_patch_is_told(
    root: Seq<char>,
    params: JsonView,
    rest: Seq<Reply>,
    patch: Seq<char>,
    found: PreviewView,
    left: Seq<Reply>,
    output: Seq<char>,
    after: Seq<Reply>,
    told: Answer,
    last: Seq<Reply>,
)
    requires
        forward_patch(params) == Ok::<Seq<char>, Seq<char>>(patch),
        rest.len() > 0,
        rest[0] is Ok,
        preview(root, params, rest.skip(1)) == Run::Got(
            Ok::<PreviewView, Seq<char>>(found),
            left,
        ),
        found.can_revert,
        applied(root, false, patch, left) == Run::Got(
            Ok::<(bool, Seq<char>), Seq<char>>((false, output)),
            after,
        ),
        status(root, after) == Run::Got(told, last),
    ensures
        revert(root, params, rest) matches Run::Got(Ok(answer), end) && end == last && answer.get(
            "conflicts"@,
        ) == Some(JsonView::Array(conflicts_view(apply_conflicts(output)))) && answer.get_bool(
            "success"@,
        ) == Some(false),
{
    reveal_strlit("success");
    reveal_strlit("revertedFiles");
    reveal_strlit("conflicts");
    reveal_strlit("unsupportedReasons");
    reveal_strlit("stagedFiles");
    reveal_strlit("status");
    assert("success"@.len() == 7 && "revertedFiles"@.len() == 13 && "conflicts"@.len() == 9);
    assert("unsupportedReasons"@.len() == 18 && "stagedFiles"@.len() == 11);
    assert("status"@.len() == 6);
}

/// A repository that cannot be locked is not touched.
pub proof fn law_locked_repository_is_not_touched(
    root: Seq<char>,
    params: JsonView,
    rest: Seq<Reply>,
    error: Seq<char>,
)
    requires
        rest.len() > 0,
        rest[0] == Err::<Seq<char>, Seq<char>>(error),
    ensures
        revert(root, params, rest) == Run::Got(Err::<JsonView, Seq<char>>(error), rest.skip(1)),
{
}

/// Each request of the workspace is taken up for what it is, in the repository around the directory
/// that it names.
#[verifier::rlimit(60)]
#[verifier::spinoff_prover]
pub proof fn law_workspace_requests_are_told_apart(
    method: Seq<char>,
    params: JsonView,
    rest: Seq<Reply>,
    cwd: Seq<char>,
)
    requires
        has_prefix(method, "workspace/"@),
    ensures
        requested_cwd(params) == Some(cwd) ==> {
            &&& rest.len() == 0 ==> workspace_request(method, params, rest) == Run::<
                Option<Answer>,
            >::Ask(ActionView::IsDir(cwd))
            &&& rest.len() == 1 && rest[0] is Ok ==> workspace_request(method, params, rest) == Run::<
                Option<Answer>,
            >::Ask(
                ActionView::Git {
                    cwd,
                    args: seq!["rev-parse"@, "--show-toplevel"@],
                    lenient: false,
                },
            )
            &&& rest.len() >= 2 && rest[0] is Ok && rest[1] is Ok && !is_blank(rest[1]->Ok_0) ==> {
                let done = workspace_method(method, trimmed(rest[1]->Ok_0), params, rest.skip(2));
                match done {
                    Run::Ask(action) => workspace_request(method, params, rest) == Run::<
                        Option<Answer>,
                    >::Ask(action),
                    Run::Got(answer, left) => workspace_request(method, params, rest) == Run::Got(
                        Some(answer),
                        left,
                    ),
                }
            }
        },
        requested_cwd(params) is None ==> (workspace_request(method, params, rest) matches Run::Got(
            Some(Err(_)),
            left,
        ) && left == rest),
{
    if rest.len() >= 2 {
        assert(rest.skip(1).skip(1) =~= rest.skip(2));
    }
}

/// A request for a preview is one, and a request to take a patch back is one.
#[verifier::rlimit(40)]
pub proof fn law_workspace_methods(method: Seq<char>, cwd: Seq<char>, params: JsonView, rest: Seq<Reply>)
    ensures
        method == "workspace/revertPatchApply"@ ==> workspace_method(method, cwd, params, rest)
            == revert(cwd, params, rest),
        method == "workspace/revertPatchPreview"@ ==> match preview(cwd, params, rest) {
            Run::Ask(action) => workspace_method(method, cwd, params, rest) == Run::<Answer>::Ask(
                action,
            ),
            Run::Got(Ok(found), left) => workspace_method(method, cwd, params, rest) == Run::Got(
                Ok::<JsonView, Seq<char>>(found.json()),
                left,
            ),
            Run::Got(Err(error), left) => workspace_method(method, cwd, params, rest) == Run::Got(
                Err::<JsonView, Seq<char>>(error),
                left,
            ),
        },
{
    reveal_strlit("workspace/revertPatchApply");
    reveal_strlit("workspace/revertPatchPreview");
    assert("workspace/revertPatchApply"@.len() == 26);
    assert("workspace/revertPatchPreview"@.len() == 28);
}

/// Requests of other kinds are not taken up.
pub proof fn law_other_requests_are_left(method: Seq<char>, params: JsonView, rest: Seq<Reply>)
    requires
        !has_prefix(method, "workspace/"@),
    ensures
        workspace_request(method, params, rest) == Run::Got(None::<Answer>, rest),
{
}

} // verus!
