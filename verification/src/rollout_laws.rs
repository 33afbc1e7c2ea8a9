//! What the bridge finds in the records of the runs.
use vstd::prelude::*;

use crate::json::{json_parse, number, JsonView};
use crate::path::{path_file_name, path_join};
use crate::rollout::{
    codex_home, context_view, entry_usage, first_header, first_named, last_usage, later_than,
    line_usage, mentions, named_after, no_later, recent_first, search_step, FileView,
    SearchView,
};
use crate::text::{contains, trimmed};

verus! {

/// The directory of Codex is the one that was set; without one it is in the home directory.
pub proof fn law_directory_of_codex(configured: Seq<char>, home: Seq<char>)
    ensures
        codex_home(Some(configured), home) == configured,
        codex_home(None, home) == path_join(home, ".codex"@),
{
}

/// A record mentions a turn only where it names both the turn and its thread.
pub proof fn law_which_records_are_meant(raw: Seq<char>, thread_id: Seq<char>, turn_id: Seq<char>)
    ensures
        mentions(raw, thread_id, None) <==> contains(raw, thread_id),
        mentions(raw, thread_id, Some(turn_id)) <==> contains(raw, thread_id) && contains(
            raw,
            turn_id,
        ),
{
}

/// The first record that mentions the thread is the one that is looked for.
pub proof fn law_first_record_that_matches_is_found(
    paths: Seq<Seq<char>>,
    thread_id: Seq<char>,
    matched: Seq<bool>,
    i: int,
)
    requires
        0 <= i < matched.len(),
        matched.len() <= paths.len(),
        matched[i],
        forall|j: int| 0 <= j < i ==> !#[trigger] matched[j],
    ensures
        search_step(paths, thread_id, matched) == SearchView::Found(paths[i]),
{
    assert(matched.contains(true));
    matched.index_of_first_ensures(true);
    let found = matched.index_of_first(true)->0;
    assert(matched[found] && !(found < i));
    assert(!(i < found));
}

/// As long as none does, they are read one after the other; in the end the name of a file decides.
pub proof fn law_records_are_read_in_turn(
    paths: Seq<Seq<char>>,
    thread_id: Seq<char>,
    matched: Seq<bool>,
)
    requires
        matched.len() <= paths.len(),
        forall|j: int| 0 <= j < matched.len() ==> !#[trigger] matched[j],
    ensures
        matched.len() < paths.len() ==> search_step(paths, thread_id, matched) == SearchView::Read(
            matched.len() as int,
        ),
        matched.len() == paths.len() ==> (first_named(paths, thread_id) matches Some(path)
            ==> search_step(paths, thread_id, matched) == SearchView::Found(path)),
        matched.len() == paths.len() && first_named(paths, thread_id) is None ==> search_step(
            paths,
            thread_id,
            matched,
        ) is NotFound,
{
    if matched.contains(true) {
        let j = choose|j: int| 0 <= j < matched.len() && matched[j] == true;
        assert(matched[j]);
    }
}

/// The file that is named after a thread is the first whose name holds its identifier.
pub proof fn law_first_file_with_the_name(paths: Seq<Seq<char>>, thread_id: Seq<char>)
    ensures
        first_named(paths, thread_id) matches Some(path) ==> exists|i: int|
            {
                &&& 0 <= i < paths.len()
                &&& #[trigger] paths[i] == path
                &&& path_file_name(path) matches Some(name) && contains(name, thread_id)
                &&& forall|j: int| 0 <= j < i ==> !named_after(#[trigger] paths[j], thread_id)
            },
        first_named(paths, thread_id) is None ==> forall|i: int|
            0 <= i < paths.len() ==> !(path_file_name(#[trigger] paths[i]) matches Some(name)
                && contains(name, thread_id)),
    decreases paths.len(),
{
    if paths.len() > 0 {
        let rest = paths.skip(1);
        law_first_file_with_the_name(rest, thread_id);
        if named_after(paths[0], thread_id) {
            assert(first_named(paths, thread_id) == Some(paths[0]));
        } else {
            if let Some(path) = first_named(rest, thread_id) {
                let i = choose|i: int|
                    {
                        &&& 0 <= i < rest.len()
                        &&& #[trigger] rest[i] == path
                        &&& path_file_name(path) matches Some(name) && contains(name, thread_id)
                        &&& forall|j: int| 0 <= j < i ==> !named_after(#[trigger] rest[j], thread_id)
                    };
                assert(paths[i + 1] == rest[i]);
                assert forall|j: int| 0 <= j < i + 1 implies !named_after(
                    #[trigger] paths[j],
                    thread_id,
                ) by {
                    if j > 0 {
                        assert(paths[j] == rest[j - 1]);
                    }
                }
            } else {
                assert forall|i: int| 0 <= i < paths.len() implies !(path_file_name(
                    #[trigger] paths[i],
                ) matches Some(name) && contains(name, thread_id)) by {
                    if i > 0 {
                        assert(paths[i] == rest[i - 1]);
                    }
                }
            }
        }
    }
}

/// A file that was changed later than all others, or as late and listed behind them, is looked at
/// first; one that was changed before all others is looked at last.
pub proof fn law_newest_file_comes_first(files: Seq<FileView>, x: FileView)
    ensures
        (forall|i: int| 0 <= i < files.len() ==> no_later(#[trigger] recent_first(files)[i], x))
            ==> recent_first(files.push(x)) == seq![x] + recent_first(files),
        (forall|i: int| 0 <= i < recent_first(files).len() ==> !no_later(
            #[trigger] recent_first(files)[i],
            x,
        )) ==> recent_first(files.push(x)) == recent_first(files).push(x),
{
    let before = recent_first(files);
    assert(files.push(x).drop_last() =~= files);
    crate::rollout::law_recent_first_keeps_files(files);
    if forall|i: int| 0 <= i < files.len() ==> no_later(#[trigger] before[i], x) {
        if before.len() > 0 {
            assert(no_later(before[0], x));
        }
        assert(later_than(before, x) == 0);
        assert(before.insert(0, x) =~= seq![x] + before);
    }
    if forall|i: int| 0 <= i < before.len() ==> !no_later(#[trigger] before[i], x) {
        lemma_all_later(before, x);
        assert(before.insert(before.len() as int, x) =~= before.push(x));
    }
}

proof fn lemma_all_later(s: Seq<FileView>, x: FileView)
    requires
        forall|i: int| 0 <= i < s.len() ==> !no_later(#[trigger] s[i], x),
    ensures
        later_than(s, x) == s.len(),
    decreases s.len(),
{
    if s.len() > 0 {
        let rest = s.skip(1);
        assert forall|i: int| 0 <= i < rest.len() implies !no_later(#[trigger] rest[i], x) by {
            assert(rest[i] == s[i + 1]);
        }
        lemma_all_later(rest, x);
    }
}

/// Files are compared by when they were changed; one of which that is not known is the oldest.
pub proof fn law_files_are_compared_by_their_time(a: FileView, b: FileView)
    ensures
        a.modified_ns matches Some(x) ==> (b.modified_ns matches Some(y) ==> (no_later(a, b) <==> x
            <= y)),
        a.modified_ns is None ==> no_later(a, b),
        a.modified_ns is Some && b.modified_ns is None ==> !no_later(a, b),
{
}

/// The use of the context: the tokens of the last step, or else of the whole run, and the size of
/// the window, in either spelling.
#[verifier::rlimit(80)]
#[verifier::spinoff_prover]
pub proof fn law_use_of_the_context(
    entry: JsonView,
    info: JsonView,
    counts: JsonView,
    used: u64,
    limit: u64,
)
    requires
        entry.get2("payload"@, "info"@) == Some(info),
        info.get("last_token_usage"@) == Some(counts) || (info.get("last_token_usage"@) is None && (
        info.get("lastTokenUsage"@) == Some(counts) || (info.get("lastTokenUsage"@) is None && (
        info.get("total_token_usage"@) == Some(counts) || (info.get("total_token_usage"@) is None
            && info.get("totalTokenUsage"@) == Some(counts)))))),
        counts.get("total_tokens"@) == Some(number(used)) || (counts.get("total_tokens"@) is None
            && counts.get("totalTokens"@) == Some(number(used))),
        info.get("model_context_window"@) == Some(number(limit)) || (info.get(
            "model_context_window"@,
        ) is None && info.get("modelContextWindow"@) == Some(number(limit))),
    ensures
        entry_usage(entry) matches Some(usage) && usage.get_u64("tokensUsed"@) == Some(used)
            && usage.get_u64("tokenLimit"@) == Some(limit),
{
    reveal_strlit("tokensUsed");
    reveal_strlit("tokenLimit");
    assert("tokensUsed"@[5] == 's' && "tokenLimit"@[5] == 'L' && "tokensUsed"@.len() == 10);
    assert("tokenLimit"@.len() == 10);
}

/// An entry that lacks one of them tells nothing.
pub proof fn law_entries_that_tell_no_use(entry: JsonView)
    ensures
        entry.get2("payload"@, "info"@) is None ==> entry_usage(entry) is None,
        entry.get2("payload"@, "info"@) matches Some(info) ==> {
            &&& info.get("model_context_window"@) is None && info.get("modelContextWindow"@) is None
                ==> entry_usage(entry) is None
            &&& info.get("last_token_usage"@) is None && info.get("lastTokenUsage"@) is None
                && info.get("total_token_usage"@) is None && info.get("totalTokenUsage"@) is None
                ==> entry_usage(entry) is None
        },
{
}

/// Of all that the lines tell, the last counts.
pub proof fn law_last_use_counts(lines: Seq<Seq<char>>, i: int)
    requires
        0 <= i < lines.len(),
        line_usage(lines[i]) is Some,
        forall|j: int| i < j < lines.len() ==> line_usage(#[trigger] lines[j]) is None,
    ensures
        last_usage(lines) == line_usage(lines[i]),
    decreases lines.len(),
{
    if i < lines.len() - 1 {
        let rest = lines.drop_last();
        assert(rest[i] == lines[i]);
        assert forall|j: int| i < j < rest.len() implies line_usage(#[trigger] rest[j]) is None by {
            assert(rest[j] == lines[j]);
        }
        law_last_use_counts(rest, i);
        assert(line_usage(lines[lines.len() - 1]) is None);
    }
}

/// Lines that tell nothing give nothing; a line tells what the entry on it tells.
pub proof fn law_no_use_is_made_up(lines: Seq<Seq<char>>, line: Seq<char>)
    ensures
        (forall|j: int| 0 <= j < lines.len() ==> line_usage(#[trigger] lines[j]) is None)
            ==> last_usage(lines) is None,
        json_parse(trimmed(line)) is None ==> line_usage(line) is None,
        json_parse(trimmed(line)) matches Some(entry) ==> line_usage(line) == entry_usage(entry),
    decreases lines.len(),
{
    if lines.len() > 0 && forall|j: int|
        0 <= j < lines.len() ==> line_usage(#[trigger] lines[j]) is None {
        let rest = lines.drop_last();
        assert forall|j: int| 0 <= j < rest.len() implies line_usage(#[trigger] rest[j]) is None by {
            assert(rest[j] == lines[j]);
        }
        law_no_use_is_made_up(rest, line);
        assert(line_usage(lines[lines.len() - 1]) is None);
    }
}

/// The phone is told the thread, the use of its context, and where that was read.
pub proof fn law_context_is_told(thread_id: Seq<char>, usage: JsonView, path: Seq<char>)
    ensures
        ({
            let told = context_view(thread_id, Some(usage), Some(path));
            &&& told.get_str("threadId"@) == Some(thread_id)
            &&& told.get("usage"@) == Some(usage)
            &&& told.get_str("rolloutPath"@) == Some(path)
        }),
        ({
            let told = context_view(thread_id, None, None);
            &&& told.get_str("threadId"@) == Some(thread_id)
            &&& told.get("usage"@) == Some(JsonView::Null)
            &&& told.get("rolloutPath"@) == Some(JsonView::Null)
        }),
{
    reveal_strlit("threadId");
    reveal_strlit("usage");
    reveal_strlit("rolloutPath");
    assert("threadId"@.len() == 8 && "usage"@.len() == 5 && "rolloutPath"@.len() == 11);
}

/// The header of a record is the content of the first entry that is one.
pub proof fn law_first_header_counts(lines: Seq<Seq<char>>, i: int, entry: JsonView)
    requires
        0 <= i < lines.len(),
        json_parse(trimmed(lines[i])) == Some(entry),
        entry.get_str("type"@) == Some("session_meta"@),
        forall|j: int|
            0 <= j < i ==> !(json_parse(trimmed(#[trigger] lines[j])) matches Some(other)
                && other.get_str("type"@) == Some("session_meta"@)),
    ensures
        first_header(lines) == entry.get("payload"@),
    decreases lines.len(),
{
    if i > 0 {
        let rest = lines.skip(1);
        assert(rest[i - 1] == lines[i]);
        assert forall|j: int| 0 <= j < i - 1 implies !(json_parse(
            trimmed(#[trigger] rest[j]),
        ) matches Some(other) && other.get_str("type"@) == Some("session_meta"@)) by {
            assert(rest[j] == lines[j + 1]);
        }
        law_first_header_counts(rest, i - 1, entry);
        assert(!(json_parse(trimmed(lines[0])) matches Some(other) && other.get_str("type"@)
            == Some("session_meta"@)));
    }
}

/// A record without a header has none.
pub proof fn law_no_header_is_made_up(lines: Seq<Seq<char>>)
    requires
        forall|j: int|
            0 <= j < lines.len() ==> !(json_parse(trimmed(#[trigger] lines[j])) matches Some(other)
                && other.get_str("type"@) == Some("session_meta"@)),
    ensures
        first_header(lines) is None,
    decreases lines.len(),
{
    if lines.len() > 0 {
        let rest = lines.skip(1);
        assert forall|j: int| 0 <= j < rest.len() implies !(json_parse(
            trimmed(#[trigger] rest[j]),
        ) matches Some(other) && other.get_str("type"@) == Some("session_meta"@)) by {
            assert(rest[j] == lines[j + 1]);
        }
        law_no_header_is_made_up(rest);
        assert(!(json_parse(trimmed(lines[0])) matches Some(other) && other.get_str("type"@)
            == Some("session_meta"@)));
    }
}

} // verus!
