//! The records that Codex keeps of its runs.
use vstd::prelude::*;

use crate::json::{
    json_parse, number, opt_text, or_else, parse_json, Json, JsonObject, JsonView,
};
use crate::path::{file_name_of, join_path, path_file_name, path_join};
use crate::text::{
    concat2, concat3, contains, contains_text, lines, lines_of, text_eq, trim, trimmed,
};

verus! {

// Where the records are.

/// The directory in which Codex keeps its files: the one that was set, else one in the home
/// directory.
pub open spec fn codex_home(configured: Option<Seq<char>>, home: Seq<char>) -> Seq<char> {
    match configured {
        Some(path) => path,
        None => path_join(home, ".codex"@),
    }
}

/// The directory in which Codex keeps its files, given `CODEX_HOME` and the home directory.
pub fn resolve_codex_home(configured: Option<&str>, home: &str) -> (r: String)
    ensures
        r@ == codex_home(configured.deep_view(), home@),
{
    match configured {
        Some(path) => path.to_owned(),
        None => join_path(home, ".codex"),
    }
}

/// The directory of the records.
pub fn resolve_sessions_root(configured: Option<&str>, home: &str) -> (r: String)
    ensures
        r@ == path_join(codex_home(configured.deep_view(), home@), "sessions"@),
{
    join_path(resolve_codex_home(configured, home).as_str(), "sessions")
}

/// Whether the name of a file holds the identifier of a thread.
pub open spec fn named_after(path: Seq<char>, thread_id: Seq<char>) -> bool {
    path_file_name(path) matches Some(name) && contains(name, thread_id)
}

fn is_named_after(path: &str, thread_id: &str) -> (r: bool)
    ensures
        r == named_after(path@, thread_id@),
{
    match file_name_of(path) {
        Some(name) => contains_text(name.as_str(), thread_id),
        None => false,
    }
}

/// The first file that is named after a thread.
pub open spec fn first_named(paths: Seq<Seq<char>>, thread_id: Seq<char>) -> Option<Seq<char>>
    decreases paths.len(),
{
    if paths.len() == 0 {
        None
    } else if named_after(paths[0], thread_id) {
        Some(paths[0])
    } else {
        first_named(paths.skip(1), thread_id)
    }
}

/// The first file that is named after a thread.
pub fn find_rollout_file_for_thread(paths: &Vec<String>, thread_id: &str) -> (r: Option<String>)
    ensures
        r.deep_view() == first_named(paths.deep_view(), thread_id@),
{
    let ghost all = paths.deep_view();
    let mut i: usize = 0;
    assert(all.skip(0) =~= all);
    while i < paths.len()
        invariant
            i <= paths@.len(),
            all == paths.deep_view(),
            first_named(all, thread_id@) == first_named(all.skip(i as int), thread_id@),
        decreases paths@.len() - i,
    {
        assert(all.skip(i as int)[0] == paths@[i as int]@);
        assert(all.skip(i as int).skip(1) =~= all.skip(i + 1));
        if is_named_after(paths[i].as_str(), thread_id) {
            return Some(paths[i].clone());
        }
        i = i + 1;
    }
    None
}

/// A file and when it was changed, where that is known.
pub struct RolloutFile {
    pub path: String,
    pub modified_ns: Option<i128>,
}

/// What a `RolloutFile` stands for.
pub struct FileView {
    pub path: Seq<char>,
    pub modified_ns: Option<i128>,
}

impl View for RolloutFile {
    type V = FileView;

    open spec fn view(&self) -> FileView {
        FileView { path: self.path@, modified_ns: self.modified_ns }
    }
}

impl DeepView for RolloutFile {
    type V = FileView;

    open spec fn deep_view(&self) -> FileView {
        self.view()
    }
}

/// Whether the first file was changed no later than the second. A file of which that is not known
/// counts as the oldest.
pub open spec fn no_later(a: FileView, b: FileView) -> bool {
    match (a.modified_ns, b.modified_ns) {
        (None, _) => true,
        (Some(_), None) => false,
        (Some(x), Some(y)) => x <= y,
    }
}

fn is_no_later(a: &RolloutFile, b: &RolloutFile) -> (r: bool)
    ensures
        r == no_later(a@, b@),
{
    match a.modified_ns {
        None => true,
        Some(x) => match b.modified_ns {
            None => false,
            Some(y) => x <= y,
        },
    }
}

/// How many files at the front were changed later than `x`.
pub open spec fn later_than(s: Seq<FileView>, x: FileView) -> nat
    decreases s.len(),
{
    if s.len() > 0 && !no_later(s[0], x) {
        1 + later_than(s.skip(1), x)
    } else {
        0
    }
}

/// The files with the one that was changed last in front. Of files that were changed at the same
/// time, the one that is listed later comes first.
pub open spec fn recent_first(files: Seq<FileView>) -> Seq<FileView>
    decreases files.len(),
{
    if files.len() == 0 {
        seq![]
    } else {
        let before = recent_first(files.drop_last());
        before.insert(later_than(before, files.last()) as int, files.last())
    }
}

proof fn lemma_later_than(s: Seq<FileView>, x: FileView, k: int)
    requires
        0 <= k <= s.len(),
        forall|j: int| 0 <= j < k ==> !no_later(#[trigger] s[j], x),
        k < s.len() ==> no_later(s[k], x),
    ensures
        later_than(s, x) == k,
    decreases k,
{
    if k > 0 {
        assert(!no_later(s[0], x));
        let rest = s.skip(1);
        assert forall|j: int| 0 <= j < k - 1 implies !no_later(#[trigger] rest[j], x) by {
            assert(rest[j] == s[j + 1]);
        }
        lemma_later_than(rest, x, k - 1);
    }
}

/// Puts the files that were changed last in front.
pub fn sort_recent_first(files: Vec<RolloutFile>) -> (r: Vec<RolloutFile>)
    ensures
        r.deep_view() == recent_first(files.deep_view()),
{
    let ghost all = files.deep_view();
    let mut rest = files;
    let mut out: Vec<RolloutFile> = Vec::new();
    let mut done: Ghost<int> = Ghost(0);
    assert(all.take(0) =~= Seq::empty());
    assert(out.deep_view() =~= seq![]);
    while rest.len() > 0
        invariant
            done@ >= 0,
            done@ + rest@.len() == all.len(),
            forall|j: int| 0 <= j < rest@.len() ==> (#[trigger] rest@[j])@ == all[done@ + j],
            out.deep_view() == recent_first(all.take(done@)),
        decreases rest@.len(),
    {
        let ghost before = out.deep_view();
        let ghost held = rest@;
        let file = rest.remove(0);
        assert(held[0]@ == all[done@]);
        assert(file@ == all[done@]);
        let mut k: usize = 0;
        while k < out.len() && !is_no_later(&out[k], &file)
            invariant
                k <= out@.len(),
                out.deep_view() == before,
                forall|j: int| 0 <= j < k ==> !no_later(#[trigger] before[j], file@),
            decreases out@.len() - k,
        {
            assert(before[k as int] == out@[k as int]@);
            k = k + 1;
        }
        proof {
            if k < before.len() {
                assert(before[k as int] == out@[k as int]@);
            }
            lemma_later_than(before, file@, k as int);
            assert(all.take(done@ + 1).drop_last() =~= all.take(done@));
            assert(all.take(done@ + 1).last() == file@);
        }
        out.insert(k, file);
        assert(out.deep_view() =~= before.insert(k as int, file@));
        proof {
            assert forall|j: int| 0 <= j < rest@.len() implies (#[trigger] rest@[j])@ == all[done@
                + 1 + j] by {
                assert(rest@[j] == held[j + 1]);
            }
            done@ = done@ + 1;
        }
    }
    assert(all.take(done@) =~= all);
    out
}

/// Whether a record mentions a thread, and the turn where one is given.
pub open spec fn mentions(raw: Seq<char>, thread_id: Seq<char>, turn_id: Option<Seq<char>>) -> bool {
    (turn_id matches Some(turn) ==> contains(raw, turn)) && contains(raw, thread_id)
}

/// Whether a record that could be read mentions a thread.
pub fn rollout_matches_thread(raw: Option<&str>, thread_id: &str, turn_id: Option<&str>) -> (r: bool)
    ensures
        r == (raw matches Some(text) && mentions(text@, thread_id@, turn_id.deep_view())),
{
    let raw = match raw {
        Some(raw) => raw,
        None => {
            return false;
        },
    };
    if let Some(turn) = turn_id {
        if !contains_text(raw, turn) {
            return false;
        }
    }
    contains_text(raw, thread_id)
}

/// Where the search for the record of a thread stands.
#[derive(Debug, PartialEq, Eq)]
pub enum SearchStep {
    /// The file at this place has to be read.
    Read(usize),
    Found(String),
    NotFound,
}

/// What a `SearchStep` stands for.
pub enum SearchView {
    Read(int),
    Found(Seq<char>),
    NotFound,
}

impl SearchStep {
    pub open spec fn view(&self) -> SearchView {
        match self {
            SearchStep::Read(i) => SearchView::Read(*i as int),
            SearchStep::Found(path) => SearchView::Found(path@),
            SearchStep::NotFound => SearchView::NotFound,
        }
    }
}

/// The first of the files read so far that mentions the thread; else the next one is read; else
/// the name of a file decides.
pub open spec fn search_step(
    paths: Seq<Seq<char>>,
    thread_id: Seq<char>,
    matched: Seq<bool>,
) -> SearchView {
    if matched.contains(true) && matched.index_of_first(true)->0 < paths.len() {
        SearchView::Found(paths[matched.index_of_first(true)->0])
    } else if matched.len() < paths.len() {
        SearchView::Read(matched.len() as int)
    } else {
        match first_named(paths, thread_id) {
            Some(path) => SearchView::Found(path),
            None => SearchView::NotFound,
        }
    }
}

/// Goes on with the search for the record of a thread among files with the most recent in front.
/// `matched` tells of those that were read whether they mention the thread.
pub fn find_recent_rollout_file_for_context_read(
    paths: &Vec<String>,
    thread_id: &str,
    matched: &Vec<bool>,
) -> (r: SearchStep)
    ensures
        r.view() == search_step(paths.deep_view(), thread_id@, matched@),
{
    let mut i: usize = 0;
    while i < matched.len()
        invariant
            i <= matched@.len(),
            forall|j: int| 0 <= j < i ==> !(#[trigger] matched@[j]),
        decreases matched@.len() - i,
    {
        if matched[i] {
            proof {
                assert(matched@[i as int] == true);
                assert(matched@.contains(true));
                matched@.index_of_first_ensures(true);
            }
            if i < paths.len() {
                return SearchStep::Found(paths[i].clone());
            } else if matched.len() < paths.len() {
                return SearchStep::Read(matched.len());
            } else {
                return match find_rollout_file_for_thread(paths, thread_id) {
                    Some(path) => SearchStep::Found(path),
                    None => SearchStep::NotFound,
                };
            }
        }
        i = i + 1;
    }
    assert(!matched@.contains(true));
    if matched.len() < paths.len() {
        return SearchStep::Read(matched.len());
    }
    match find_rollout_file_for_thread(paths, thread_id) {
        Some(path) => SearchStep::Found(path),
        None => SearchStep::NotFound,
    }
}

// What is in a record.

/// How much of its context a run has used, as an entry tells it.
pub open spec fn entry_usage(entry: JsonView) -> Option<JsonView> {
    match entry.get2("payload"@, "info"@) {
        None => None,
        Some(info) => {
            let root = or_else(
                info.get("last_token_usage"@),
                or_else(
                    info.get("lastTokenUsage"@),
                    or_else(info.get("total_token_usage"@), info.get("totalTokenUsage"@)),
                ),
            );
            let limit = or_else(
                info.get("model_context_window"@),
                info.get("modelContextWindow"@),
            );
            let used = match root {
                Some(root) => or_else(root.get("total_tokens"@), root.get("totalTokens"@)),
                None => None,
            };
            match (used, limit) {
                (Some(used), Some(limit)) => match (used.as_u64(), limit.as_u64()) {
                    (Some(used), Some(limit)) => Some(
                        JsonView::Object(
                            map!["tokensUsed"@ => number(used), "tokenLimit"@ => number(limit)],
                        ),
                    ),
                    _ => None,
                },
                _ => None,
            }
        },
    }
}

/// How much of its context a run has used, as an entry tells it.
pub fn extract_context_usage(entry: &Json) -> (r: Option<Json>)
    ensures
        r.deep_view() == entry_usage(entry@),
{
    let info = match entry.get2("payload", "info") {
        Some(info) => info,
        None => {
            return None;
        },
    };
    let root = if let Some(root) = info.get("last_token_usage") {
        root
    } else if let Some(root) = info.get("lastTokenUsage") {
        root
    } else if let Some(root) = info.get("total_token_usage") {
        root
    } else if let Some(root) = info.get("totalTokenUsage") {
        root
    } else {
        return None;
    };
    let limit = match info.get("model_context_window") {
        Some(limit) => limit.as_u64(),
        None => match info.get("modelContextWindow") {
            Some(limit) => limit.as_u64(),
            None => None,
        },
    };
    let used = match root.get("total_tokens") {
        Some(used) => used.as_u64(),
        None => match root.get("totalTokens") {
            Some(used) => used.as_u64(),
            None => None,
        },
    };
    match (used, limit) {
        (Some(used), Some(limit)) => {
            let mut out = JsonObject::new();
            out.insert("tokensUsed", Json::unsigned(used));
            out.insert("tokenLimit", Json::unsigned(limit));
            Some(Json::object(out))
        },
        _ => None,
    }
}

pub open spec fn line_usage(line: Seq<char>) -> Option<JsonView> {
    match json_parse(trimmed(line)) {
        Some(entry) => entry_usage(entry),
        None => None,
    }
}

pub fn extract_context_usage_from_rollout_line(raw_line: &str) -> (r: Option<Json>)
    ensures
        r.deep_view() == line_usage(raw_line@),
{
    match parse_json(trim(raw_line).as_str()) {
        Some(entry) => extract_context_usage(&entry),
        None => None,
    }
}

/// The last usage that the lines tell.
pub open spec fn last_usage(lines: Seq<Seq<char>>) -> Option<JsonView>
    decreases lines.len(),
{
    if lines.len() == 0 {
        None
    } else {
        or_else(line_usage(lines.last()), last_usage(lines.drop_last()))
    }
}

/// The last usage that a record tells.
pub fn read_latest_context_window_usage(raw: &str) -> (r: Option<Json>)
    ensures
        r.deep_view() == last_usage(lines(raw@)),
{
    let lines = lines_of(raw);
    let ghost all = lines.deep_view();
    let mut usage: Option<Json> = None;
    let mut i: usize = 0;
    assert(all.take(0) =~= Seq::empty());
    while i < lines.len()
        invariant
            i <= lines@.len(),
            all == lines.deep_view(),
            usage.deep_view() == last_usage(all.take(i as int)),
        decreases lines@.len() - i,
    {
        assert(all.take(i + 1).drop_last() =~= all.take(i as int));
        assert(all.take(i + 1).last() == lines@[i as int]@);
        if let Some(found) = extract_context_usage_from_rollout_line(lines[i].as_str()) {
            usage = Some(found);
        }
        i = i + 1;
    }
    assert(all.take(i as int) =~= all);
    usage
}

/// What the phone is told of the context of a thread.
pub open spec fn context_view(
    thread_id: Seq<char>,
    usage: Option<JsonView>,
    path: Option<Seq<char>>,
) -> JsonView {
    JsonView::Object(
        map![
            "threadId"@ => JsonView::Text(thread_id),
            "usage"@ => match usage {
                Some(usage) => usage,
                None => JsonView::Null,
            },
            "rolloutPath"@ => opt_text(path),
        ],
    )
}

/// What the phone is told of the context of a thread, given its record and where that is.
pub fn thread_context_read(thread_id: &str, raw: Option<&str>, path: Option<&str>) -> (r: Json)
    ensures
        r@ == context_view(
            thread_id@,
            match raw {
                Some(raw) => last_usage(lines(raw@)),
                None => None,
            },
            path.deep_view(),
        ),
{
    let usage = match raw {
        Some(raw) => read_latest_context_window_usage(raw),
        None => None,
    };
    let mut out = JsonObject::new();
    out.insert("threadId", Json::text(thread_id));
    out.insert(
        "usage",
        match usage {
            Some(usage) => usage,
            None => Json::Null,
        },
    );
    out.insert("rolloutPath", Json::opt_str(path));
    Json::object(out)
}

/// Whether an entry is the header of a session.
pub open spec fn is_header(entry: JsonView) -> bool {
    entry.get_str("type"@) == Some("session_meta"@)
}

/// The content of the first header on the lines.
pub open spec fn first_header(lines: Seq<Seq<char>>) -> Option<JsonView>
    decreases lines.len(),
{
    if lines.len() == 0 {
        None
    } else {
        match json_parse(trimmed(lines[0])) {
            Some(entry) => if is_header(entry) {
                entry.get("payload"@)
            } else {
                first_header(lines.skip(1))
            },
            None => first_header(lines.skip(1)),
        }
    }
}

/// The content of a header, where the entry is one and holds it.
pub fn header_payload(entry: &Json) -> (r: Option<Option<Json>>)
    ensures
        r is Some <==> is_header(entry@),
        r matches Some(payload) ==> payload.deep_view() == entry@.get("payload"@),
{
    let header = match entry.get_str("type") {
        Some(kind) => text_eq(kind, "session_meta"),
        None => false,
    };
    if !header {
        return None;
    }
    match entry.get("payload") {
        Some(payload) => Some(Some(payload.clone())),
        None => Some(None),
    }
}

/// The content of the header of a record.
pub fn read_thread_rollout_session_meta(raw: &str) -> (r: Option<Json>)
    ensures
        r.deep_view() == first_header(lines(raw@)),
{
    let lines = lines_of(raw);
    let ghost all = lines.deep_view();
    let mut i: usize = 0;
    assert(all.skip(0) =~= all);
    while i < lines.len()
        invariant
            i <= lines@.len(),
            all == lines.deep_view(),
            all == crate::text::lines(raw@),
            first_header(all) == first_header(all.skip(i as int)),
        decreases lines@.len() - i,
    {
        assert(all.skip(i as int)[0] == lines@[i as int]@);
        assert(all.skip(i as int).skip(1) =~= all.skip(i + 1));
        if let Some(entry) = parse_json(trim(lines[i].as_str()).as_str()) {
            if let Some(payload) = header_payload(&entry) {
                return payload;
            }
        }
        i = i + 1;
    }
    None
}

// Watching a record.

/// The thread to be watched: the one that was named, else the one that was active last.
pub fn watched_thread(thread_id: Option<&str>, last_active: Option<&str>) -> (r: Result<
    String,
    String,
>)
    ensures
        match or_else(thread_id.deep_view(), last_active.deep_view()) {
            Some(id) => r is Ok && r->Ok_0@ == id,
            None => r is Err && r->Err_0@
                == "No thread id provided and no remembered Remodex thread found."@,
        },
{
    match thread_id {
        Some(id) => Ok(id.to_owned()),
        None => match last_active {
            Some(id) => Ok(id.to_owned()),
            None => Err(
                "No thread id provided and no remembered Remodex thread found.".to_owned(),
            ),
        },
    }
}

/// What is printed when a record starts to be watched, or why it is not.
pub fn watch_thread_rollout(thread_id: &str, path: Option<&str>) -> (r: Result<Vec<String>, String>)
    ensures
        match path {
            Some(path) => r is Ok && r->Ok_0.deep_view() == seq![
                "[remodex] Watching thread "@ + thread_id@,
                "[remodex] Rollout file: "@ + path@,
                "[remodex] Waiting for new persisted events... (Ctrl+C to stop)"@,
            ],
            None => r is Err && r->Err_0@ == "No rollout file found for thread "@ + thread_id@
                + "."@,
        },
{
    match path {
        Some(path) => {
            let out = vec![
                concat2("[remodex] Watching thread ", thread_id),
                concat2("[remodex] Rollout file: ", path),
                "[remodex] Waiting for new persisted events... (Ctrl+C to stop)".to_owned(),
            ];
            assert(out.deep_view() =~= seq![
                "[remodex] Watching thread "@ + thread_id@,
                "[remodex] Rollout file: "@ + path@,
                "[remodex] Waiting for new persisted events... (Ctrl+C to stop)"@,
            ]);
            Ok(out)
        },
        None => Err(concat3("No rollout file found for thread ", thread_id, ".")),
    }
}

/// The span of a watched record that is to be read, where it has grown: from where it was read to
/// last up to its size.
pub fn watch_step(offset: u64, size: u64) -> (r: Option<(u64, u64)>)
    ensures
        r == if size > offset {
            Some((offset, size))
        } else {
            None
        },
{
    if size > offset {
        Some((offset, size))
    } else {
        None
    }
}

// What holds of every search.

/// No file is lost when the files are put in order.
pub proof fn law_recent_first_keeps_files(files: Seq<FileView>)
    ensures
        recent_first(files).len() == files.len(),
        recent_first(files).to_multiset() == files.to_multiset(),
    decreases files.len(),
{
    broadcast use vstd::seq_lib::group_to_multiset_ensures;

    if files.len() > 0 {
        let last = files.last();
        let before = recent_first(files.drop_last());
        law_recent_first_keeps_files(files.drop_last());
        lemma_later_bounded(before, last);
        assert(files =~= files.drop_last().push(last));
        assert(before.insert(later_than(before, last) as int, last).to_multiset()
            =~= before.to_multiset().insert(last));
        assert(files.drop_last().push(last).to_multiset()
            =~= files.drop_last().to_multiset().insert(last));
    } else {
        assert(files =~= seq![]);
    }
}

proof fn lemma_later_bounded(s: Seq<FileView>, x: FileView)
    ensures
        later_than(s, x) <= s.len(),
        forall|j: int| 0 <= j < later_than(s, x) ==> !no_later(#[trigger] s[j], x),
        later_than(s, x) < s.len() ==> no_later(s[later_than(s, x) as int], x),
    decreases s.len(),
{
    if s.len() > 0 && !no_later(s[0], x) {
        let rest = s.skip(1);
        lemma_later_bounded(rest, x);
        assert forall|j: int| 0 <= j < later_than(s, x) implies !no_later(#[trigger] s[j], x) by {
            if j > 0 {
                assert(s[j] == rest[j - 1]);
            }
        }
    }
}

/// A file never comes behind one that was changed earlier.
pub proof fn law_recent_first_is_ordered(files: Seq<FileView>)
    ensures
        forall|i: int, j: int|
            0 <= i < j < recent_first(files).len() ==> no_later(
                #[trigger] recent_first(files)[j],
                #[trigger] recent_first(files)[i],
            ),
    decreases files.len(),
{
    if files.len() > 0 {
        let x = files.last();
        let s = recent_first(files.drop_last());
        law_recent_first_is_ordered(files.drop_last());
        lemma_later_bounded(s, x);
        let k = later_than(s, x) as int;
        let t = recent_first(files);
        assert(t == s.insert(k, x));
        assert forall|i: int, j: int| 0 <= i < j < t.len() implies no_later(
            #[trigger] t[j],
            #[trigger] t[i],
        ) by {
            if j < k {
                assert(t[i] == s[i] && t[j] == s[j]);
            } else if j == k {
                assert(t[i] == s[i]);
                assert(!no_later(s[i], x));
            } else if i < k {
                assert(t[i] == s[i] && t[j] == s[j - 1]);
            } else if i == k {
                assert(t[j] == s[j - 1]);
                if j - 1 > k {
                    assert(no_later(s[j - 1], s[k]));
                }
            } else {
                assert(t[i] == s[i - 1] && t[j] == s[j - 1]);
            }
        }
    }
}

} // verus!
