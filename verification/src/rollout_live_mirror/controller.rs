//! Which runs are mirrored, and how far.
//!
//! A mirror reads the record of a run as it grows. The caller looks the file up and reads it; a
//! `RolloutLook` is what it found, and `poll` says what follows from that.
use vstd::prelude::*;

use super::state::{
    desktop_origin, is_desktop_rollout_origin, meta_of, meta_view, read_session_meta, MetaView,
    MirrorState, MirrorView, SessionMeta,
};
use super::translate::{entry_read, synthesize_notifications_from_rollout_entry};
use crate::json::{json_parse, json_print, or_else, parse_json, print_json, Json, JsonView};
use crate::text::{
    concat2, find, is_blank, lemma_find, lines, lines_of, occurs_at, split, split_text, text_eq, trim,
    trimmed,
};

verus! {

/// How long the record of a run is looked for.
pub const LOOKUP_TIMEOUT_MS: u64 = 5_000;

/// How long a run is mirrored that does not go on.
pub const IDLE_TIMEOUT_MS: u64 = 60_000;

/// How much time has passed.
pub open spec fn elapsed(since_ms: u64, now_ms: u64) -> int {
    if now_ms >= since_ms {
        now_ms - since_ms
    } else {
        0
    }
}

fn elapsed_ms(since_ms: u64, now_ms: u64) -> (r: u64)
    ensures
        r == elapsed(since_ms, now_ms),
{
    if now_ms >= since_ms {
        now_ms - since_ms
    } else {
        0
    }
}

// Lines of a record.

/// What lines lead to: what is known behind them, and what the phone is told.
pub struct ToldTexts {
    pub state: MirrorView,
    pub texts: Seq<Seq<char>>,
}

/// The notifications as they are sent.
pub open spec fn printed(notes: Seq<JsonView>) -> Seq<Seq<char>> {
    notes.map_values(|note: JsonView| json_print(note))
}

/// An entry is read and told.
pub open spec fn entry_told(before: ToldTexts, entry: JsonView, thread_id: Seq<char>) -> ToldTexts {
    let told = entry_read(before.state, entry, thread_id);
    ToldTexts { state: told.state, texts: before.texts + printed(told.notes) }
}

/// A line is read and told; one that is no JSON counts for nothing.
pub open spec fn line_told(before: ToldTexts, line: Seq<char>, thread_id: Seq<char>) -> ToldTexts {
    if is_blank(line) {
        before
    } else {
        match json_parse(trimmed(line)) {
            Some(entry) => entry_told(before, entry, thread_id),
            None => before,
        }
    }
}

pub open spec fn lines_told(
    state: MirrorView,
    lines: Seq<Seq<char>>,
    thread_id: Seq<char>,
) -> ToldTexts
    decreases lines.len(),
{
    if lines.len() == 0 {
        ToldTexts { state, texts: seq![] }
    } else {
        line_told(lines_told(state, lines.drop_last(), thread_id), lines.last(), thread_id)
    }
}

/// Reads an entry and adds what the phone is told.
pub fn process_rollout_entry(
    entry: &Json,
    state: &mut MirrorState,
    thread_id: &str,
    texts: &mut Vec<String>,
)
    ensures
        (ToldTexts { state: final(state)@, texts: final(texts).deep_view() }) == entry_told(
            ToldTexts { state: old(state)@, texts: old(texts).deep_view() },
            entry@,
            thread_id@,
        ),
{
    let ghost before = texts.deep_view();
    let notes = synthesize_notifications_from_rollout_entry(entry, state, thread_id);
    let ghost all = notes.deep_view();
    let mut i: usize = 0;
    assert(printed(all.take(0)) =~= seq![]);
    assert(texts.deep_view() =~= before + printed(all.take(0)));
    while i < notes.len()
        invariant
            i <= notes@.len(),
            all == notes.deep_view(),
            texts.deep_view() == before + printed(all.take(i as int)),
        decreases notes@.len() - i,
    {
        let text = print_json(&notes[i]);
        let ghost held = texts.deep_view();
        texts.push(text);
        assert(texts.deep_view() =~= held.push(text@));
        assert(printed(all.take(i + 1)) =~= printed(all.take(i as int)).push(text@));
        i = i + 1;
    }
    assert(all.take(i as int) =~= all);
}

/// Reads lines; what the phone is told comes out.
pub fn process_rollout_lines(lines: &Vec<String>, state: &mut MirrorState, thread_id: &str) -> (r:
    Vec<String>)
    ensures
        (ToldTexts { state: final(state)@, texts: r.deep_view() }) == lines_told(
            old(state)@,
            lines.deep_view(),
            thread_id@,
        ),
{
    let ghost start = state@;
    let ghost all = lines.deep_view();
    let mut texts: Vec<String> = Vec::new();
    let mut i: usize = 0;
    assert(all.take(0) =~= Seq::empty());
    assert(texts.deep_view() =~= seq![]);
    while i < lines.len()
        invariant
            i <= lines@.len(),
            all == lines.deep_view(),
            (ToldTexts { state: state@, texts: texts.deep_view() }) == lines_told(
                start,
                all.take(i as int),
                thread_id@,
            ),
        decreases lines@.len() - i,
    {
        assert(all.take(i + 1).drop_last() =~= all.take(i as int));
        assert(all.take(i + 1).last() == lines@[i as int]@);
        let line = trim(lines[i].as_str());
        if !line.as_str().is_empty() {
            if let Some(entry) = parse_json(line.as_str()) {
                process_rollout_entry(&entry, state, thread_id, &mut texts);
            }
        }
        i = i + 1;
    }
    assert(all.take(i as int) =~= all);
    texts
}

// A record that is there already.

/// What was found in a record so far: its header, and the lines of the run that goes on.
pub struct BootView {
    pub meta: Option<MetaView>,
    pub inside: bool,
    pub turn: Option<Seq<char>>,
    pub prelude: Option<Seq<char>>,
    pub run: Seq<Seq<char>>,
}

/// The kind of event that an entry is.
pub open spec fn event_kind(entry: JsonView) -> Option<Seq<char>> {
    if entry.read("type"@) == Some("event_msg"@) {
        entry.read2("payload"@, "type"@)
    } else {
        None
    }
}

/// The lines with which a run starts: what the user said before it belongs to it.
pub open spec fn run_start(prelude: Option<Seq<char>>, line: Seq<char>) -> Seq<Seq<char>> {
    match prelude {
        Some(said) => seq![said, line],
        None => seq![line],
    }
}

pub open spec fn boot_entry(boot: BootView, line: Seq<char>, entry: JsonView) -> BootView {
    let event = event_kind(entry);
    let meta = if entry.read("type"@) == Some("session_meta"@) {
        match entry.get("payload"@) {
            Some(payload) => Some(meta_of(payload)),
            None => boot.meta,
        }
    } else {
        boot.meta
    };
    let prelude = if event == Some("user_message"@) {
        Some(line)
    } else {
        boot.prelude
    };
    if event == Some("task_started"@) {
        BootView {
            meta,
            inside: true,
            turn: or_else(
                entry.read2("payload"@, "turn_id"@),
                entry.read2("payload"@, "turnId"@),
            ),
            prelude,
            run: run_start(prelude, line),
        }
    } else if !boot.inside {
        BootView { meta, prelude, ..boot }
    } else if event == Some("task_complete"@) {
        BootView { meta, inside: false, turn: None, prelude: None, run: seq![] }
    } else {
        BootView { meta, prelude, run: boot.run.push(line), ..boot }
    }
}

pub open spec fn boot_line(boot: BootView, line: Seq<char>) -> BootView {
    if is_blank(line) {
        boot
    } else {
        match json_parse(trimmed(line)) {
            Some(entry) => boot_entry(boot, trimmed(line), entry),
            None => boot,
        }
    }
}

/// What the lines of a record hold, read from what is known already.
pub open spec fn boot_lines(meta: Option<MetaView>, lines: Seq<Seq<char>>) -> BootView
    decreases lines.len(),
{
    if lines.len() == 0 {
        BootView { meta, inside: false, turn: None, prelude: None, run: seq![] }
    } else {
        boot_line(boot_lines(meta, lines.drop_last()), lines.last())
    }
}

/// What was found in a record so far.
pub struct Boot {
    pub meta: Option<SessionMeta>,
    pub inside: bool,
    pub turn: Option<String>,
    pub prelude: Option<String>,
    pub run: Vec<String>,
}

impl Boot {
    pub open spec fn view(&self) -> BootView {
        BootView {
            meta: meta_view(self.meta),
            inside: self.inside,
            turn: self.turn.deep_view(),
            prelude: self.prelude.deep_view(),
            run: self.run.deep_view(),
        }
    }

    /// Takes an entry up.
    pub fn read_entry(&mut self, line: &str, entry: &Json)
        ensures
            final(self).view() == boot_entry(old(self).view(), line@, entry@),
    {
        let kind = entry.read("type");
        let (is_header, is_event) = match &kind {
            Some(kind) => (
                text_eq(kind.as_str(), "session_meta"),
                text_eq(kind.as_str(), "event_msg"),
            ),
            None => (false, false),
        };
        let ghost before = self.view();
        if is_header {
            if let Some(payload) = entry.get("payload") {
                self.meta = Some(read_session_meta(payload));
            }
        }
        let event = if is_event { entry.read2("payload", "type") } else { None };
        assert(event.deep_view() == event_kind(entry@));
        let (said, started, complete) = match &event {
            Some(event) => (
                text_eq(event.as_str(), "user_message"),
                text_eq(event.as_str(), "task_started"),
                text_eq(event.as_str(), "task_complete"),
            ),
            None => (false, false, false),
        };
        if said {
            self.prelude = Some(line.to_owned());
        }
        if started {
            self.inside = true;
            self.turn = match entry.read2("payload", "turn_id") {
                Some(id) => Some(id),
                None => entry.read2("payload", "turnId"),
            };
            let mut run: Vec<String> = Vec::new();
            if let Some(prelude) = &self.prelude {
                run.push(prelude.clone());
            }
            run.push(line.to_owned());
            assert(run.deep_view() =~= run_start(self.prelude.deep_view(), line@));
            self.run = run;
            return;
        }
        if !self.inside {
            return;
        }
        if complete {
            self.inside = false;
            self.turn = None;
            self.prelude = None;
            self.run = Vec::new();
            assert(self.run.deep_view() =~= seq![]);
            return;
        }
        self.run.push(line.to_owned());
        assert(self.run.deep_view() =~= before.run.push(line@));
    }
}

fn boot_from(meta: Option<SessionMeta>, raw: &str) -> (r: Boot)
    ensures
        r.view() == boot_lines(meta_view(meta), lines(raw@)),
{
    let ghost known = meta_view(meta);
    let lines = lines_of(raw);
    let ghost all = lines.deep_view();
    let mut boot = Boot { meta, inside: false, turn: None, prelude: None, run: Vec::new() };
    let mut i: usize = 0;
    assert(all.take(0) =~= Seq::empty());
    assert(boot.run.deep_view() =~= seq![]);
    while i < lines.len()
        invariant
            i <= lines@.len(),
            all == lines.deep_view(),
            boot.view() == boot_lines(known, all.take(i as int)),
        decreases lines@.len() - i,
    {
        assert(all.take(i + 1).drop_last() =~= all.take(i as int));
        assert(all.take(i + 1).last() == lines@[i as int]@);
        let line = trim(lines[i].as_str());
        if !line.as_str().is_empty() {
            if let Some(entry) = parse_json(line.as_str()) {
                boot.read_entry(line.as_str(), &entry);
            }
        }
        i = i + 1;
    }
    assert(all.take(i as int) =~= all);
    boot
}

/// A record is read for the first time: the run that goes on is told from its start.
pub open spec fn bootstrapped(state: MirrorView, raw: Seq<char>, thread_id: Seq<char>) -> ToldTexts {
    let boot = boot_lines(state.meta, lines(raw));
    let known = MirrorView { meta: boot.meta, ..state };
    if desktop_origin(boot.meta) {
        lines_told(
            MirrorView { desktop: Some(true), turn: boot.turn, ..known },
            boot.run,
            thread_id,
        )
    } else {
        ToldTexts { state: MirrorView { desktop: Some(false), ..known }, texts: seq![] }
    }
}

/// Reads a record for the first time.
pub fn bootstrap_from_existing_rollout(raw: &str, state: &mut MirrorState, thread_id: &str) -> (r:
    Vec<String>)
    ensures
        (ToldTexts { state: final(state)@, texts: r.deep_view() }) == bootstrapped(
            old(state)@,
            raw@,
            thread_id@,
        ),
{
    let mut meta: Option<SessionMeta> = None;
    std::mem::swap(&mut meta, &mut state.session_meta);
    let boot = boot_from(meta, raw);
    state.session_meta = boot.meta;
    if !is_desktop_rollout_origin(&state.session_meta) {
        state.is_desktop_origin = Some(false);
        let none: Vec<String> = Vec::new();
        assert(none.deep_view() =~= seq![]);
        return none;
    }
    state.is_desktop_origin = Some(true);
    state.active_turn_id = boot.turn;
    process_rollout_lines(&boot.run, state, thread_id)
}

// Mirrors.

/// The mirror of one run.
pub struct ThreadRolloutMirror {
    pub thread_id: String,
    pub started_at_ms: u64,
    pub last_activity_ms: u64,
    pub rollout_path: Option<String>,
    pub last_size: u64,
    pub partial_line: String,
    pub did_bootstrap: bool,
    pub state: MirrorState,
}

/// What a `ThreadRolloutMirror` stands for.
pub struct ThreadView {
    pub thread_id: Seq<char>,
    pub started_at_ms: u64,
    pub last_activity_ms: u64,
    pub path: Option<Seq<char>>,
    pub last_size: u64,
    pub partial: Seq<char>,
    pub booted: bool,
    pub state: MirrorView,
}

impl View for ThreadRolloutMirror {
    type V = ThreadView;

    open spec fn view(&self) -> ThreadView {
        ThreadView {
            thread_id: self.thread_id@,
            started_at_ms: self.started_at_ms,
            last_activity_ms: self.last_activity_ms,
            path: self.rollout_path.deep_view(),
            last_size: self.last_size,
            partial: self.partial_line@,
            booted: self.did_bootstrap,
            state: self.state@,
        }
    }
}

/// What was found of a record.
pub enum RolloutLook {
    /// There is none.
    NoPath,
    /// It cannot be looked at.
    NoFile,
    /// Its size, and the text that was to be read, where it could be read.
    File { path: String, size: u64, text: Option<String> },
}

/// What a `RolloutLook` stands for.
pub enum LookView {
    NoPath,
    NoFile,
    File { path: Seq<char>, size: u64, text: Option<Seq<char>> },
}

impl RolloutLook {
    pub open spec fn view(&self) -> LookView {
        match self {
            RolloutLook::NoPath => LookView::NoPath,
            RolloutLook::NoFile => LookView::NoFile,
            RolloutLook::File { path, size, text } => LookView::File {
                path: path@,
                size: *size,
                text: text.deep_view(),
            },
        }
    }
}

/// What is to be read of a record.
#[derive(Debug, PartialEq, Eq)]
pub enum ReadPlan {
    Nothing,
    Whole,
    Slice { start: u64, end: u64 },
}

/// What a look leads to: the mirror behind it, whether it stays, and what the phone is told.
pub struct PollView {
    pub mirror: ThreadView,
    pub keep: bool,
    pub texts: Seq<Seq<char>>,
}

impl ThreadView {
    /// What holds of every mirror: a record that was read was found.
    pub open spec fn valid(self) -> bool {
        self.booted ==> self.path is Some
    }

    /// Whether the record was looked for long enough.
    pub open spec fn lookup_expired(self, now_ms: u64) -> bool {
        self.path is None && elapsed(self.started_at_ms, now_ms) >= LOOKUP_TIMEOUT_MS
    }

    /// What is to be read of a record of this size: all of it the first time, then what came.
    pub open spec fn read_plan(self, size: u64) -> ReadPlan {
        if !self.booted {
            ReadPlan::Whole
        } else if size > self.last_size {
            ReadPlan::Slice { start: self.last_size, end: size }
        } else {
            ReadPlan::Nothing
        }
    }

    /// The record is read for the first time.
    pub open spec fn booting(self, size: u64, text: Option<Seq<char>>, now_ms: u64) -> PollView {
        let seen = ThreadView {
            booted: true,
            last_size: size,
            last_activity_ms: now_ms,
            ..self
        };
        let told = match text {
            Some(raw) => bootstrapped(self.state, raw, self.thread_id),
            None => ToldTexts { state: self.state, texts: seq![] },
        };
        PollView {
            mirror: ThreadView { state: told.state, ..seen },
            keep: told.state.desktop != Some(false),
            texts: told.texts,
        }
    }

    /// The record has grown by a text. Its last line may not be complete yet.
    pub open spec fn growing(self, size: u64, text: Option<Seq<char>>, now_ms: u64) -> PollView {
        match text {
            None => PollView { mirror: self, keep: false, texts: seq![] },
            Some(chunk) => {
                let seen = ThreadView { last_size: size, last_activity_ms: now_ms, ..self };
                if chunk.len() == 0 {
                    PollView { mirror: seen, keep: true, texts: seq![] }
                } else {
                    let pieces = split(self.partial + chunk, "\n"@);
                    let told = lines_told(self.state, pieces.drop_last(), self.thread_id);
                    PollView {
                        mirror: ThreadView {
                            partial: pieces.last(),
                            state: told.state,
                            ..seen
                        },
                        keep: told.state.desktop != Some(false),
                        texts: told.texts,
                    }
                }
            },
        }
    }

    /// The record was looked at.
    pub open spec fn polled(self, now_ms: u64, look: LookView) -> PollView {
        if self.lookup_expired(now_ms) {
            PollView { mirror: self, keep: false, texts: seq![] }
        } else {
            match look {
                LookView::NoPath => PollView { mirror: self, keep: true, texts: seq![] },
                LookView::NoFile => PollView { mirror: self, keep: false, texts: seq![] },
                LookView::File { path, size, text } => {
                    let found = ThreadView { path: Some(path), ..self };
                    if !self.booted {
                        found.booting(size, text, now_ms)
                    } else if size > self.last_size {
                        found.growing(size, text, now_ms)
                    } else {
                        PollView {
                            mirror: found,
                            keep: elapsed(self.last_activity_ms, now_ms) < IDLE_TIMEOUT_MS,
                            texts: seq![],
                        }
                    }
                },
            }
        }
    }
}

/// A mirror that has read nothing.
pub open spec fn new_mirror(thread_id: Seq<char>, now_ms: u64) -> ThreadView {
    ThreadView {
        thread_id,
        started_at_ms: now_ms,
        last_activity_ms: now_ms,
        path: None,
        last_size: 0,
        partial: Seq::empty(),
        booted: false,
        state: MirrorView {
            meta: None,
            desktop: None,
            turn: None,
            reasoning: None,
            thinking: false,
            calls: Map::empty(),
        },
    }
}

impl ThreadRolloutMirror {
    pub fn new(thread_id: String, now_ms: u64) -> (r: ThreadRolloutMirror)
        ensures
            r@ == new_mirror(thread_id@, now_ms),
    {
        ThreadRolloutMirror {
            thread_id,
            started_at_ms: now_ms,
            last_activity_ms: now_ms,
            rollout_path: None,
            last_size: 0,
            partial_line: String::new(),
            did_bootstrap: false,
            state: MirrorState::new(),
        }
    }

    /// Whether the record was looked for long enough.
    pub fn lookup_expired(&self, now_ms: u64) -> (r: bool)
        ensures
            r == self@.lookup_expired(now_ms),
    {
        self.rollout_path.is_none() && elapsed_ms(self.started_at_ms, now_ms) >= LOOKUP_TIMEOUT_MS
    }

    /// What is to be read of a record of this size.
    pub fn read_plan(&self, size: u64) -> (r: ReadPlan)
        ensures
            r == self@.read_plan(size),
    {
        if !self.did_bootstrap {
            ReadPlan::Whole
        } else if size > self.last_size {
            ReadPlan::Slice { start: self.last_size, end: size }
        } else {
            ReadPlan::Nothing
        }
    }

    /// Takes up what was found of the record: whether the mirror stays, and what the phone is
    /// told.
    pub fn poll(&mut self, now_ms: u64, look: RolloutLook) -> (r: (bool, Vec<String>))
        ensures
            (PollView { mirror: final(self)@, keep: r.0, texts: r.1.deep_view() }) == old(
                self,
            )@.polled(now_ms, look.view()),
    {
        let none: Vec<String> = Vec::new();
        assert(none.deep_view() =~= seq![]);
        if self.lookup_expired(now_ms) {
            return (false, none);
        }
        let (path, size, text) = match look {
            RolloutLook::NoPath => {
                return (true, none);
            },
            RolloutLook::NoFile => {
                return (false, none);
            },
            RolloutLook::File { path, size, text } => (path, size, text),
        };
        self.rollout_path = Some(path);
        if !self.did_bootstrap {
            self.did_bootstrap = true;
            self.last_size = size;
            self.last_activity_ms = now_ms;
            let texts = match text {
                Some(raw) => bootstrap_from_existing_rollout(
                    raw.as_str(),
                    &mut self.state,
                    self.thread_id.as_str(),
                ),
                None => none,
            };
            return (self.is_wanted(), texts);
        }
        if size > self.last_size {
            let chunk = match text {
                Some(chunk) => chunk,
                None => {
                    return (false, none);
                },
            };
            self.last_size = size;
            self.last_activity_ms = now_ms;
            if chunk.as_str().is_empty() {
                return (true, none);
            }
            let combined = concat2(self.partial_line.as_str(), chunk.as_str());
            proof {
                reveal_strlit("\n");
                crate::text::lemma_join_split(combined@, "\n"@);
            }
            let mut pieces = split_text(combined.as_str(), "\n");
            let ghost all = pieces.deep_view();
            if let Some(last) = pieces.pop() {
                assert(last@ == all.last());
                self.partial_line = last;
            }
            assert(pieces.deep_view() =~= all.drop_last());
            let texts = process_rollout_lines(
                &pieces,
                &mut self.state,
                self.thread_id.as_str(),
            );
            return (self.is_wanted(), texts);
        }
        (elapsed_ms(self.last_activity_ms, now_ms) < IDLE_TIMEOUT_MS, none)
    }

    fn is_wanted(&self) -> (r: bool)
        ensures
            r == (self@.state.desktop != Some(false)),
    {
        match self.state.is_desktop_origin {
            Some(desktop) => desktop,
            None => true,
        }
    }
}

// All mirrors.

/// The runs that are mirrored, each once.
pub struct RolloutLiveMirrorController {
    mirrors: Vec<ThreadRolloutMirror>,
}

pub open spec fn mirrors_view(mirrors: Seq<ThreadRolloutMirror>) -> Seq<ThreadView> {
    mirrors.map_values(|mirror: ThreadRolloutMirror| mirror@)
}

pub open spec fn looks_view(looks: Seq<RolloutLook>) -> Seq<LookView> {
    looks.map_values(|look: RolloutLook| look.view())
}

/// Whether a thread is mirrored.
pub open spec fn is_mirrored(mirrors: Seq<ThreadView>, thread_id: Seq<char>) -> bool {
    exists|i: int| 0 <= i < mirrors.len() && (#[trigger] mirrors[i]).thread_id == thread_id
}

/// What holds of all mirrors: each is valid, and no thread is mirrored twice.
pub open spec fn mirrored_once(mirrors: Seq<ThreadView>) -> bool {
    &&& forall|i: int| 0 <= i < mirrors.len() ==> (#[trigger] mirrors[i]).valid()
    &&& forall|i: int, j: int|
        0 <= i < j < mirrors.len() ==> (#[trigger] mirrors[i]).thread_id != (
        #[trigger] mirrors[j]).thread_id
}

/// The thread that a request of the phone looks at.
pub open spec fn watched_thread(request: JsonView) -> Option<Seq<char>> {
    let method = request.read("method"@);
    if method == Some("thread/read"@) || method == Some("thread/resume"@) {
        or_else(request.read2("params"@, "threadId"@), request.read2("params"@, "thread_id"@))
    } else {
        None
    }
}

/// A thread that the phone looks at is mirrored from now on, or longer.
pub open spec fn observing(
    mirrors: Seq<ThreadView>,
    thread_id: Option<Seq<char>>,
    now_ms: u64,
) -> Seq<ThreadView> {
    match thread_id {
        None => mirrors,
        Some(id) => if is_mirrored(mirrors, id) {
            mirrors.map_values(
                |mirror: ThreadView|
                    if mirror.thread_id == id {
                        ThreadView { last_activity_ms: now_ms, ..mirror }
                    } else {
                        mirror
                    },
            )
        } else {
            mirrors.push(new_mirror(id, now_ms))
        },
    }
}

/// What all mirrors together lead to.
pub struct AllPolled {
    pub mirrors: Seq<ThreadView>,
    pub texts: Seq<Seq<char>>,
}

/// Every mirror takes up what was found of its record; those that are done go.
pub open spec fn all_polled(
    mirrors: Seq<ThreadView>,
    looks: Seq<LookView>,
    now_ms: u64,
) -> AllPolled
    decreases mirrors.len(),
{
    if mirrors.len() == 0 || looks.len() != mirrors.len() {
        AllPolled { mirrors: seq![], texts: seq![] }
    } else {
        let before = all_polled(mirrors.drop_last(), looks.drop_last(), now_ms);
        let last = mirrors.last().polled(now_ms, looks.last());
        AllPolled {
            mirrors: if last.keep {
                before.mirrors.push(last.mirror)
            } else {
                before.mirrors
            },
            texts: before.texts + last.texts,
        }
    }
}

impl RolloutLiveMirrorController {
    pub closed spec fn view(&self) -> Seq<ThreadView> {
        mirrors_view(self.mirrors@)
    }

    /// What holds of every controller.
    pub open spec fn wf(&self) -> bool {
        mirrored_once(self.view())
    }

    pub fn new() -> (r: RolloutLiveMirrorController)
        ensures
            r.wf(),
            r.view() == Seq::<ThreadView>::empty(),
    {
        let r = RolloutLiveMirrorController { mirrors: Vec::new() };
        assert(r.view() =~= Seq::empty());
        r
    }

    pub fn len(&self) -> (r: usize)
        ensures
            r == self.view().len(),
    {
        self.mirrors.len()
    }

    pub fn mirror(&self, i: usize) -> (r: &ThreadRolloutMirror)
        requires
            i < self.view().len(),
        ensures
            r@ == self.view()[i as int],
    {
        &self.mirrors[i]
    }

    /// A message of the phone comes in.
    pub fn observe_inbound(&mut self, raw_message: &str, now_ms: u64)
        requires
            old(self).wf(),
        ensures
            final(self).wf(),
            final(self).view() == observing(
                old(self).view(),
                match json_parse(raw_message@) {
                    Some(request) => watched_thread(request),
                    None => None,
                },
                now_ms,
            ),
    {
        if let Some(request) = parse_json(raw_message) {
            self.observe_request(&request, now_ms);
        }
    }

    /// A request of the phone comes in.
    pub fn observe_request(&mut self, request: &Json, now_ms: u64)
        requires
            old(self).wf(),
        ensures
            final(self).wf(),
            final(self).view() == observing(
                old(self).view(),
                watched_thread(request@),
                now_ms,
            ),
    {
        let watches = match request.read("method") {
            Some(method) => text_eq(method.as_str(), "thread/read") || text_eq(
                method.as_str(),
                "thread/resume",
            ),
            None => false,
        };
        if !watches {
            return;
        }
        let thread_id = match request.read2("params", "threadId") {
            Some(id) => id,
            None => match request.read2("params", "thread_id") {
                Some(id) => id,
                None => {
                    return;
                },
            },
        };
        let ghost before = self.view();
        proof {
            law_watched_threads_are_mirrored_once(before, Some(thread_id@), now_ms);
        }
        let mut found: bool = false;
        let mut i: usize = 0;
        while i < self.mirrors.len()
            invariant
                i <= self.mirrors@.len(),
                self.mirrors@.len() == before.len(),
                forall|j: int|
                    0 <= j < i ==> (#[trigger] self.mirrors@[j])@ == if before[j].thread_id
                        == thread_id@ {
                        ThreadView { last_activity_ms: now_ms, ..before[j] }
                    } else {
                        before[j]
                    },
                forall|j: int|
                    i <= j < before.len() ==> (#[trigger] self.mirrors@[j])@ == before[j],
                found == (exists|j: int|
                    0 <= j < i && (#[trigger] before[j]).thread_id == thread_id@),
            decreases self.mirrors@.len() - i,
        {
            assert(self.mirrors@[i as int]@ == before[i as int]);
            if text_eq(self.mirrors[i].thread_id.as_str(), thread_id.as_str()) {
                let mirror = &mut self.mirrors[i];
                mirror.last_activity_ms = now_ms;
                found = true;
            }
            i = i + 1;
        }
        if found {
            assert(self.view() =~= observing(before, Some(thread_id@), now_ms));
        } else {
            assert(self.view() =~= before);
            assert(!is_mirrored(before, thread_id@));
            self.mirrors.push(ThreadRolloutMirror::new(thread_id, now_ms));
            assert(self.view() =~= before.push(new_mirror(thread_id@, now_ms)));
        }
    }

    /// Every mirror takes up what was found of its record.
    pub fn poll_notifications(&mut self, looks: Vec<RolloutLook>, now_ms: u64) -> (r: Vec<String>)
        requires
            old(self).wf(),
            looks@.len() == old(self).view().len(),
        ensures
            final(self).wf(),
            (AllPolled { mirrors: final(self).view(), texts: r.deep_view() }) == all_polled(
                old(self).view(),
                looks_view(looks@),
                now_ms,
            ),
    {
        let ghost all = self.view();
        proof {
            law_polled_threads_are_mirrored_once(all, looks_view(looks@), now_ms);
        }
        let ghost seen = looks_view(looks@);
        let mut rest: Vec<ThreadRolloutMirror> = Vec::new();
        std::mem::swap(&mut rest, &mut self.mirrors);
        let mut looks = looks;
        let mut kept: Vec<ThreadRolloutMirror> = Vec::new();
        let mut texts: Vec<String> = Vec::new();
        let mut done: Ghost<int> = Ghost(0);
        proof {
            assert(mirrors_view(kept@) =~= seq![]);
            assert(texts.deep_view() =~= seq![]);
            assert(all.take(0) =~= Seq::empty());
        }
        while rest.len() > 0
            invariant
                done@ >= 0,
                done@ + rest@.len() == all.len(),
                looks@.len() == rest@.len(),
                seen.len() == all.len(),
                mirrors_view(rest@) =~= all.skip(done@),
                looks_view(looks@) =~= seen.skip(done@),
                (AllPolled { mirrors: mirrors_view(kept@), texts: texts.deep_view() })
                    == all_polled(all.take(done@), seen.take(done@), now_ms),
            decreases rest@.len(),
        {
            let ghost told = texts.deep_view();
            let ghost stay = mirrors_view(kept@);
            proof {
                assert(mirrors_view(rest@)[0] == all[done@]);
                assert(looks_view(looks@)[0] == seen[done@]);
                assert(all.take(done@ + 1).drop_last() =~= all.take(done@));
                assert(seen.take(done@ + 1).drop_last() =~= seen.take(done@));
            }
            let ghost held = rest@;
            let ghost shown = looks@;
            let mut mirror = rest.remove(0);
            let look = looks.remove(0);
            proof {
                assert forall|i: int| 0 <= i < rest@.len() implies mirrors_view(rest@)[i]
                    == all.skip(done@ + 1)[i] by {
                    assert(rest@[i] == held[i + 1]);
                    assert(mirrors_view(held)[i + 1] == all.skip(done@)[i + 1]);
                }
                assert(mirrors_view(rest@) =~= all.skip(done@ + 1));
                assert forall|i: int| 0 <= i < looks@.len() implies looks_view(looks@)[i]
                    == seen.skip(done@ + 1)[i] by {
                    assert(looks@[i] == shown[i + 1]);
                    assert(looks_view(shown)[i + 1] == seen.skip(done@)[i + 1]);
                }
                assert(looks_view(looks@) =~= seen.skip(done@ + 1));
            }
            let (keep, mut more) = mirror.poll(now_ms, look);
            let ghost added = more.deep_view();
            texts.append(&mut more);
            assert(texts.deep_view() =~= told + added);
            if keep {
                kept.push(mirror);
                assert(mirrors_view(kept@) =~= stay.push(mirror@));
            }
            proof {
                done@ = done@ + 1;
            }
        }
        assert(all.take(done@) =~= all);
        assert(seen.take(done@) =~= seen);
        self.mirrors = kept;
        texts
    }

    /// No run is mirrored any more.
    pub fn stop_all(&mut self)
        ensures
            final(self).wf(),
            final(self).view() == Seq::<ThreadView>::empty(),
    {
        self.mirrors = Vec::new();
        assert(self.view() =~= Seq::empty());
    }
}

// What holds of every mirror.

/// No thread is mirrored twice, however often the phone looks at it.
pub proof fn law_watched_threads_are_mirrored_once(
    mirrors: Seq<ThreadView>,
    thread_id: Option<Seq<char>>,
    now_ms: u64,
)
    requires
        mirrored_once(mirrors),
    ensures
        mirrored_once(observing(mirrors, thread_id, now_ms)),
        thread_id matches Some(id) ==> is_mirrored(observing(mirrors, thread_id, now_ms), id),
{
    let after = observing(mirrors, thread_id, now_ms);
    if let Some(id) = thread_id {
        if is_mirrored(mirrors, id) {
            let found = choose|i: int|
                0 <= i < mirrors.len() && (#[trigger] mirrors[i]).thread_id == id;
            assert(after[found].thread_id == id);
            assert forall|i: int| 0 <= i < after.len() implies (#[trigger] after[i]).valid()
                && after[i].thread_id == mirrors[i].thread_id by {
                assert(mirrors[i].valid());
            }
        } else {
            assert(after[mirrors.len() as int].thread_id == id);
        }
    }
}

/// No thread is mirrored twice behind a look at all records, and none that was not before.
pub proof fn law_polled_threads_are_mirrored_once(
    mirrors: Seq<ThreadView>,
    looks: Seq<LookView>,
    now_ms: u64,
)
    requires
        mirrored_once(mirrors),
    ensures
        mirrored_once(all_polled(mirrors, looks, now_ms).mirrors),
        forall|i: int|
            0 <= i < all_polled(mirrors, looks, now_ms).mirrors.len() ==> is_mirrored(
                mirrors,
                (#[trigger] all_polled(mirrors, looks, now_ms).mirrors[i]).thread_id,
            ),
    decreases mirrors.len(),
{
    if mirrors.len() > 0 && looks.len() == mirrors.len() {
        let rest = mirrors.drop_last();
        law_polled_threads_are_mirrored_once(rest, looks.drop_last(), now_ms);
        let before = all_polled(rest, looks.drop_last(), now_ms).mirrors;
        let after = all_polled(mirrors, looks, now_ms).mirrors;
        assert forall|i: int| 0 <= i < before.len() implies (
        #[trigger] before[i]).thread_id != mirrors.last().thread_id && is_mirrored(
            mirrors,
            before[i].thread_id,
        ) by {
            assert(is_mirrored(rest, before[i].thread_id));
            let j = choose|j: int|
                0 <= j < rest.len() && (#[trigger] rest[j]).thread_id == before[i].thread_id;
            assert(mirrors[j] == rest[j]);
        }
        assert(mirrors[mirrors.len() - 1].valid());
        assert(is_mirrored(mirrors, mirrors.last().thread_id)) by {
            assert(mirrors[mirrors.len() - 1].thread_id == mirrors.last().thread_id);
        }
    }
}

/// Of a session that was not started on the desktop the phone is told nothing, however many lines
/// of its record are read, and it stays such a session.
pub proof fn law_other_records_stay_silent(
    state: MirrorView,
    lines: Seq<Seq<char>>,
    thread_id: Seq<char>,
)
    requires
        state.desktop == Some(false),
    ensures
        lines_told(state, lines, thread_id).texts.len() == 0,
        lines_told(state, lines, thread_id).state.desktop == Some(false),
    decreases lines.len(),
{
    if lines.len() > 0 {
        law_other_records_stay_silent(state, lines.drop_last(), thread_id);
        let before = lines_told(state, lines.drop_last(), thread_id);
        if !is_blank(lines.last()) {
            if let Some(entry) = json_parse(trimmed(lines.last())) {
                super::translate::law_other_sessions_are_silent(before.state, entry, thread_id);
            }
        }
    }
}

/// A record of a session that was not started on the desktop tells the phone nothing, and its
/// mirror goes.
pub proof fn law_other_records_are_dropped(
    mirror: ThreadView,
    now_ms: u64,
    path: Seq<char>,
    size: u64,
    raw: Seq<char>,
)
    requires
        !mirror.booted,
        !mirror.lookup_expired(now_ms),
        !desktop_origin(boot_lines(mirror.state.meta, lines(raw)).meta),
    ensures
        ({
            let after = mirror.polled(now_ms, LookView::File { path, size, text: Some(raw) });
            !after.keep && after.texts.len() == 0
        }),
{
}

/// Nothing of a record is read twice: behind a look that was taken up, nothing is left to be read
/// of a record of the same size.
pub proof fn law_nothing_is_read_twice(
    mirror: ThreadView,
    now_ms: u64,
    path: Seq<char>,
    size: u64,
    text: Seq<char>,
)
    requires
        !mirror.lookup_expired(now_ms),
    ensures
        ({
            let after = mirror.polled(now_ms, LookView::File { path, size, text: Some(text) });
            after.mirror.read_plan(size) == ReadPlan::Nothing
        }),
{
}

/// A line counts once it is complete: what was read and what is kept back make up what came.
pub proof fn law_no_character_is_lost(partial: Seq<char>, chunk: Seq<char>)
    ensures
        ({
            let pieces = split(partial + chunk, "\n"@);
            crate::text::join(pieces, "\n"@) == partial + chunk && pieces.len() > 0
        }),
{
    reveal_strlit("\n");
    crate::text::lemma_join_split(partial + chunk, "\n"@);
}

proof fn lemma_split_of_two(a: Seq<char>, b: Seq<char>)
    ensures
        split(a, seq!['\n']).len() > 0,
        split(a + b, seq!['\n']) == split(a, seq!['\n']).drop_last() + split(
            split(a, seq!['\n']).last() + b,
            seq!['\n'],
        ),
    decreases a.len(),
{
    let sep = seq!['\n'];
    lemma_find(a, sep);
    match find(a, sep) {
        Some(i) => {
            let rest = a.skip(i + 1);
            lemma_split_of_two(rest, b);
            lemma_find(a + b, sep);
            assert((a + b).subrange(i, i + 1) =~= a.subrange(i, i + 1));
            assert(occurs_at(a + b, sep, i));
            let k = find(a + b, sep)->0;
            if k < i {
                assert((a + b).subrange(k, k + 1) =~= a.subrange(k, k + 1));
                assert(occurs_at(a, sep, k));
            }
            assert(k == i);
            assert((a + b).take(i) =~= a.take(i));
            assert((a + b).skip(i + 1) =~= rest + b);
            let pieces = split(rest, sep);
            assert(split(a, sep) =~= seq![a.take(i)] + pieces);
            assert((seq![a.take(i)] + pieces).drop_last() =~= seq![a.take(i)]
                + pieces.drop_last());
            let tail = split(pieces.last() + b, sep);
            assert(seq![a.take(i)] + (pieces.drop_last() + tail) =~= (seq![a.take(i)]
                + pieces.drop_last()) + tail);
        },
        None => {
            assert(seq![a].drop_last() =~= Seq::<Seq<char>>::empty());
            assert(Seq::<Seq<char>>::empty() + split(a + b, sep) =~= split(a + b, sep));
        },
    }
}

proof fn lemma_lines_of_two(
    state: MirrorView,
    a: Seq<Seq<char>>,
    b: Seq<Seq<char>>,
    thread_id: Seq<char>,
)
    ensures
        ({
            let first = lines_told(state, a, thread_id);
            let second = lines_told(first.state, b, thread_id);
            lines_told(state, a + b, thread_id) == (ToldTexts {
                state: second.state,
                texts: first.texts + second.texts,
            })
        }),
    decreases b.len(),
{
    let first = lines_told(state, a, thread_id);
    if b.len() == 0 {
        assert(a + b =~= a);
        assert(first.texts + Seq::<Seq<char>>::empty() =~= first.texts);
    } else {
        lemma_lines_of_two(state, a, b.drop_last(), thread_id);
        assert((a + b).drop_last() =~= a + b.drop_last());
        assert((a + b).last() == b.last());
        let held = lines_told(first.state, b.drop_last(), thread_id);
        if !is_blank(b.last()) {
            if let Some(entry) = json_parse(trimmed(b.last())) {
                let notes = printed(entry_read(held.state, entry, thread_id).notes);
                assert((first.texts + held.texts) + notes =~= first.texts + (held.texts
                    + notes));
            }
        }
    }
}

/// Two looks at a growing record tell what one look tells: wherever in a line the first one ends,
/// the phone is told the same in the same order, and the mirror is the same behind them.
pub proof fn law_two_looks_tell_what_one_tells(
    mirror: ThreadView,
    path: Seq<char>,
    first_size: u64,
    first_text: Seq<char>,
    first_ms: u64,
    size: u64,
    text: Seq<char>,
    now_ms: u64,
)
    requires
        mirror.valid(),
        mirror.booted,
        mirror.last_size < first_size < size,
    ensures
        ({
            let first = mirror.polled(
                first_ms,
                LookView::File { path, size: first_size, text: Some(first_text) },
            );
            let second = first.mirror.polled(
                now_ms,
                LookView::File { path, size, text: Some(text) },
            );
            let one = mirror.polled(
                now_ms,
                LookView::File { path, size, text: Some(first_text + text) },
            );
            &&& one.texts == first.texts + second.texts
            &&& one.mirror == second.mirror
            &&& first_text.len() > 0 && text.len() > 0 ==> (one.keep <==> first.keep && second.keep)
        }),
{
    reveal_strlit("\n");
    assert("\n"@ =~= seq!['\n']);
    let found = ThreadView { path: Some(path), ..mirror };
    let a = mirror.partial + first_text;
    let first = found.growing(first_size, Some(first_text), first_ms);
    assert(mirror.partial + (first_text + text) =~= a + text);
    if first_text.len() == 0 {
        assert(first_text + text =~= text);
        let second = first.mirror.growing(size, Some(text), now_ms);
        assert(seq![] + second.texts =~= second.texts);
    } else if text.len() == 0 {
        assert(first_text + text =~= first_text);
        assert(first.texts + Seq::<Seq<char>>::empty() =~= first.texts);
    } else {
        lemma_split_of_two(a, text);
        let pieces = split(a, "\n"@);
        let rest = split(pieces.last() + text, "\n"@);
        lemma_split_of_two(pieces.last() + text, Seq::empty());
        assert((pieces.drop_last() + rest).drop_last() =~= pieces.drop_last() + rest.drop_last());
        lemma_lines_of_two(mirror.state, pieces.drop_last(), rest.drop_last(), mirror.thread_id);
        if !first.keep {
            law_other_records_stay_silent(
                first.mirror.state,
                rest.drop_last(),
                mirror.thread_id,
            );
        }
    }
}

} // verus!
