//! What is known of a run while it is mirrored.
use vstd::prelude::*;

use crate::json::{Json, JsonView};
use crate::keyed::Keyed;
use crate::text::{ascii_lower, concat3, contains, contains_text, to_ascii_lower};

verus! {

/// Who started a session, and where.
pub struct SessionMeta {
    pub originator: String,
    pub source: String,
    pub cwd: String,
}

/// What a `SessionMeta` stands for.
pub struct MetaView {
    pub originator: Seq<char>,
    pub source: Seq<char>,
    pub cwd: Seq<char>,
}

impl SessionMeta {
    pub open spec fn view(&self) -> MetaView {
        MetaView { originator: self.originator@, source: self.source@, cwd: self.cwd@ }
    }
}

/// A tool that was called and has not answered.
pub struct CommandCall {
    pub tool_name: String,
    pub command: String,
    pub cwd: String,
}

/// What a `CommandCall` stands for.
pub struct CallView {
    pub tool_name: Seq<char>,
    pub command: Seq<char>,
    pub cwd: Seq<char>,
}

impl CommandCall {
    pub open spec fn view(&self) -> CallView {
        CallView { tool_name: self.tool_name@, command: self.command@, cwd: self.cwd@ }
    }
}

/// What is known of a run.
pub struct MirrorState {
    pub session_meta: Option<SessionMeta>,
    pub is_desktop_origin: Option<bool>,
    pub active_turn_id: Option<String>,
    pub reasoning_item_id: Option<String>,
    pub has_thinking: bool,
    pub command_calls: Keyed<CommandCall>,
}

/// What a `MirrorState` stands for.
pub struct MirrorView {
    pub meta: Option<MetaView>,
    pub desktop: Option<bool>,
    pub turn: Option<Seq<char>>,
    pub reasoning: Option<Seq<char>>,
    pub thinking: bool,
    pub calls: Map<Seq<char>, CallView>,
}

/// The pending calls by what they stand for.
pub open spec fn calls_view(calls: Map<Seq<char>, CommandCall>) -> Map<Seq<char>, CallView> {
    Map::new(|id: Seq<char>| calls.dom().contains(id), |id: Seq<char>| calls[id].view())
}

pub open spec fn meta_view(meta: Option<SessionMeta>) -> Option<MetaView> {
    match meta {
        Some(meta) => Some(meta.view()),
        None => None,
    }
}

impl View for MirrorState {
    type V = MirrorView;

    open spec fn view(&self) -> MirrorView {
        MirrorView {
            meta: meta_view(self.session_meta),
            desktop: self.is_desktop_origin,
            turn: self.active_turn_id.deep_view(),
            reasoning: self.reasoning_item_id.deep_view(),
            thinking: self.has_thinking,
            calls: calls_view(self.command_calls.view()),
        }
    }
}

/// Whether a session was started on the desktop: its originator or its source says so, and the
/// originator is no phone.
pub open spec fn desktop_origin(meta: Option<MetaView>) -> bool {
    match meta {
        None => false,
        Some(meta) => {
            let originator = ascii_lower(meta.originator);
            let source = ascii_lower(meta.source);
            &&& originator.len() > 0 || source.len() > 0
            &&& !contains(originator, "mobile"@) && !contains(originator, "ios"@)
            &&& contains(originator, "desktop"@) || contains(originator, "vscode"@) || contains(
                source,
                "vscode"@,
            ) || contains(source, "desktop"@)
        },
    }
}

pub fn is_desktop_rollout_origin(session_meta: &Option<SessionMeta>) -> (r: bool)
    ensures
        r == desktop_origin(meta_view(*session_meta)),
{
    let meta = match session_meta {
        Some(meta) => meta,
        None => {
            return false;
        },
    };
    let originator = to_ascii_lower(meta.originator.as_str());
    let source = to_ascii_lower(meta.source.as_str());
    if originator.as_str().is_empty() && source.as_str().is_empty() {
        return false;
    }
    if contains_text(originator.as_str(), "mobile") || contains_text(originator.as_str(), "ios") {
        return false;
    }
    contains_text(originator.as_str(), "desktop") || contains_text(originator.as_str(), "vscode")
        || contains_text(source.as_str(), "vscode") || contains_text(source.as_str(), "desktop")
}

/// The identifier of the reasoning that is told of a turn.
pub open spec fn thinking_id(thread_id: Seq<char>, turn_id: Seq<char>) -> Seq<char> {
    "rollout-thinking:"@ + thread_id + ":"@ + turn_id
}

pub fn build_thinking_item_id(thread_id: &str, turn_id: &str) -> (r: String)
    ensures
        r@ == thinking_id(thread_id@, turn_id@),
{
    let mut id = concat3("rollout-thinking:", thread_id, ":");
    id.append(turn_id);
    id
}

/// What the header of a session says.
pub open spec fn meta_of(payload: JsonView) -> MetaView {
    MetaView {
        originator: payload.read_or_empty("originator"@),
        source: payload.read_or_empty("source"@),
        cwd: payload.read_or_empty("cwd"@),
    }
}

pub fn read_session_meta(payload: &Json) -> (r: SessionMeta)
    ensures
        r.view() == meta_of(payload@),
{
    SessionMeta {
        originator: payload.read_or_empty("originator"),
        source: payload.read_or_empty("source"),
        cwd: payload.read_or_empty("cwd"),
    }
}

impl MirrorView {
    /// A header was read; one without content says nothing.
    pub open spec fn with_meta(self, payload: Option<JsonView>) -> MirrorView {
        match payload {
            Some(payload) => MirrorView { meta: Some(meta_of(payload)), ..self },
            None => self,
        }
    }

    /// A turn starts.
    pub open spec fn turn_started(self, thread_id: Seq<char>, turn_id: Seq<char>) -> MirrorView {
        MirrorView {
            turn: Some(turn_id),
            reasoning: Some(thinking_id(thread_id, turn_id)),
            thinking: false,
            calls: Map::empty(),
            ..self
        }
    }

    /// The identifier of the reasoning of the current turn.
    pub open spec fn reasoning_id(self, thread_id: Seq<char>, turn_id: Seq<char>) -> Seq<char> {
        match self.reasoning {
            Some(id) => id,
            None => thinking_id(thread_id, turn_id),
        }
    }

    /// No turn goes on.
    pub open spec fn run_reset(self) -> MirrorView {
        MirrorView { turn: None, reasoning: None, thinking: false, calls: Map::empty(), ..self }
    }
}

impl MirrorState {
    pub fn new() -> (r: MirrorState)
        ensures
            r@ == (MirrorView {
                meta: None,
                desktop: None,
                turn: None,
                reasoning: None,
                thinking: false,
                calls: Map::empty(),
            }),
    {
        let r = MirrorState {
            session_meta: None,
            is_desktop_origin: None,
            active_turn_id: None,
            reasoning_item_id: None,
            has_thinking: false,
            command_calls: Keyed::new(),
        };
        assert(r@.calls =~= Map::empty());
        r
    }

    pub fn update_session_meta(&mut self, payload: Option<&Json>)
        ensures
            final(self)@ == old(self)@.with_meta(payload.deep_view()),
    {
        match payload {
            Some(payload) => {
                self.session_meta = Some(read_session_meta(payload));
            },
            None => {},
        }
    }

    pub fn mark_turn_started(&mut self, thread_id: &str, turn_id: &str)
        ensures
            final(self)@ == old(self)@.turn_started(thread_id@, turn_id@),
    {
        self.active_turn_id = Some(turn_id.to_owned());
        self.reasoning_item_id = Some(build_thinking_item_id(thread_id, turn_id));
        self.has_thinking = false;
        self.command_calls = Keyed::new();
        assert(self@.calls =~= Map::empty());
    }

    pub fn ensure_reasoning_item_id(&mut self, thread_id: &str, turn_id: &str) -> (r: String)
        ensures
            r@ == old(self)@.reasoning_id(thread_id@, turn_id@),
            final(self)@ == (MirrorView { reasoning: Some(r@), ..old(self)@ }),
    {
        match &self.reasoning_item_id {
            Some(id) => id.clone(),
            None => {
                let id = build_thinking_item_id(thread_id, turn_id);
                self.reasoning_item_id = Some(id.clone());
                id
            },
        }
    }

    pub fn reset_run_state(&mut self)
        ensures
            final(self)@ == old(self)@.run_reset(),
    {
        self.active_turn_id = None;
        self.reasoning_item_id = None;
        self.has_thinking = false;
        self.command_calls = Keyed::new();
        assert(self@.calls =~= Map::empty());
    }
}

} // verus!
