//! Work that alternates with the outside world.
//!
//! A script is a computation that asks for one action after another: run a git command, look at
//! a path, write a file. It is given the replies to the actions that it asked for so far, and
//! either asks for one more or is done. The caller performs the action, adds the reply and runs
//! the script again; the replies alone decide how it goes on.
use vstd::prelude::*;

use crate::path::{components, same_path};

verus! {

/// What can be asked for.
#[derive(Debug, PartialEq, Eq)]
pub enum Action {
    /// Run git. With `lenient`, the exit code 1 is a success too. The reply is the output, or
    /// what went wrong.
    Git { cwd: String, args: Vec<String>, lenient: bool },
    /// Run git for its exit status. The reply is `0` for success or `1` for failure, and behind
    /// it what git printed; it is an error where git could not be run.
    GitApply { cwd: String, args: Vec<String> },
    /// Open a URL with an application. The reply is as for `GitApply`.
    Open { bundle_id: String, url: String },
    /// Keep other requests from changing a repository until this one is answered.
    LockRepo(String),
    /// The canonical form of a path.
    Canonicalize(String),
    /// Whether there is a directory: a reply that is no error says yes.
    IsDir(String),
    /// Whether there is anything: a reply that is no error says yes.
    Exists(String),
    /// Make a directory and those above it.
    CreateDirs(String),
    /// Remove a directory and what is in it.
    RemoveTree(String),
    WriteFile { path: String, contents: String },
    RemoveFile(String),
    /// A random identifier of 32 hexadecimal digits.
    FreshToken,
    /// The directory for temporary files.
    TempDir,
    /// The directory in which Codex keeps its files.
    CodexHome,
}

/// What an `Action` stands for.
pub enum ActionView {
    Git { cwd: Seq<char>, args: Seq<Seq<char>>, lenient: bool },
    GitApply { cwd: Seq<char>, args: Seq<Seq<char>> },
    Open { bundle_id: Seq<char>, url: Seq<char> },
    LockRepo(Seq<char>),
    Canonicalize(Seq<char>),
    IsDir(Seq<char>),
    Exists(Seq<char>),
    CreateDirs(Seq<char>),
    RemoveTree(Seq<char>),
    WriteFile { path: Seq<char>, contents: Seq<char> },
    RemoveFile(Seq<char>),
    FreshToken,
    TempDir,
    CodexHome,
}

impl Action {
    pub open spec fn view(&self) -> ActionView {
        match self {
            Action::Git { cwd, args, lenient } => ActionView::Git {
                cwd: cwd@,
                args: args.deep_view(),
                lenient: *lenient,
            },
            Action::GitApply { cwd, args } => ActionView::GitApply {
                cwd: cwd@,
                args: args.deep_view(),
            },
            Action::Open { bundle_id, url } => ActionView::Open {
                bundle_id: bundle_id@,
                url: url@,
            },
            Action::LockRepo(path) => ActionView::LockRepo(path@),
            Action::Canonicalize(path) => ActionView::Canonicalize(path@),
            Action::IsDir(path) => ActionView::IsDir(path@),
            Action::Exists(path) => ActionView::Exists(path@),
            Action::CreateDirs(path) => ActionView::CreateDirs(path@),
            Action::RemoveTree(path) => ActionView::RemoveTree(path@),
            Action::WriteFile { path, contents } => ActionView::WriteFile {
                path: path@,
                contents: contents@,
            },
            Action::RemoveFile(path) => ActionView::RemoveFile(path@),
            Action::FreshToken => ActionView::FreshToken,
            Action::TempDir => ActionView::TempDir,
            Action::CodexHome => ActionView::CodexHome,
        }
    }
}

/// What came back, or what went wrong.
pub type Reply = Result<Seq<char>, Seq<char>>;

pub open spec fn reply_of(r: Result<String, String>) -> Reply {
    match r {
        Ok(s) => Ok(s@),
        Err(e) => Err(e@),
    }
}

pub open spec fn replies_of(replies: Seq<Result<String, String>>) -> Seq<Reply> {
    replies.map_values(|r: Result<String, String>| reply_of(r))
}

/// A script that was run: it asks for an action, or it got somewhere, with the replies that it
/// has not used.
pub enum Run<T> {
    Ask(ActionView),
    Got(T, Seq<Reply>),
}

/// Asks for an action, unless the reply is there.
pub open spec fn ask(action: ActionView, rest: Seq<Reply>) -> Run<Reply> {
    if rest.len() == 0 {
        Run::Ask(action)
    } else {
        Run::Got(rest[0], rest.skip(1))
    }
}

/// Goes on with what a script got.
pub open spec fn bind<T, U>(run: Run<T>, next: spec_fn(T, Seq<Reply>) -> Run<U>) -> Run<U> {
    match run {
        Run::Ask(action) => Run::Ask(action),
        Run::Got(value, rest) => next(value, rest),
    }
}

/// Goes on with what a script got, unless it failed.
pub open spec fn try_bind<T, U>(
    run: Run<Result<T, Seq<char>>>,
    next: spec_fn(T, Seq<Reply>) -> Run<Result<U, Seq<char>>>,
) -> Run<Result<U, Seq<char>>> {
    match run {
        Run::Ask(action) => Run::Ask(action),
        Run::Got(Ok(value), rest) => next(value, rest),
        Run::Got(Err(error), rest) => Run::Got(Err(error), rest),
    }
}

/// The replies to a script, and what it asks for.
pub struct Script {
    replies: Vec<Result<String, String>>,
    at: usize,
    asked: Option<Action>,
}

/// What a `Script` stands for: the replies that were not used, and what it asks for.
pub struct ScriptView {
    pub rest: Seq<Reply>,
    pub asked: Option<ActionView>,
}

impl View for Script {
    type V = ScriptView;

    closed spec fn view(&self) -> ScriptView {
        ScriptView {
            rest: replies_of(self.replies@).skip(self.at as int),
            asked: match self.asked {
                Some(action) => Some(action.view()),
                None => None,
            },
        }
    }
}

/// Whether running a script led to the given result: nothing where it asks for an action.
pub open spec fn ran<T>(run: Run<T>, result: Option<T>, after: ScriptView) -> bool {
    match result {
        Some(value) => run == Run::Got(value, after.rest),
        None => run matches Run::Ask(action) && after.asked == Some(action),
    }
}

/// The view of a result of texts.
pub open spec fn text_result(r: Option<Result<String, String>>) -> Option<Reply> {
    match r {
        Some(reply) => Some(reply_of(reply)),
        None => None,
    }
}

impl Script {
    pub closed spec fn wf(&self) -> bool {
        self.at <= self.replies@.len()
    }

    pub fn new(replies: Vec<Result<String, String>>) -> (r: Script)
        ensures
            r.wf(),
            r@ == (ScriptView { rest: replies_of(replies@), asked: None }),
    {
        let r = Script { replies, at: 0, asked: None };
        assert(r@.rest =~= replies_of(replies@));
        r
    }

    /// Asks for an action, unless the reply is there.
    pub fn ask(&mut self, action: Action) -> (r: Option<Result<String, String>>)
        requires
            old(self).wf(),
        ensures
            final(self).wf(),
            ran(ask(action.view(), old(self)@.rest), text_result(r), final(self)@),
    {
        if self.at < self.replies.len() {
            let reply = match &self.replies[self.at] {
                Ok(s) => Ok(s.clone()),
                Err(e) => Err(e.clone()),
            };
            let ghost before = self@.rest;
            assert(before[0] == reply_of(self.replies@[self.at as int]));
            self.at = self.at + 1;
            assert(self@.rest =~= before.skip(1));
            Some(reply)
        } else {
            self.asked = Some(action);
            None
        }
    }

    /// What the script asks for.
    pub fn into_asked(self) -> (r: Option<Action>)
        ensures
            match r {
                Some(action) => self@.asked == Some(action.view()),
                None => self@.asked is None,
            },
    {
        self.asked
    }

    /// Runs git.
    pub fn git(&mut self, cwd: &str, args: Vec<String>) -> (r: Option<Result<String, String>>)
        requires
            old(self).wf(),
        ensures
            final(self).wf(),
            ran(git(cwd@, args.deep_view(), old(self)@.rest), text_result(r), final(self)@),
    {
        self.ask(Action::Git { cwd: cwd.to_owned(), args, lenient: false })
    }

    /// Runs git, with the exit code 1 as a success.
    pub fn git_lenient(&mut self, cwd: &str, args: Vec<String>) -> (r: Option<
        Result<String, String>,
    >)
        requires
            old(self).wf(),
        ensures
            final(self).wf(),
            ran(git_lenient(cwd@, args.deep_view(), old(self)@.rest), text_result(r), final(self)@),
    {
        self.ask(Action::Git { cwd: cwd.to_owned(), args, lenient: true })
    }

    /// The canonical form of a path, or the path itself where there is none.
    pub fn normalized_path(&mut self, path: &str) -> (r: Option<String>)
        requires
            old(self).wf(),
        ensures
            final(self).wf(),
            ran(normalized_path(path@, old(self)@.rest), r.deep_view(), final(self)@),
    {
        match self.ask(Action::Canonicalize(path.to_owned())) {
            Some(Ok(canonical)) => Some(canonical),
            Some(Err(_)) => Some(path.to_owned()),
            None => None,
        }
    }

    /// Whether two paths lead to the same place.
    pub fn same_file_path(&mut self, left: &str, right: &str) -> (r: Option<bool>)
        requires
            old(self).wf(),
        ensures
            final(self).wf(),
            ran(same_file_path(left@, right@, old(self)@.rest), r, final(self)@),
    {
        let a = match self.normalized_path(left) {
            Some(path) => path,
            None => {
                return None;
            },
        };
        let b = match self.normalized_path(right) {
            Some(path) => path,
            None => {
                return None;
            },
        };
        Some(same_path(a.as_str(), b.as_str()))
    }
}

pub open spec fn git(cwd: Seq<char>, args: Seq<Seq<char>>, rest: Seq<Reply>) -> Run<Reply> {
    ask(ActionView::Git { cwd, args, lenient: false }, rest)
}

pub open spec fn git_lenient(cwd: Seq<char>, args: Seq<Seq<char>>, rest: Seq<Reply>) -> Run<Reply> {
    ask(ActionView::Git { cwd, args, lenient: true }, rest)
}

/// The canonical form of a path, or the path itself where there is none.
pub open spec fn normalized_path(path: Seq<char>, rest: Seq<Reply>) -> Run<Seq<char>> {
    bind(
        ask(ActionView::Canonicalize(path), rest),
        |reply: Reply, rest: Seq<Reply>|
            Run::Got(
                match reply {
                    Ok(canonical) => canonical,
                    Err(_) => path,
                },
                rest,
            ),
    )
}

/// Whether two paths lead to the same place.
pub open spec fn same_file_path(left: Seq<char>, right: Seq<char>, rest: Seq<Reply>) -> Run<bool> {
    bind(
        normalized_path(left, rest),
        |a: Seq<char>, rest: Seq<Reply>|
            bind(
                normalized_path(right, rest),
                |b: Seq<char>, rest: Seq<Reply>|
                    Run::Got(components(a) == components(b), rest),
            ),
    )
}

/// The view of a result whose value is JSON.
pub open spec fn json_result(r: Option<Result<crate::json::Json, String>>) -> Option<
    Result<crate::json::JsonView, Seq<char>>,
> {
    match r {
        Some(Ok(json)) => Some(Ok(json@)),
        Some(Err(error)) => Some(Err(error@)),
        None => None,
    }
}

// Arguments of a command.

pub fn args2(a: &str, b: &str) -> (r: Vec<String>)
    ensures
        r.deep_view() == seq![a@, b@],
{
    let r = vec![a.to_owned(), b.to_owned()];
    assert(r.deep_view() =~= seq![a@, b@]);
    r
}

pub fn args3(a: &str, b: &str, c: &str) -> (r: Vec<String>)
    ensures
        r.deep_view() == seq![a@, b@, c@],
{
    let r = vec![a.to_owned(), b.to_owned(), c.to_owned()];
    assert(r.deep_view() =~= seq![a@, b@, c@]);
    r
}

pub fn args4(a: &str, b: &str, c: &str, d: &str) -> (r: Vec<String>)
    ensures
        r.deep_view() == seq![a@, b@, c@, d@],
{
    let r = vec![a.to_owned(), b.to_owned(), c.to_owned(), d.to_owned()];
    assert(r.deep_view() =~= seq![a@, b@, c@, d@]);
    r
}

pub fn args5(a: &str, b: &str, c: &str, d: &str, e: &str) -> (r: Vec<String>)
    ensures
        r.deep_view() == seq![a@, b@, c@, d@, e@],
{
    let r = vec![a.to_owned(), b.to_owned(), c.to_owned(), d.to_owned(), e.to_owned()];
    assert(r.deep_view() =~= seq![a@, b@, c@, d@, e@]);
    r
}

pub fn args6(a: &str, b: &str, c: &str, d: &str, e: &str, f: &str) -> (r: Vec<String>)
    ensures
        r.deep_view() == seq![a@, b@, c@, d@, e@, f@],
{
    let r = vec![
        a.to_owned(),
        b.to_owned(),
        c.to_owned(),
        d.to_owned(),
        e.to_owned(),
        f.to_owned(),
    ];
    assert(r.deep_view() =~= seq![a@, b@, c@, d@, e@, f@]);
    r
}

} // verus!
