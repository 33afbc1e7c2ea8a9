//! The thread that was active last.
use vstd::prelude::*;

use crate::path::{join_path, path_join};
use crate::text::{blank, concat2, is_blank};

verus! {

#[derive(Debug)]
pub struct SessionState {
    pub thread_id: String,
    pub source: Option<String>,
    pub updated_at: String,
}

/// The file in which the active thread is recorded.
pub fn state_file(state_dir: &str) -> (r: String)
    ensures
        r@ == path_join(state_dir@, "last-thread.json"@),
{
    join_path(state_dir, "last-thread.json")
}

/// The record of an active thread; a blank thread is not recorded.
pub fn remember_active_thread(thread_id: &str, source: &str, updated_at: String) -> (r: Option<
    SessionState,
>)
    ensures
        match r {
            Some(state) => !is_blank(thread_id@) && state.thread_id@ == thread_id@
                && state.source.deep_view() == Some(source@) && state.updated_at == updated_at,
            None => is_blank(thread_id@),
        },
{
    if blank(thread_id) {
        return None;
    }
    Some(
        SessionState {
            thread_id: thread_id.to_owned(),
            source: Some(source.to_owned()),
            updated_at,
        },
    )
}

/// The application to be opened.
pub open spec fn bundle(bundle_id: Option<Seq<char>>) -> Seq<char> {
    match bundle_id {
        Some(id) => id,
        None => "com.openai.codex"@,
    }
}

/// The application to be opened for the last active thread, and the URL that it is given.
pub fn open_last_active_thread(state: Option<&SessionState>, bundle_id: Option<&str>) -> (r: Result<
    (String, String),
    String,
>)
    ensures
        match r {
            Ok((application, url)) => state is Some && application@ == bundle(
                bundle_id.deep_view(),
            ) && url@ == "codex://threads/"@ + state->0.thread_id@,
            Err(error) => state is None && error@ == "No remembered Remodex thread found yet."@,
        },
{
    let state = match state {
        Some(state) => state,
        None => {
            return Err("No remembered Remodex thread found yet.".to_owned());
        },
    };
    let application = match bundle_id {
        Some(id) => id.to_owned(),
        None => "com.openai.codex".to_owned(),
    };
    Ok((application, concat2("codex://threads/", state.thread_id.as_str())))
}

/// What opening the last active thread came to.
pub fn opened_last_active_thread(state: SessionState, success: bool) -> (r: Result<
    SessionState,
    String,
>)
    ensures
        match r {
            Ok(opened) => success && opened == state,
            Err(error) => !success && error@
                == "Failed to open the last active Remodex thread on Mac."@,
        },
{
    if success {
        Ok(state)
    } else {
        Err("Failed to open the last active Remodex thread on Mac.".to_owned())
    }
}

} // verus!
