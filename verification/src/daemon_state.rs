//! The files in which the bridge keeps what outlives it.
use vstd::prelude::*;

use crate::json::Json;
use crate::path::{is_absolute, join_path, path_join};
use crate::script::{Action, ActionView};
use crate::text::{blank, is_blank};

verus! {

/// Which program wrote a status.
#[derive(Debug)]
pub struct BridgeRuntimeMetadata {
    pub runtime_kind: String,
    pub runtime_source: String,
    pub runtime_executable: String,
}

/// The pairing code that is shown, and when it was made.
#[derive(Debug)]
pub struct PairingSession {
    pub created_at: String,
    pub pairing_payload: Json,
}

/// How the bridge is doing.
#[derive(Debug)]
pub struct BridgeStatus {
    pub state: String,
    pub connection_status: String,
    pub pid: u32,
    pub last_error: String,
    pub updated_at: String,
    pub runtime: BridgeRuntimeMetadata,
}

/// The directory of the files: the one that was set, else one in the home directory.
pub open spec fn state_dir(configured: Option<Seq<char>>, home: Seq<char>) -> Seq<char> {
    match configured {
        Some(path) => if is_blank(path) {
            path_join(home, ".remodex"@)
        } else {
            path
        },
        None => path_join(home, ".remodex"@),
    }
}

/// The directory of the files, given `REMODEX_DEVICE_STATE_DIR` and the home directory.
pub fn resolve_remodex_state_dir(configured: Option<&str>, home: &str) -> (r: String)
    ensures
        r@ == state_dir(configured.deep_view(), home@),
{
    match configured {
        Some(path) => {
            if !blank(path) {
                return path.to_owned();
            }
        },
        None => {},
    }
    join_path(home, ".remodex")
}

pub fn resolve_daemon_config_path(state_dir: &str) -> (r: String)
    ensures
        r@ == path_join(state_dir@, "daemon-config.json"@),
{
    join_path(state_dir, "daemon-config.json")
}

pub fn resolve_pairing_session_path(state_dir: &str) -> (r: String)
    ensures
        r@ == path_join(state_dir@, "pairing-session.json"@),
{
    join_path(state_dir, "pairing-session.json")
}

pub fn resolve_bridge_status_path(state_dir: &str) -> (r: String)
    ensures
        r@ == path_join(state_dir@, "bridge-status.json"@),
{
    join_path(state_dir, "bridge-status.json")
}

pub fn resolve_bridge_logs_dir(state_dir: &str) -> (r: String)
    ensures
        r@ == path_join(state_dir@, "logs"@),
{
    join_path(state_dir, "logs")
}

pub fn resolve_bridge_stdout_log_path(state_dir: &str) -> (r: String)
    ensures
        r@ == path_join(path_join(state_dir@, "logs"@), "bridge.stdout.log"@),
{
    join_path(resolve_bridge_logs_dir(state_dir).as_str(), "bridge.stdout.log")
}

pub fn resolve_bridge_stderr_log_path(state_dir: &str) -> (r: String)
    ensures
        r@ == path_join(path_join(state_dir@, "logs"@), "bridge.stderr.log"@),
{
    join_path(resolve_bridge_logs_dir(state_dir).as_str(), "bridge.stderr.log")
}

/// The file of the device state: the one that was set, else one in the directory that was set or
/// in the directory of the files.
pub open spec fn device_state_file(
    file: Option<Seq<char>>,
    dir: Option<Seq<char>>,
    state_dir: Seq<char>,
) -> Seq<char> {
    match file {
        Some(path) => path,
        None => path_join(
            match dir {
                Some(path) => path,
                None => state_dir,
            },
            "device-state.json"@,
        ),
    }
}

/// The file of the device state, given `REMODEX_DEVICE_STATE_FILE`, `REMODEX_DEVICE_STATE_DIR`
/// and the directory of the files.
pub fn resolve_store_file(file: Option<&str>, dir: Option<&str>, state_dir: &str) -> (r: String)
    ensures
        r@ == device_state_file(file.deep_view(), dir.deep_view(), state_dir@),
{
    match file {
        Some(path) => path.to_owned(),
        None => match dir {
            Some(path) => join_path(path, "device-state.json"),
            None => join_path(state_dir, "device-state.json"),
        },
    }
}

/// What there is to do to forget the pairing code.
pub fn clear_pairing_session(state_dir: &str) -> (r: Action)
    ensures
        r.view() == ActionView::RemoveFile(path_join(state_dir@, "pairing-session.json"@)),
{
    Action::RemoveFile(resolve_pairing_session_path(state_dir))
}

/// What there is to do to forget the status.
pub fn clear_bridge_status(state_dir: &str) -> (r: Action)
    ensures
        r.view() == ActionView::RemoveFile(path_join(state_dir@, "bridge-status.json"@)),
{
    Action::RemoveFile(resolve_bridge_status_path(state_dir))
}

/// The record of a pairing code.
pub fn write_pairing_session(pairing_payload: Json, created_at: String) -> (r: PairingSession)
    ensures
        r.created_at == created_at,
        r.pairing_payload == pairing_payload,
{
    PairingSession { created_at, pairing_payload }
}

/// The record of the status.
pub fn write_bridge_status(
    state: &str,
    connection_status: &str,
    pid: u32,
    last_error: &str,
    updated_at: String,
    runtime: BridgeRuntimeMetadata,
) -> (r: BridgeStatus)
    ensures
        r.state@ == state@,
        r.connection_status@ == connection_status@,
        r.pid == pid,
        r.last_error@ == last_error@,
        r.updated_at == updated_at,
        r.runtime == runtime,
{
    BridgeStatus {
        state: state.to_owned(),
        connection_status: connection_status.to_owned(),
        pid,
        last_error: last_error.to_owned(),
        updated_at,
        runtime,
    }
}

/// This program, given where its sources are and its executable where that is known.
pub fn current_bridge_runtime_metadata(source: &str, executable: Option<String>) -> (r:
    BridgeRuntimeMetadata)
    ensures
        r.runtime_kind@ == "rust"@,
        r.runtime_source@ == source@,
        r.runtime_executable@ == match executable {
            Some(path) => path@,
            None => Seq::empty(),
        },
{
    BridgeRuntimeMetadata {
        runtime_kind: "rust".to_owned(),
        runtime_source: source.to_owned(),
        runtime_executable: match executable {
            Some(path) => path,
            None => String::new(),
        },
    }
}

// What holds of the files.

/// The files behind an action on one of them, by their paths.
pub open spec fn files_behind(
    files: Map<Seq<char>, Seq<char>>,
    action: ActionView,
) -> Map<Seq<char>, Seq<char>> {
    match action {
        ActionView::RemoveFile(path) => files.remove(path),
        _ => files,
    }
}

proof fn lemma_joined_differ(dir: Seq<char>, a: Seq<char>, b: Seq<char>)
    requires
        !is_absolute(a),
        !is_absolute(b),
        a != b,
    ensures
        path_join(dir, a) != path_join(dir, b),
{
    reveal_strlit("/");
    let x = path_join(dir, a);
    let y = path_join(dir, b);
    if x == y {
        assert(x.skip(x.len() - a.len()) =~= a);
        assert(y.skip(y.len() - b.len()) =~= b);
    }
}

/// Forgetting the status, or the pairing code, removes its own file alone, whether or not it is
/// there; doing so again changes nothing.
pub proof fn law_forgetting_spares_the_other_files(
    files: Map<Seq<char>, Seq<char>>,
    state_dir: Seq<char>,
)
    ensures
        ({
            let config = path_join(state_dir, "daemon-config.json"@);
            let pairing = path_join(state_dir, "pairing-session.json"@);
            let status = path_join(state_dir, "bridge-status.json"@);
            let without_status = files_behind(files, ActionView::RemoveFile(status));
            let without_pairing = files_behind(files, ActionView::RemoveFile(pairing));
            &&& !without_status.dom().contains(status)
            &&& !without_pairing.dom().contains(pairing)
            &&& forall|path: Seq<char>|
                path != status ==> (#[trigger] without_status.dom().contains(path)
                    <==> files.dom().contains(path)) && without_status[path] == files[path]
            &&& forall|path: Seq<char>|
                path != pairing ==> (#[trigger] without_pairing.dom().contains(path)
                    <==> files.dom().contains(path)) && without_pairing[path] == files[path]
            &&& config != pairing && config != status && pairing != status
            &&& files_behind(without_status, ActionView::RemoveFile(status)) == without_status
            &&& files_behind(without_pairing, ActionView::RemoveFile(pairing)) == without_pairing
        }),
{
    reveal_strlit("/");
    reveal_strlit("daemon-config.json");
    reveal_strlit("pairing-session.json");
    reveal_strlit("bridge-status.json");
    assert("daemon-config.json"@[0] == 'd' && "pairing-session.json"@[0] == 'p'
        && "bridge-status.json"@[0] == 'b' && "/"@[0] == '/' && "/"@.len() == 1);
    assert forall|s: Seq<char>| s.len() > 0 && #[trigger] s[0] != '/' implies !is_absolute(s) by {
        if is_absolute(s) {
            assert(s.take(1)[0] == '/');
        }
    }
    lemma_joined_differ(state_dir, "daemon-config.json"@, "pairing-session.json"@);
    lemma_joined_differ(state_dir, "daemon-config.json"@, "bridge-status.json"@);
    lemma_joined_differ(state_dir, "pairing-session.json"@, "bridge-status.json"@);
    let pairing = path_join(state_dir, "pairing-session.json"@);
    let status = path_join(state_dir, "bridge-status.json"@);
    assert(files.remove(status).remove(status) =~= files.remove(status));
    assert(files.remove(pairing).remove(pairing) =~= files.remove(pairing));
}

} // verus!
