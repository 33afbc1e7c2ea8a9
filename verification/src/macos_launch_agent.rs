//! The bridge as a service of macOS.
use vstd::prelude::*;

use crate::daemon_state::{
    clear_bridge_status, clear_pairing_session, resolve_bridge_stderr_log_path,
    resolve_bridge_stdout_log_path, BridgeStatus, PairingSession,
};
use crate::json::or_else;
use crate::path::{join_path, path_join};
use crate::qr::{print_qr, qr_output};
use crate::script::{reply_of, Action, ActionView};
use crate::secure_device_state::reset_bridge_device_state;
use crate::text::{
    blank, char_pred, concat2, concat3, decimal, is_blank, join, join_texts, lines, lines_of,
    parse_bounded, parse_number, strip_prefix, text_eq, trim, trim_end_by, trim_end_char, trimmed,
    u64_text, without_prefix,
};

verus! {

/// The label of the service is `com.remodex.bridge`.
pub open spec fn service_label() -> Seq<char> {
    "com.remodex.bridge"@
}

/// What launchd says of the service.
#[derive(Debug, PartialEq, Eq)]
pub struct LaunchAgentStatus {
    pub pid: Option<u32>,
    pub program: String,
    pub arguments: Vec<String>,
}

/// What a `LaunchAgentStatus` stands for.
pub struct AgentView {
    pub pid: Option<u32>,
    pub program: Seq<char>,
    pub arguments: Seq<Seq<char>>,
}

/// The status of a service that is not loaded.
pub open spec fn no_agent() -> AgentView {
    AgentView { pid: None, program: Seq::empty(), arguments: Seq::empty() }
}

impl LaunchAgentStatus {
    pub open spec fn view(&self) -> AgentView {
        AgentView {
            pid: self.pid,
            program: self.program@,
            arguments: self.arguments.deep_view(),
        }
    }

    /// The status of a service that is not loaded.
    pub fn none() -> (r: LaunchAgentStatus)
        ensures
            r.view() == no_agent(),
    {
        let r = LaunchAgentStatus { pid: None, program: String::new(), arguments: Vec::new() };
        assert(r.arguments.deep_view() =~= Seq::empty());
        r
    }
}

/// What launchd runs.
#[derive(Debug, PartialEq, Eq)]
pub struct LaunchAgentTarget {
    pub program: String,
    pub arguments: Vec<String>,
}

/// What a `LaunchAgentTarget` stands for.
pub struct TargetView {
    pub program: Seq<char>,
    pub arguments: Seq<Seq<char>>,
}

impl LaunchAgentTarget {
    pub open spec fn view(&self) -> TargetView {
        TargetView { program: self.program@, arguments: self.arguments.deep_view() }
    }
}

// Whether the service can run.

/// Whether the service can be used here at all.
pub fn ensure_service_platform(is_macos: bool) -> (r: Result<(), String>)
    ensures
        match r {
            Ok(_) => is_macos,
            Err(error) => !is_macos && error@
                == "The macOS bridge service is only available on macOS."@,
        },
{
    if is_macos {
        Ok(())
    } else {
        Err("The macOS bridge service is only available on macOS.".to_owned())
    }
}

/// Whether a command can be used here.
pub fn ensure_macos(command: &str, is_macos: bool) -> (r: Result<(), String>)
    ensures
        match r {
            Ok(_) => is_macos,
            Err(error) => !is_macos && error@ == "[remodex] `"@ + command@
                + "` is only available on macOS. Use `remodex up` or `remodex run` for the foreground bridge on this OS."@,
        },
{
    if is_macos {
        Ok(())
    } else {
        Err(
            concat3(
                "[remodex] `",
                command,
                "` is only available on macOS. Use `remodex up` or `remodex run` for the foreground bridge on this OS.",
            ),
        )
    }
}

/// How the service starts.
#[derive(Debug, PartialEq, Eq)]
pub enum ServiceRun {
    /// Not at all.
    Refuse(String),
    /// It records this error and ends.
    Report(String),
    /// It starts the bridge.
    Start,
}

/// How the service starts, given where it is and its relay.
pub fn run_macos_bridge_service(is_macos: bool, relay_url: &str) -> (r: ServiceRun)
    ensures
        match r {
            ServiceRun::Refuse(error) => !is_macos && error@
                == "The macOS bridge service is only available on macOS."@,
            ServiceRun::Report(error) => is_macos && is_blank(relay_url@) && error@
                == "No relay URL configured for the macOS bridge service."@,
            ServiceRun::Start => is_macos && !is_blank(relay_url@),
        },
{
    match ensure_service_platform(is_macos) {
        Ok(_) => {},
        Err(error) => {
            return ServiceRun::Refuse(error);
        },
    }
    if blank(relay_url) {
        ServiceRun::Report("No relay URL configured for the macOS bridge service.".to_owned())
    } else {
        ServiceRun::Start
    }
}

/// Whether the service can be enabled, given where that is and its relay.
pub fn start_macos_bridge_service(is_macos: bool, relay_url: &str) -> (r: Result<(), String>)
    ensures
        match r {
            Ok(_) => is_macos && !is_blank(relay_url@),
            Err(error) => if is_macos {
                is_blank(relay_url@) && error@
                    == "No relay URL configured. Run ./run-local-remodex.sh or set REMODEX_RELAY before enabling the macOS bridge service."@
            } else {
                error@ == "The macOS bridge service is only available on macOS."@
            },
        },
{
    match ensure_service_platform(is_macos) {
        Ok(_) => {},
        Err(error) => {
            return Err(error);
        },
    }
    if blank(relay_url) {
        return Err(
            "No relay URL configured. Run ./run-local-remodex.sh or set REMODEX_RELAY before enabling the macOS bridge service.".to_owned(),
        );
    }
    Ok(())
}

/// What there is to do when the service stops: the pairing code and the status are forgotten.
pub fn stop_macos_bridge_service(is_macos: bool, state_dir: &str) -> (r: Result<
    Vec<Action>,
    String,
>)
    ensures
        match r {
            Ok(actions) => is_macos && actions_view(actions@) == stop_actions(state_dir@),
            Err(error) => !is_macos && error@
                == "The macOS bridge service is only available on macOS."@,
        },
{
    match ensure_service_platform(is_macos) {
        Ok(_) => {},
        Err(error) => {
            return Err(error);
        },
    }
    let actions = vec![clear_pairing_session(state_dir), clear_bridge_status(state_dir)];
    assert(actions_view(actions@) =~= stop_actions(state_dir@));
    Ok(actions)
}

/// What there is to do when the pairing is forgotten: the service stops, and the identity of the
/// bridge goes.
pub fn reset_macos_bridge_pairing(is_macos: bool, state_dir: &str, store_file: &str) -> (r: Result<
    Vec<Action>,
    String,
>)
    ensures
        match r {
            Ok(actions) => is_macos && actions_view(actions@) == stop_actions(state_dir@).push(
                ActionView::RemoveFile(store_file@),
            ),
            Err(error) => !is_macos && error@
                == "The macOS bridge service is only available on macOS."@,
        },
{
    let mut actions = match stop_macos_bridge_service(is_macos, state_dir) {
        Ok(actions) => actions,
        Err(error) => {
            return Err(error);
        },
    };
    actions.push(reset_bridge_device_state(store_file));
    assert(actions_view(actions@) =~= stop_actions(state_dir@).push(
        ActionView::RemoveFile(store_file@),
    ));
    Ok(actions)
}

pub open spec fn actions_view(actions: Seq<Action>) -> Seq<ActionView> {
    actions.map_values(|action: Action| action.view())
}

pub open spec fn stop_actions(state_dir: Seq<char>) -> Seq<ActionView> {
    seq![
        ActionView::RemoveFile(path_join(state_dir, "pairing-session.json"@)),
        ActionView::RemoveFile(path_join(state_dir, "bridge-status.json"@)),
    ]
}

/// What is printed for the pairing code of the service: the one that was just published, else the
/// one that is stored.
pub fn print_macos_bridge_pairing_qr(
    published: Option<&PairingSession>,
    stored: Option<&PairingSession>,
) -> (r: Result<String, String>)
    ensures
        reply_of(r) == match or_else(published, stored) {
            Some(session) => qr_output(session.pairing_payload@),
            None => Err("The macOS bridge service did not publish a pairing payload yet."@),
        },
{
    let session = match published {
        Some(session) => Some(session),
        None => stored,
    };
    match session {
        Some(session) => print_qr(&session.pairing_payload),
        None => Err(
            "The macOS bridge service did not publish a pairing payload yet.".to_owned(),
        ),
    }
}

/// Whether a pairing code of the service is still waited for.
pub fn waits_for_pairing(elapsed_ms: u64) -> (r: bool)
    ensures
        r == (elapsed_ms < 10_000),
{
    elapsed_ms < 10_000
}

// What launchd runs.

/// The program of the service: the one that runs, else one that was built, else `cargo`.
pub open spec fn agent_target(
    current_exe: Option<Seq<char>>,
    manifest_dir: Seq<char>,
    built: bool,
) -> TargetView {
    match current_exe {
        Some(program) => TargetView { program, arguments: seq!["run-service"@] },
        None => if built {
            TargetView {
                program: debug_binary(manifest_dir),
                arguments: seq!["run-service"@],
            }
        } else {
            TargetView {
                program: "cargo"@,
                arguments: seq![
                    "run"@,
                    "--manifest-path"@,
                    path_join(manifest_dir, "Cargo.toml"@),
                    "--bin"@,
                    "remodex"@,
                    "--"@,
                    "run-service"@,
                ],
            }
        },
    }
}

/// Where `cargo build` puts the program.
pub open spec fn debug_binary(manifest_dir: Seq<char>) -> Seq<char> {
    path_join(path_join(path_join(manifest_dir, "target"@), "debug"@), "remodex"@)
}

pub fn debug_binary_path(manifest_dir: &str) -> (r: String)
    ensures
        r@ == debug_binary(manifest_dir@),
{
    join_path(
        join_path(join_path(manifest_dir, "target").as_str(), "debug").as_str(),
        "remodex",
    )
}

/// The program of the service. `built` tells whether there is one at `debug_binary_path`.
pub fn resolve_launch_agent_target(
    current_exe: Option<String>,
    manifest_dir: &str,
    built: bool,
) -> (r: LaunchAgentTarget)
    ensures
        r.view() == agent_target(current_exe.deep_view(), manifest_dir@, built),
{
    match current_exe {
        Some(program) => {
            let arguments = vec!["run-service".to_owned()];
            assert(arguments.deep_view() =~= seq!["run-service"@]);
            LaunchAgentTarget { program, arguments }
        },
        None => {
            if built {
                let arguments = vec!["run-service".to_owned()];
                assert(arguments.deep_view() =~= seq!["run-service"@]);
                LaunchAgentTarget { program: debug_binary_path(manifest_dir), arguments }
            } else {
                let arguments = vec![
                    "run".to_owned(),
                    "--manifest-path".to_owned(),
                    join_path(manifest_dir, "Cargo.toml"),
                    "--bin".to_owned(),
                    "remodex".to_owned(),
                    "--".to_owned(),
                    "run-service".to_owned(),
                ];
                assert(arguments.deep_view() =~= agent_target(
                    None,
                    manifest_dir@,
                    built,
                ).arguments);
                LaunchAgentTarget { program: "cargo".to_owned(), arguments }
            }
        },
    }
}

pub open spec fn string_element(s: Seq<char>) -> Seq<char> {
    "<string>"@ + s + "</string>"@
}

/// The command line of the service in a property list.
pub open spec fn arguments_xml(target: TargetView) -> Seq<char> {
    join(
        (seq![target.program] + target.arguments).map_values(|s: Seq<char>| string_element(s)),
        "\n    "@,
    )
}

pub fn build_launch_agent_arguments_xml(target: &LaunchAgentTarget) -> (r: String)
    ensures
        r@ == arguments_xml(target.view()),
{
    let mut parts: Vec<String> = Vec::new();
    parts.push(concat3("<string>", target.program.as_str(), "</string>"));
    let mut i: usize = 0;
    while i < target.arguments.len()
        invariant
            i <= target.arguments@.len(),
            parts@.len() == i + 1,
            parts@[0]@ == string_element(target.program@),
            forall|j: int|
                1 <= j < parts@.len() ==> (#[trigger] parts@[j])@ == string_element(
                    target.arguments@[j - 1]@,
                ),
        decreases target.arguments@.len() - i,
    {
        parts.push(concat3("<string>", target.arguments[i].as_str(), "</string>"));
        i = i + 1;
    }
    assert(parts.deep_view() =~= (seq![target.view().program]
        + target.view().arguments).map_values(|s: Seq<char>| string_element(s)));
    join_texts(&parts, "\n    ")
}

/// Where the property list of the service lies.
pub open spec fn plist_path(home: Seq<char>) -> Seq<char> {
    path_join(
        path_join(path_join(home, "Library"@), "LaunchAgents"@),
        "com.remodex.bridge.plist"@,
    )
}

pub fn resolve_launch_agent_plist_path(home: &str) -> (r: String)
    ensures
        r@ == plist_path(home@),
{
    join_path(
        join_path(join_path(home, "Library").as_str(), "LaunchAgents").as_str(),
        "com.remodex.bridge.plist",
    )
}

/// What goes into the property list of the service.
pub struct PlistView {
    pub arguments: Seq<char>,
    pub home: Seq<char>,
    pub stdout_log: Seq<char>,
    pub stderr_log: Seq<char>,
    pub search_path: Seq<char>,
    pub state_dir: Seq<char>,
}

/// The property list of the service.
pub open spec fn plist(p: PlistView) -> Seq<char> {
    "<?xml version=\"1.0\" encoding=\"UTF-8\"?>\n<!DOCTYPE plist PUBLIC \"-//Apple//DTD PLIST 1.0//EN\" \"http://www.apple.com/DTDs/PropertyList-1.0.dtd\">\n<plist version=\"1.0\">\n<dict>\n  <key>Label</key>\n  <string>"@
        + service_label()
        + "</string>\n  <key>ProgramArguments</key>\n  <array>\n    "@ + p.arguments
        + "\n  </array>\n  <key>RunAtLoad</key>\n  <true/>\n  <key>KeepAlive</key>\n  <dict>\n    <key>SuccessfulExit</key>\n    <false/>\n  </dict>\n  <key>WorkingDirectory</key>\n  <string>"@
        + p.home + "</string>\n  <key>StandardOutPath</key>\n  <string>"@ + p.stdout_log
        + "</string>\n  <key>StandardErrorPath</key>\n  <string>"@ + p.stderr_log
        + "</string>\n  <key>EnvironmentVariables</key>\n  <dict>\n    <key>PATH</key>\n    <string>"@
        + p.search_path
        + "</string>\n    <key>REMODEX_DEVICE_STATE_DIR</key>\n    <string>"@ + p.state_dir
        + "</string>\n  </dict>\n</dict>\n</plist>\n"@
}

/// The property list of the service, which logs below the directory of the bridge's files.
pub fn write_launch_agent_plist(
    target: &LaunchAgentTarget,
    home: &str,
    search_path: &str,
    state_dir: &str,
) -> (r: String)
    ensures
        r@ == plist(
            PlistView {
                arguments: arguments_xml(target.view()),
                home: home@,
                stdout_log: path_join(path_join(state_dir@, "logs"@), "bridge.stdout.log"@),
                stderr_log: path_join(path_join(state_dir@, "logs"@), "bridge.stderr.log"@),
                search_path: search_path@,
                state_dir: state_dir@,
            },
        ),
{
    let mut out =
        "<?xml version=\"1.0\" encoding=\"UTF-8\"?>\n<!DOCTYPE plist PUBLIC \"-//Apple//DTD PLIST 1.0//EN\" \"http://www.apple.com/DTDs/PropertyList-1.0.dtd\">\n<plist version=\"1.0\">\n<dict>\n  <key>Label</key>\n  <string>".to_owned();
    out.append("com.remodex.bridge");
    out.append("</string>\n  <key>ProgramArguments</key>\n  <array>\n    ");
    out.append(build_launch_agent_arguments_xml(target).as_str());
    out.append(
        "\n  </array>\n  <key>RunAtLoad</key>\n  <true/>\n  <key>KeepAlive</key>\n  <dict>\n    <key>SuccessfulExit</key>\n    <false/>\n  </dict>\n  <key>WorkingDirectory</key>\n  <string>",
    );
    out.append(home);
    out.append("</string>\n  <key>StandardOutPath</key>\n  <string>");
    out.append(resolve_bridge_stdout_log_path(state_dir).as_str());
    out.append("</string>\n  <key>StandardErrorPath</key>\n  <string>");
    out.append(resolve_bridge_stderr_log_path(state_dir).as_str());
    out.append(
        "</string>\n  <key>EnvironmentVariables</key>\n  <dict>\n    <key>PATH</key>\n    <string>",
    );
    out.append(search_path);
    out.append("</string>\n    <key>REMODEX_DEVICE_STATE_DIR</key>\n    <string>");
    out.append(state_dir);
    out.append("</string>\n  </dict>\n</dict>\n</plist>\n");
    out
}

// What launchd is asked.

pub open spec fn user_domain(uid: Seq<char>) -> Seq<char> {
    "gui/"@ + uid
}

pub open spec fn service_target(uid: Seq<char>) -> Seq<char> {
    "gui/"@ + uid + "/"@ + service_label()
}

/// The arguments of `launchctl` that start the service.
pub fn restart_launch_agent(uid: &str, plist_path: &str) -> (r: Vec<String>)
    ensures
        r.deep_view() == seq!["bootstrap"@, user_domain(uid@), plist_path@],
{
    let domain = concat2("gui/", uid);
    crate::script::args3("bootstrap", domain.as_str(), plist_path)
}

/// The arguments of `launchctl` that stop the service: by its file, and by its label.
pub fn bootout_launch_agent(uid: &str, plist_path: &str) -> (r: (Vec<String>, Vec<String>))
    ensures
        r.0.deep_view() == seq!["bootout"@, user_domain(uid@), plist_path@],
        r.1.deep_view() == seq!["bootout"@, service_target(uid@)],
{
    let domain = concat2("gui/", uid);
    let service = concat3(domain.as_str(), "/", "com.remodex.bridge");
    (
        crate::script::args3("bootout", domain.as_str(), plist_path),
        crate::script::args2("bootout", service.as_str()),
    )
}

/// The arguments of `launchctl` that print the service.
pub fn print_launch_agent(uid: &str) -> (r: Vec<String>)
    ensures
        r.deep_view() == seq!["print"@, service_target(uid@)],
{
    let domain = concat2("gui/", uid);
    let service = concat3(domain.as_str(), "/", "com.remodex.bridge");
    crate::script::args2("print", service.as_str())
}

/// What was read of a status so far, and whether the next lines are arguments.
pub struct AgentReading {
    pub status: AgentView,
    pub inside_arguments: bool,
}

pub open spec fn read_agent_line(reading: AgentReading, line: Seq<char>) -> AgentReading {
    let t = trimmed(line);
    match without_prefix(t, "pid = "@) {
        Some(value) => AgentReading {
            status: AgentView {
                pid: match parse_number(
                    trim_end_by(value, char_pred(';')),
                    u32::MAX as nat,
                ) {
                    Some(pid) => Some(pid as u32),
                    None => None,
                },
                ..reading.status
            },
            ..reading
        },
        None => match without_prefix(t, "program = "@) {
            Some(program) => AgentReading {
                status: AgentView { program, ..reading.status },
                ..reading
            },
            None => if t == "arguments = {"@ {
                AgentReading { inside_arguments: true, ..reading }
            } else if reading.inside_arguments && t == "}"@ {
                AgentReading { inside_arguments: false, ..reading }
            } else if reading.inside_arguments && t.len() > 0 {
                AgentReading {
                    status: AgentView {
                        arguments: reading.status.arguments.push(t),
                        ..reading.status
                    },
                    ..reading
                }
            } else {
                reading
            },
        },
    }
}

pub open spec fn read_agent_lines(lines: Seq<Seq<char>>) -> AgentReading
    decreases lines.len(),
{
    if lines.len() == 0 {
        AgentReading {
            status: AgentView { pid: None, program: Seq::empty(), arguments: Seq::empty() },
            inside_arguments: false,
        }
    } else {
        read_agent_line(read_agent_lines(lines.drop_last()), lines.last())
    }
}

/// What `launchctl print` says of the service.
pub open spec fn agent_status(stdout: Seq<char>) -> AgentView {
    read_agent_lines(lines(stdout)).status
}

/// What launchd says of the service, given whether it answered. A service that it does not know is
/// not loaded.
pub fn read_launch_agent_status(success: bool, stdout: &str) -> (r: LaunchAgentStatus)
    ensures
        r.view() == if success {
            agent_status(stdout@)
        } else {
            no_agent()
        },
{
    if success {
        parse_launch_agent_status(stdout)
    } else {
        LaunchAgentStatus::none()
    }
}

/// The number of the user, of what `id` gave.
pub fn current_uid(success: bool, stdout: &str) -> (r: Result<String, String>)
    ensures
        match r {
            Ok(uid) => success && uid@ == trimmed(stdout@),
            Err(error) => !success && error@
                == "Failed to resolve the current user id for launchctl."@,
        },
{
    if success {
        Ok(trim(stdout))
    } else {
        Err("Failed to resolve the current user id for launchctl.".to_owned())
    }
}

/// Whether launchd started the service.
pub fn restarted_launch_agent(success: bool) -> (r: Result<(), String>)
    ensures
        match r {
            Ok(_) => success,
            Err(error) => !success && error@
                == "Failed to start the macOS bridge service with launchctl."@,
        },
{
    if success {
        Ok(())
    } else {
        Err("Failed to start the macOS bridge service with launchctl.".to_owned())
    }
}

pub fn parse_launch_agent_status(stdout: &str) -> (r: LaunchAgentStatus)
    ensures
        r.view() == agent_status(stdout@),
{
    let lines = lines_of(stdout);
    let ghost all = lines.deep_view();
    let mut pid: Option<u32> = None;
    let mut program = String::new();
    let mut arguments: Vec<String> = Vec::new();
    let mut inside_arguments: bool = false;
    let mut i: usize = 0;
    assert(all.take(0) =~= Seq::empty());
    assert(arguments.deep_view() =~= Seq::empty());
    while i < lines.len()
        invariant
            i <= lines@.len(),
            all == lines.deep_view(),
            read_agent_lines(all.take(i as int)) == (AgentReading {
                status: AgentView {
                    pid,
                    program: program@,
                    arguments: arguments.deep_view(),
                },
                inside_arguments,
            }),
        decreases lines@.len() - i,
    {
        let ghost before = arguments.deep_view();
        assert(all.take(i + 1).drop_last() =~= all.take(i as int));
        assert(all.take(i + 1).last() == lines@[i as int]@);
        let line = trim(lines[i].as_str());
        match strip_prefix(line.as_str(), "pid = ") {
            Some(value) => {
                let digits = trim_end_char(value.as_str(), ';');
                pid = match parse_bounded(digits.as_str(), u32::MAX as u64) {
                    Some(n) => Some(n as u32),
                    None => None,
                };
            },
            None => match strip_prefix(line.as_str(), "program = ") {
                Some(value) => {
                    program = value;
                },
                None => {
                    if text_eq(line.as_str(), "arguments = {") {
                        inside_arguments = true;
                    } else if inside_arguments {
                        if text_eq(line.as_str(), "}") {
                            inside_arguments = false;
                        } else if !line.as_str().is_empty() {
                            arguments.push(line);
                            assert(arguments.deep_view() =~= before.push(line@));
                        }
                    }
                },
            },
        }
        i = i + 1;
    }
    assert(all.take(i as int) =~= all);
    LaunchAgentStatus { pid, program, arguments }
}

// The status of the service.

/// The text, or `unknown` where it is blank.
pub open spec fn known(s: Seq<char>) -> Seq<char> {
    if is_blank(s) {
        "unknown"@
    } else {
        s
    }
}

pub fn non_empty_or_unknown(value: &str) -> (r: String)
    ensures
        r@ == known(value@),
{
    if blank(value) {
        "unknown".to_owned()
    } else {
        value.to_owned()
    }
}

pub open spec fn yes_or_no(b: bool) -> Seq<char> {
    if b {
        "yes"@
    } else {
        "no"@
    }
}

/// What is known of the bridge from its own record.
pub struct RecordedView {
    pub pid: u32,
    pub state: Seq<char>,
    pub connection: Seq<char>,
    pub kind: Seq<char>,
    pub source: Seq<char>,
    pub executable: Seq<char>,
}

pub open spec fn recorded(status: BridgeStatus) -> RecordedView {
    RecordedView {
        pid: status.pid,
        state: status.state@,
        connection: status.connection_status@,
        kind: status.runtime.runtime_kind@,
        source: status.runtime.runtime_source@,
        executable: status.runtime.runtime_executable@,
    }
}

/// The process of the bridge, as launchd knows it or else as the bridge recorded it.
pub open spec fn pid_text(agent: AgentView, bridge: Option<RecordedView>) -> Seq<char> {
    match agent.pid {
        Some(pid) => decimal(pid as nat),
        None => match bridge {
            Some(record) => decimal(record.pid as nat),
            None => "unknown"@,
        },
    }
}

/// The lines that tell how the service is doing.
pub open spec fn status_page(
    installed: bool,
    agent: AgentView,
    bridge: Option<RecordedView>,
    pairing_created_at: Option<Seq<char>>,
    state_dir: Seq<char>,
) -> Seq<Seq<char>> {
    seq![
        "[remodex] Service label: "@ + service_label(),
        "[remodex] Installed: "@ + yes_or_no(installed),
        "[remodex] Launchd loaded: "@ + yes_or_no(agent.pid is Some),
        "[remodex] PID: "@ + pid_text(agent, bridge),
        "[remodex] Bridge state: "@ + match bridge {
            Some(record) => record.state,
            None => "unknown"@,
        },
        "[remodex] Connection: "@ + match bridge {
            Some(record) => record.connection,
            None => "unknown"@,
        },
        "[remodex] Launchd program: "@ + known(agent.program),
        "[remodex] Launchd arguments: "@ + if agent.arguments.len() == 0 {
            "unknown"@
        } else {
            join(agent.arguments, " "@)
        },
        "[remodex] Bridge runtime: "@ + match bridge {
            Some(record) => known(record.kind),
            None => "unknown"@,
        },
        "[remodex] Bridge source: "@ + match bridge {
            Some(record) => known(record.source),
            None => "unknown"@,
        },
        "[remodex] Bridge executable: "@ + match bridge {
            Some(record) => known(record.executable),
            None => "unknown"@,
        },
        "[remodex] Pairing payload: "@ + match pairing_created_at {
            Some(at) => at,
            None => "none"@,
        },
        "[remodex] Stdout log: "@ + path_join(
            path_join(state_dir, "logs"@),
            "bridge.stdout.log"@,
        ),
        "[remodex] Stderr log: "@ + path_join(
            path_join(state_dir, "logs"@),
            "bridge.stderr.log"@,
        ),
    ]
}

/// The lines that tell how the service is doing.
pub fn print_macos_bridge_service_status(
    installed: bool,
    agent: &LaunchAgentStatus,
    bridge: Option<&BridgeStatus>,
    pairing_created_at: Option<&str>,
    state_dir: &str,
) -> (r: Vec<String>)
    ensures
        r.deep_view() == status_page(
            installed,
            agent.view(),
            match bridge {
                Some(status) => Some(recorded(*status)),
                None => None,
            },
            pairing_created_at.deep_view(),
            state_dir@,
        ),
{
    let unknown = "unknown";
    let pid = match agent.pid {
        Some(pid) => u64_text(pid as u64),
        None => match bridge {
            Some(status) => u64_text(status.pid as u64),
            None => unknown.to_owned(),
        },
    };
    let (state, connection, kind, source, executable) = match bridge {
        Some(status) => (
            status.state.clone(),
            status.connection_status.clone(),
            non_empty_or_unknown(status.runtime.runtime_kind.as_str()),
            non_empty_or_unknown(status.runtime.runtime_source.as_str()),
            non_empty_or_unknown(status.runtime.runtime_executable.as_str()),
        ),
        None => (
            unknown.to_owned(),
            unknown.to_owned(),
            unknown.to_owned(),
            unknown.to_owned(),
            unknown.to_owned(),
        ),
    };
    let arguments = if agent.arguments.len() == 0 {
        unknown.to_owned()
    } else {
        join_texts(&agent.arguments, " ")
    };
    let mut out: Vec<String> = Vec::new();
    out.push(concat2("[remodex] Service label: ", "com.remodex.bridge"));
    out.push(concat2("[remodex] Installed: ", if installed { "yes" } else { "no" }));
    out.push(
        concat2("[remodex] Launchd loaded: ", if agent.pid.is_some() { "yes" } else { "no" }),
    );
    out.push(concat2("[remodex] PID: ", pid.as_str()));
    out.push(concat2("[remodex] Bridge state: ", state.as_str()));
    out.push(concat2("[remodex] Connection: ", connection.as_str()));
    out.push(
        concat2(
            "[remodex] Launchd program: ",
            non_empty_or_unknown(agent.program.as_str()).as_str(),
        ),
    );
    out.push(concat2("[remodex] Launchd arguments: ", arguments.as_str()));
    out.push(concat2("[remodex] Bridge runtime: ", kind.as_str()));
    out.push(concat2("[remodex] Bridge source: ", source.as_str()));
    out.push(concat2("[remodex] Bridge executable: ", executable.as_str()));
    out.push(
        concat2(
            "[remodex] Pairing payload: ",
            match pairing_created_at {
                Some(at) => at,
                None => "none",
            },
        ),
    );
    out.push(
        concat2(
            "[remodex] Stdout log: ",
            resolve_bridge_stdout_log_path(state_dir).as_str(),
        ),
    );
    out.push(
        concat2(
            "[remodex] Stderr log: ",
            resolve_bridge_stderr_log_path(state_dir).as_str(),
        ),
    );
    assert(out.deep_view() =~= status_page(
        installed,
        agent.view(),
        match bridge {
            Some(status) => Some(recorded(*status)),
            None => None,
        },
        pairing_created_at.deep_view(),
        state_dir@,
    ));
    out
}

} // verus!
