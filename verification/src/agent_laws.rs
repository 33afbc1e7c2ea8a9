//! What the bridge does as a service of the Mac.
use vstd::prelude::*;

use crate::macos_launch_agent::{
    agent_status, agent_target, arguments_xml, plist, plist_path, read_agent_line,
    read_agent_lines, service_target, status_page, stop_actions, string_element, user_domain,
    AgentReading, AgentView, PlistView, RecordedView, TargetView,
};
use crate::path::path_join;
use crate::script::ActionView;
use crate::text::{char_pred, decimal, join, lines, trimmed, without_prefix};
use crate::text_laws::{law_number_is_read_back, law_rest_behind_a_prefix};

verus! {

/// The service runs the program that is running; without one, the one that was built; without that,
/// it is built.
pub proof fn law_program_of_the_service(program: Seq<char>, manifest_dir: Seq<char>, built: bool)
    ensures
        agent_target(Some(program), manifest_dir, built) == (TargetView {
            program,
            arguments: seq!["run-service"@],
        }),
        agent_target(None, manifest_dir, true) == (TargetView {
            program: path_join(
                path_join(path_join(manifest_dir, "target"@), "debug"@),
                "remodex"@,
            ),
            arguments: seq!["run-service"@],
        }),
        ({
            let target = agent_target(None, manifest_dir, false);
            &&& target.program == "cargo"@
            &&& target.arguments.len() == 7
            &&& target.arguments[0] == "run"@
            &&& target.arguments[1] == "--manifest-path"@
            &&& target.arguments[2] == path_join(manifest_dir, "Cargo.toml"@)
            &&& target.arguments[3] == "--bin"@
            &&& target.arguments[4] == "remodex"@
            &&& target.arguments[5] == "--"@
            &&& target.arguments[6] == "run-service"@
        }),
{
}

/// The command line names the program and then its arguments, one element each, in order.
pub proof fn law_command_line_of_the_service(
    program: Seq<char>,
    arguments: Seq<Seq<char>>,
    argument: Seq<char>,
)
    ensures
        arguments_xml(TargetView { program, arguments: Seq::empty() }) == "<string>"@ + program
            + "</string>"@,
        arguments_xml(TargetView { program, arguments: arguments.push(argument) })
            == arguments_xml(TargetView { program, arguments }) + "\n    "@ + ("<string>"@
            + argument + "</string>"@),
{
    let elements = |arguments: Seq<Seq<char>>|
        (seq![program] + arguments).map_values(|s: Seq<char>| string_element(s));
    assert(elements(Seq::empty()) =~= seq![string_element(program)]);
    assert(elements(arguments.push(argument)) =~= elements(arguments).push(
        string_element(argument),
    ));
    assert(elements(arguments.push(argument)).drop_last() =~= elements(arguments));
}

/// The property list of the service: its label, its command line, where it works, where its output
/// goes, and its environment, each under its key.
pub proof fn law_property_list_of_the_service(p: PlistView)
    ensures
        ({
            let head =
                "<?xml version=\"1.0\" encoding=\"UTF-8\"?>\n<!DOCTYPE plist PUBLIC \"-//Apple//DTD PLIST 1.0//EN\" \"http://www.apple.com/DTDs/PropertyList-1.0.dtd\">\n<plist version=\"1.0\">\n<dict>\n  <key>Label</key>\n  <string>"@;
            let command = "</string>\n  <key>ProgramArguments</key>\n  <array>\n    "@;
            let home =
                "\n  </array>\n  <key>RunAtLoad</key>\n  <true/>\n  <key>KeepAlive</key>\n  <dict>\n    <key>SuccessfulExit</key>\n    <false/>\n  </dict>\n  <key>WorkingDirectory</key>\n  <string>"@;
            let output = "</string>\n  <key>StandardOutPath</key>\n  <string>"@;
            let errors = "</string>\n  <key>StandardErrorPath</key>\n  <string>"@;
            let path =
                "</string>\n  <key>EnvironmentVariables</key>\n  <dict>\n    <key>PATH</key>\n    <string>"@;
            let state =
                "</string>\n    <key>REMODEX_DEVICE_STATE_DIR</key>\n    <string>"@;
            plist(p) == head + "com.remodex.bridge"@ + command + p.arguments + home + p.home
                + output + p.stdout_log + errors + p.stderr_log + path + p.search_path + state
                + p.state_dir + "</string>\n  </dict>\n</dict>\n</plist>\n"@
        }),
{
}

/// Where the service is found: its property list in the home directory, and its name in the domain
/// of the user.
pub proof fn law_place_of_the_service(home: Seq<char>, uid: Seq<char>)
    ensures
        plist_path(home) == path_join(
            path_join(path_join(home, "Library"@), "LaunchAgents"@),
            "com.remodex.bridge.plist"@,
        ),
        user_domain(uid) == "gui/"@ + uid,
        service_target(uid) == "gui/"@ + uid + "/"@ + "com.remodex.bridge"@,
{
}

/// A service that stops leaves no session and no status behind.
pub proof fn law_stopped_service_leaves_nothing(state_dir: Seq<char>)
    ensures
        stop_actions(state_dir).contains(
            ActionView::RemoveFile(path_join(state_dir, "pairing-session.json"@)),
        ),
        stop_actions(state_dir).contains(
            ActionView::RemoveFile(path_join(state_dir, "bridge-status.json"@)),
        ),
        stop_actions(state_dir).len() == 2,
{
    assert(stop_actions(state_dir)[0] == ActionView::RemoveFile(
        path_join(state_dir, "pairing-session.json"@),
    ));
    assert(stop_actions(state_dir)[1] == ActionView::RemoveFile(
        path_join(state_dir, "bridge-status.json"@),
    ));
}

/// What launchd says of the process of the service is its number.
pub proof fn law_process_of_the_service_is_read(reading: AgentReading, line: Seq<char>, pid: u32)
    requires
        trimmed(line) == "pid = "@ + decimal(pid as nat) || trimmed(line) == "pid = "@ + decimal(
            pid as nat,
        ) + ";"@,
    ensures
        read_agent_line(reading, line).status == (AgentView { pid: Some(pid), ..reading.status }),
        read_agent_line(reading, line).inside_arguments == reading.inside_arguments,
{
    let digits = decimal(pid as nat);
    reveal_strlit(";");
    law_number_is_read_back(pid as nat, u32::MAX as nat);
    assert("pid = "@ + digits + ";"@ =~= "pid = "@ + (digits + ";"@));
    law_rest_behind_a_prefix("pid = "@, digits);
    law_rest_behind_a_prefix("pid = "@, digits + ";"@);
    assert((digits + ";"@).drop_last() =~= digits);
    assert(digits.len() > 0 && crate::text::is_digit(digits[digits.len() - 1]));
    assert(digits.last() != ';');
    assert(crate::text::is_digit(digits[0]));
    assert(digits[0] != '+');
    assert(crate::text::trim_end_by(digits, char_pred(';')) == digits);
    assert(crate::text::trim_end_by(digits + ";"@, char_pred(';')) == digits);
}

/// What launchd says of the program of the service is its path.
pub proof fn law_program_of_the_service_is_read(
    reading: AgentReading,
    line: Seq<char>,
    program: Seq<char>,
)
    requires
        trimmed(line) == "program = "@ + program,
    ensures
        read_agent_line(reading, line).status == (AgentView { program, ..reading.status }),
        read_agent_line(reading, line).inside_arguments == reading.inside_arguments,
{
    reveal_strlit("program = ");
    reveal_strlit("pid = ");
    let t = trimmed(line);
    law_rest_behind_a_prefix("program = "@, program);
    assert(t[1] == 'r');
    if crate::text::has_prefix(t, "pid = "@) {
        assert(t.subrange(0, "pid = "@.len() as int)[1] == t[1]);
        assert("pid = "@[1] == 'i');
    }
}

/// Between the braces every line is an argument, in order; elsewhere none is.
pub proof fn law_arguments_of_the_service_are_read(reading: AgentReading, line: Seq<char>)
    requires
        without_prefix(trimmed(line), "pid = "@) is None,
        without_prefix(trimmed(line), "program = "@) is None,
    ensures
        ({
            let t = trimmed(line);
            let after = read_agent_line(reading, line);
            &&& t == "arguments = {"@ ==> after.inside_arguments && after.status == reading.status
            &&& t != "arguments = {"@ && reading.inside_arguments && t == "}"@
                ==> !after.inside_arguments && after.status == reading.status
            &&& t != "arguments = {"@ && reading.inside_arguments && t != "}"@ && t.len() > 0
                ==> after.inside_arguments && after.status.arguments
                == reading.status.arguments.push(t) && after.status.pid == reading.status.pid
                && after.status.program == reading.status.program
            &&& t != "arguments = {"@ && !reading.inside_arguments ==> after == reading
        }),
{
    reveal_strlit("}");
    reveal_strlit("arguments = {");
    assert("}"@.len() == 1 && "arguments = {"@.len() == 13);
}

/// What is printed is read line by line; nothing printed is no service.
pub proof fn law_status_of_the_service_is_read_line_by_line(
    all: Seq<Seq<char>>,
    line: Seq<char>,
    stdout: Seq<char>,
)
    ensures
        read_agent_lines(all.push(line)) == read_agent_line(read_agent_lines(all), line),
        read_agent_lines(Seq::empty()).status.pid is None,
        read_agent_lines(Seq::empty()).status.program.len() == 0,
        read_agent_lines(Seq::empty()).status.arguments.len() == 0,
        !read_agent_lines(Seq::empty()).inside_arguments,
        agent_status(stdout) == read_agent_lines(lines(stdout)).status,
{
    assert(all.push(line).drop_last() =~= all);
}

/// The page tells whether the service is installed and running, and as which process: the one that
/// launchd knows, else the one that the bridge recorded.
pub proof fn law_page_tells_the_process(
    installed: bool,
    agent: AgentView,
    bridge: Option<RecordedView>,
    at: Option<Seq<char>>,
    dir: Seq<char>,
)
    ensures
        ({
            let page = status_page(installed, agent, bridge, at, dir);
            &&& page.len() == 14
            &&& page[0] == "[remodex] Service label: "@ + "com.remodex.bridge"@
            &&& installed ==> page[1] == "[remodex] Installed: "@ + "yes"@
            &&& !installed ==> page[1] == "[remodex] Installed: "@ + "no"@
            &&& agent.pid matches Some(pid) ==> page[2] == "[remodex] Launchd loaded: "@ + "yes"@
                && page[3] == "[remodex] PID: "@ + decimal(pid as nat)
            &&& agent.pid is None ==> page[2] == "[remodex] Launchd loaded: "@ + "no"@
            &&& agent.pid is None ==> (bridge matches Some(record) ==> page[3]
                == "[remodex] PID: "@ + decimal(record.pid as nat))
            &&& agent.pid is None && bridge is None ==> page[3] == "[remodex] PID: "@
                + "unknown"@
        }),
{
}

/// The page tells what the bridge recorded of itself.
pub proof fn law_page_tells_the_record(
    installed: bool,
    agent: AgentView,
    record: RecordedView,
    at: Option<Seq<char>>,
    dir: Seq<char>,
)
    requires
        trimmed(record.kind).len() > 0,
        trimmed(record.source).len() > 0,
        trimmed(record.executable).len() > 0,
    ensures
        ({
            let page = status_page(installed, agent, Some(record), at, dir);
            &&& page[4] == "[remodex] Bridge state: "@ + record.state
            &&& page[5] == "[remodex] Connection: "@ + record.connection
            &&& page[8] == "[remodex] Bridge runtime: "@ + record.kind
            &&& page[9] == "[remodex] Bridge source: "@ + record.source
            &&& page[10] == "[remodex] Bridge executable: "@ + record.executable
        }),
{
}

/// The page tells what launchd runs, when the pairing was made and where the logs are.
pub proof fn law_page_tells_what_runs(
    installed: bool,
    agent: AgentView,
    bridge: Option<RecordedView>,
    at: Option<Seq<char>>,
    dir: Seq<char>,
)
    ensures
        ({
            let page = status_page(installed, agent, bridge, at, dir);
            &&& trimmed(agent.program).len() > 0 ==> page[6] == "[remodex] Launchd program: "@
                + agent.program
            &&& trimmed(agent.program).len() == 0 ==> page[6] == "[remodex] Launchd program: "@
                + "unknown"@
            &&& agent.arguments.len() > 0 ==> page[7] == "[remodex] Launchd arguments: "@ + join(
                agent.arguments,
                " "@,
            )
            &&& agent.arguments.len() == 0 ==> page[7] == "[remodex] Launchd arguments: "@
                + "unknown"@
            &&& at matches Some(time) ==> page[11] == "[remodex] Pairing payload: "@ + time
            &&& at is None ==> page[11] == "[remodex] Pairing payload: "@ + "none"@
            &&& page[12] == "[remodex] Stdout log: "@ + path_join(
                path_join(dir, "logs"@),
                "bridge.stdout.log"@,
            )
            &&& page[13] == "[remodex] Stderr log: "@ + path_join(
                path_join(dir, "logs"@),
                "bridge.stderr.log"@,
            )
            &&& bridge is None ==> page[4] == "[remodex] Bridge state: "@ + "unknown"@ && page[5]
                == "[remodex] Connection: "@ + "unknown"@ && page[8]
                == "[remodex] Bridge runtime: "@ + "unknown"@ && page[9]
                == "[remodex] Bridge source: "@ + "unknown"@ && page[10]
                == "[remodex] Bridge executable: "@ + "unknown"@
        }),
{
}

} // verus!
