use phodex_bridge::daemon_state::{
    current_bridge_runtime_metadata, write_bridge_status, write_pairing_session,
};
use phodex_bridge::json::parse_json;
use phodex_bridge::macos_launch_agent::{
    bootout_launch_agent, build_launch_agent_arguments_xml, current_uid, debug_binary_path,
    ensure_macos, ensure_service_platform, parse_launch_agent_status, print_launch_agent,
    print_macos_bridge_pairing_qr, print_macos_bridge_service_status, read_launch_agent_status,
    reset_macos_bridge_pairing, resolve_launch_agent_plist_path, resolve_launch_agent_target,
    restart_launch_agent, restarted_launch_agent, run_macos_bridge_service,
    start_macos_bridge_service, stop_macos_bridge_service, waits_for_pairing,
    write_launch_agent_plist, LaunchAgentStatus, ServiceRun,
};
use phodex_bridge::script::Action;

#[test]
fn launch_agent_target_prefers_the_current_rust_executable() {
    let target = resolve_launch_agent_target(
        Some("/Users/praveen/remodex/phodex-bridge/target/debug/remodex".to_owned()),
        "/Users/praveen/remodex/phodex-bridge",
        false,
    );

    assert_eq!(
        target.program,
        "/Users/praveen/remodex/phodex-bridge/target/debug/remodex"
    );
    assert_eq!(target.arguments, vec!["run-service".to_owned()]);
}

#[test]
fn launch_agent_arguments_xml_includes_program_and_runtime_arguments() {
    let target = resolve_launch_agent_target(
        Some("/Users/praveen/remodex/phodex-bridge/target/debug/remodex".to_owned()),
        "/Users/praveen/remodex/phodex-bridge",
        false,
    );

    let xml = build_launch_agent_arguments_xml(&target);

    assert!(xml
        .contains("<string>/Users/praveen/remodex/phodex-bridge/target/debug/remodex</string>"));
    assert!(xml.contains("<string>run-service</string>"));
}

#[test]
fn launch_agent_status_parser_extracts_program_and_arguments() {
    let parsed = parse_launch_agent_status(
        r#"
gui/502/com.remodex.bridge = {
    pid = 77110;
    program = /Users/praveen/.local/share/fnm/node-versions/v22.11.0/installation/bin/node
    arguments = {
        /Users/praveen/.local/share/fnm/node-versions/v22.11.0/installation/bin/node
        /Users/praveen/code/remodex/phodex-bridge/bin/remodex.js
        run-service
    }
}
"#,
    );

    assert_eq!(parsed.pid, Some(77110));
    assert_eq!(
        parsed.program,
        "/Users/praveen/.local/share/fnm/node-versions/v22.11.0/installation/bin/node"
    );
    assert_eq!(
        parsed.arguments,
        vec![
            "/Users/praveen/.local/share/fnm/node-versions/v22.11.0/installation/bin/node"
                .to_owned(),
            "/Users/praveen/code/remodex/phodex-bridge/bin/remodex.js".to_owned(),
            "run-service".to_owned(),
        ]
    );
}

#[test]
fn launch_agent_target_falls_back_to_the_built_binary_and_then_to_cargo() {
    let built = resolve_launch_agent_target(None, "/src/bridge", true);
    assert_eq!(built.program, debug_binary_path("/src/bridge"));
    assert_eq!(built.arguments, vec!["run-service".to_owned()]);

    let cargo = resolve_launch_agent_target(None, "/src/bridge", false);
    assert_eq!(cargo.program, "cargo");
    assert!(cargo.arguments.contains(&"run-service".to_owned()));
}

#[test]
fn the_plist_holds_the_command_and_its_surroundings() {
    let target = resolve_launch_agent_target(Some("/bin/remodex".to_owned()), "/src", false);
    let plist = write_launch_agent_plist(&target, "/Users/me", "/usr/bin:/bin", "/Users/me/.remodex");
    assert!(plist.starts_with("<?xml version=\"1.0\" encoding=\"UTF-8\"?>\n"));
    assert!(plist.contains("  <key>Label</key>\n  <string>com.remodex.bridge</string>\n"));
    assert!(plist.contains("<string>/bin/remodex</string>"));
    assert!(plist.contains("  <key>WorkingDirectory</key>\n  <string>/Users/me</string>\n"));
    assert!(plist.contains("<string>/Users/me/.remodex/logs/bridge.stdout.log</string>"));
    assert!(plist.contains("    <key>PATH</key>\n    <string>/usr/bin:/bin</string>\n"));
    assert!(plist.ends_with("</dict>\n</plist>\n"));
}

#[test]
fn service_commands_are_refused_elsewhere() {
    assert!(ensure_service_platform(true).is_ok());
    assert!(ensure_service_platform(false).is_err());
    assert!(ensure_macos("start", true).is_ok());
    assert!(ensure_macos("start", false).unwrap_err().contains("start"));
    assert!(start_macos_bridge_service(true, "").is_err());
    assert!(start_macos_bridge_service(true, "wss://relay").is_ok());
    assert!(matches!(
        run_macos_bridge_service(false, "wss://relay"),
        ServiceRun::Refuse(_)
    ));
    assert!(matches!(
        run_macos_bridge_service(true, " "),
        ServiceRun::Report(_)
    ));
    assert!(matches!(
        run_macos_bridge_service(true, "wss://relay"),
        ServiceRun::Start
    ));
}

#[test]
fn stopping_forgets_the_code_and_the_status() {
    let code = Action::RemoveFile("/s/pairing-session.json".to_owned());
    let status = Action::RemoveFile("/s/bridge-status.json".to_owned());
    let identity = Action::RemoveFile("/s/device-state.json".to_owned());
    let stopped = stop_macos_bridge_service(true, "/s").unwrap();
    assert_eq!(stopped, vec![code, status]);
    let reset = reset_macos_bridge_pairing(true, "/s", "/s/device-state.json").unwrap();
    assert_eq!(reset.len(), 3);
    assert_eq!(reset[2], identity);
    assert!(stop_macos_bridge_service(false, "/s").is_err());
    assert!(reset_macos_bridge_pairing(false, "/s", "/s/device-state.json").is_err());
}

#[test]
fn the_code_that_was_published_is_printed() {
    let session = |id: &str| {
        write_pairing_session(
            parse_json(&format!("{{\"sessionId\":\"{id}\"}}")).unwrap(),
            "now".to_owned(),
        )
    };
    let (one, two) = (session("s-1"), session("s-2"));
    let page = print_macos_bridge_pairing_qr(Some(&one), Some(&two)).unwrap();
    assert!(page.contains("Session ID: s-1"));
    let page = print_macos_bridge_pairing_qr(None, Some(&two)).unwrap();
    assert!(page.contains("Session ID: s-2"));
    assert_eq!(
        print_macos_bridge_pairing_qr(None, None).unwrap_err(),
        "The macOS bridge service did not publish a pairing payload yet."
    );
}

#[test]
fn pairing_is_waited_for_ten_seconds() {
    assert!(waits_for_pairing(9_999));
    assert!(!waits_for_pairing(10_000));
}

#[test]
fn what_launchctl_gives_is_read() {
    assert_eq!(read_launch_agent_status(false, "pid = 7;"), LaunchAgentStatus::none());
    assert_eq!(read_launch_agent_status(true, "pid = 7;").pid, Some(7));
    assert_eq!(current_uid(true, "502\n").unwrap(), "502");
    assert!(current_uid(false, "").is_err());
    assert!(restarted_launch_agent(true).is_ok());
    assert_eq!(
        restarted_launch_agent(false).unwrap_err(),
        "Failed to start the macOS bridge service with launchctl."
    );
}

#[test]
fn launchctl_is_told_the_domain_and_the_plist() {
    let plist = resolve_launch_agent_plist_path("/Users/me");
    assert_eq!(
        plist,
        "/Users/me/Library/LaunchAgents/com.remodex.bridge.plist"
    );
    assert!(restart_launch_agent("502", &plist).contains(&"gui/502".to_owned()));
    let (by_path, by_label) = bootout_launch_agent("502", &plist);
    assert!(by_path.contains(&plist));
    assert!(by_label.contains(&"gui/502/com.remodex.bridge".to_owned()));
    assert!(print_launch_agent("502").contains(&"gui/502/com.remodex.bridge".to_owned()));
}

#[test]
fn the_status_names_what_is_known_and_what_is_not() {
    let lines = print_macos_bridge_service_status(
        false,
        &LaunchAgentStatus::none(),
        None,
        None,
        "/Users/me/.remodex",
    );
    assert!(lines.iter().any(|line| line.contains("unknown")));
    let status = write_bridge_status(
        "running",
        "connected",
        4_711,
        "",
        "2026-01-01T00:00:00Z".to_owned(),
        current_bridge_runtime_metadata("/src", Some("/bin/remodex".to_owned())),
    );
    let lines = print_macos_bridge_service_status(
        true,
        &LaunchAgentStatus::none(),
        Some(&status),
        Some("2026-01-01T00:00:00Z"),
        "/Users/me/.remodex",
    );
    assert!(lines.iter().any(|line| line.contains("connected")));
}
