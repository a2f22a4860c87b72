use nanobot_desktop::command::{
    is_matching_process_running, kill_matching_processes, kill_process_tree, scan_command,
    start_args, sweep_command, CommandLine, Platform, ScanOutcome,
};
use nanobot_desktop::kind::ProcessKind;

fn command(program: &str, args: &[&str], no_window: bool) -> CommandLine {
    CommandLine {
        program: program.to_string(),
        args: args.iter().map(|a| a.to_string()).collect(),
        no_window,
    }
}

#[test]
fn a_tree_is_killed_children_first_on_unix() {
    assert_eq!(
        kill_process_tree(4711, Platform::Unix),
        vec![
            command("pkill", &["-TERM", "-P", "4711"], false),
            command("kill", &["-TERM", "4711"], false),
        ]
    );
}

#[test]
fn a_tree_is_killed_by_taskkill_on_windows() {
    assert_eq!(
        kill_process_tree(80, Platform::Windows),
        vec![command("taskkill", &["/PID", "80", "/T", "/F"], false)]
    );
}

#[test]
fn the_process_identifier_is_written_in_decimal() {
    let commands = kill_process_tree(u32::MAX, Platform::Unix);
    assert_eq!(commands[1].args[1], "4294967295");
    let commands = kill_process_tree(0, Platform::Windows);
    assert_eq!(commands[0].args[1], "0");
}

#[test]
fn the_sweep_matches_the_command_line_of_the_role() {
    assert_eq!(
        sweep_command(ProcessKind::Agent, Platform::Unix),
        command("pkill", &["-f", "nanobot agent"], false)
    );
    assert_eq!(
        sweep_command(ProcessKind::Gateway, Platform::Unix),
        command("pkill", &["-f", "nanobot gateway"], false)
    );
}

#[test]
fn the_sweep_on_windows_is_a_hidden_script() {
    assert_eq!(
        sweep_command(ProcessKind::Gateway, Platform::Windows),
        command(
            "powershell",
            &[
                "-NoProfile",
                "-WindowStyle",
                "Hidden",
                "-Command",
                "Get-CimInstance Win32_Process | Where-Object { $_.CommandLine -match 'nanobot gateway' } | Stop-Process -Id {$_.ProcessId} -Force",
            ],
            true
        )
    );
}

#[test]
fn the_scan_matches_the_command_line_of_the_role() {
    assert_eq!(
        scan_command(ProcessKind::Agent, Platform::Unix),
        command("pgrep", &["-f", "nanobot agent"], false)
    );
    assert_eq!(
        scan_command(ProcessKind::Agent, Platform::Windows),
        command(
            "powershell",
            &[
                "-NoProfile",
                "-WindowStyle",
                "Hidden",
                "-Command",
                "if (Get-CimInstance Win32_Process | Where-Object { $_.CommandLine -match 'nanobot agent' } | Select-Object -First 1) { exit 0 } else { exit 1 }",
            ],
            true
        )
    );
}

#[test]
fn a_name_that_is_no_role_has_nothing_to_sweep() {
    assert_eq!(kill_matching_processes("worker", Platform::Unix), None);
    assert_eq!(kill_matching_processes("", Platform::Windows), None);
    assert_eq!(
        kill_matching_processes("agent", Platform::Unix),
        Some(sweep_command(ProcessKind::Agent, Platform::Unix))
    );
    assert_eq!(
        kill_matching_processes("gateway", Platform::Windows),
        Some(sweep_command(ProcessKind::Gateway, Platform::Windows))
    );
}

#[test]
fn only_a_scan_that_found_something_counts_as_running() {
    assert!(is_matching_process_running("agent", ScanOutcome::Found));
    assert!(is_matching_process_running("gateway", ScanOutcome::Found));
    assert!(!is_matching_process_running("agent", ScanOutcome::NotFound));
    assert!(!is_matching_process_running("agent", ScanOutcome::Unavailable));
    assert!(!is_matching_process_running("worker", ScanOutcome::Found));
}

#[test]
fn the_agent_starts_as_a_daemon() {
    let expected = vec!["-u", "-m", "nanobot", "agent", "--daemon"];
    assert_eq!(start_args(ProcessKind::Agent, false), expected);
    assert_eq!(start_args(ProcessKind::Agent, true), expected);
}

#[test]
fn only_the_gateway_can_be_verbose() {
    assert_eq!(start_args(ProcessKind::Gateway, false), vec!["-u", "-m", "nanobot", "gateway"]);
    assert_eq!(
        start_args(ProcessKind::Gateway, true),
        vec!["-u", "-m", "nanobot", "gateway", "--verbose"]
    );
}
