use nanobot_desktop::kind::{ProcessKind, StreamKind};
use nanobot_desktop::log_store::LogEntry;
use nanobot_desktop::onboard::{
    begin_onboard, finish_onboard, onboard_args, startup, OnboardEnd, OnboardRun, OnboardStep,
    Startup,
};
use nanobot_desktop::supervisor::ProcState;

fn gateway(stream: StreamKind, text: &str) -> LogEntry {
    LogEntry::new(ProcessKind::Gateway, stream, text.to_string())
}

#[test]
fn the_setup_is_run_as_a_module() {
    assert_eq!(onboard_args(), vec!["-m", "nanobot", "onboard"]);
}

#[test]
fn with_a_configuration_there_is_nothing_to_set_up() {
    let mut state = ProcState::new();
    assert_eq!(begin_onboard(&mut state, true, "/home/u/.nanobot/config.json"), OnboardStep::Skip);
    assert_eq!(state.log_count(), 0);
}

#[test]
fn without_a_configuration_the_setup_is_announced() {
    let mut state = ProcState::new();
    assert_eq!(begin_onboard(&mut state, false, "/c/config.json"), OnboardStep::Run(None));
    let line = gateway(StreamKind::Stdout, "Config not found at /c/config.json. Running onboard...");
    assert_eq!(state.get_logs(), vec![line.clone()]);
    state.set_log_streaming(true);
    assert_eq!(begin_onboard(&mut state, false, "/c/config.json"), OnboardStep::Run(Some(line)));
}

#[test]
fn a_setup_that_succeeds_is_logged() {
    let mut state = ProcState::new();
    assert_eq!(
        finish_onboard(&mut state, &OnboardRun::Succeeded),
        OnboardEnd { result: Ok(()), notify: None }
    );
    assert_eq!(state.get_logs(), vec![gateway(StreamKind::Stdout, "Onboard completed")]);
}

#[test]
fn a_setup_that_fails_is_an_error() {
    let mut state = ProcState::new();
    state.set_log_streaming(true);
    let message = "Onboard failed (exit code exit status: 2).";
    assert_eq!(
        finish_onboard(&mut state, &OnboardRun::Failed("exit status: 2".to_string())),
        OnboardEnd {
            result: Err(message.to_string()),
            notify: Some(gateway(StreamKind::Stderr, message)),
        }
    );
    let message = "Onboard failed: No such file or directory (os error 2)";
    assert_eq!(
        finish_onboard(
            &mut state,
            &OnboardRun::NotRun("No such file or directory (os error 2)".to_string())
        ),
        OnboardEnd {
            result: Err(message.to_string()),
            notify: Some(gateway(StreamKind::Stderr, message)),
        }
    );
    assert_eq!(state.log_count(), 2);
}

#[test]
fn the_shell_starts_both_roles_when_configured() {
    let mut state = ProcState::new();
    assert_eq!(startup(&mut state, true, "/c/config.json"), Startup::StartBoth);
    assert_eq!(state.log_count(), 0);
}

#[test]
fn the_shell_waits_for_the_setup_otherwise() {
    let mut state = ProcState::new();
    assert_eq!(startup(&mut state, false, "/c/config.json"), Startup::AwaitSetup(None));
    assert_eq!(
        state.get_logs(),
        vec![gateway(StreamKind::Stderr, "Config not found at /c/config.json. Waiting for setup...")]
    );
}
