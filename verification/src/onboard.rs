//! The first start of the shell: what is logged and done while the agent
//! has no configuration yet.

use crate::kind::{ProcessKind, StreamKind};
use crate::log_store::{LogEntry, LogRecord};
use crate::supervisor::{ProcState, Supervision};
use crate::text::{join_text, texts};
use vstd::prelude::*;

verus! {

/// The log line written before the setup is run.
pub open spec fn onboard_notice(config_path: Seq<char>) -> Seq<char> {
    "Config not found at "@ + config_path + ". Running onboard..."@
}

/// The log line written where the shell starts without a configuration.
pub open spec fn setup_notice(config_path: Seq<char>) -> Seq<char> {
    "Config not found at "@ + config_path + ". Waiting for setup..."@
}

/// The entry that announces the run of the setup.
pub open spec fn onboard_notice_record(config_path: Seq<char>) -> LogRecord {
    LogRecord {
        kind: ProcessKind::Gateway,
        stream: StreamKind::Stdout,
        text: onboard_notice(config_path),
    }
}

/// The entry that tells that the shell waits for its setup.
pub open spec fn setup_notice_record(config_path: Seq<char>) -> LogRecord {
    LogRecord {
        kind: ProcessKind::Gateway,
        stream: StreamKind::Stderr,
        text: setup_notice(config_path),
    }
}

/// How the run of the setup ended.
#[derive(Debug, PartialEq, Eq)]
pub enum OnboardRun {
    /// It ran and succeeded.
    Succeeded,
    /// It ran and failed; the text shows how it exited.
    Failed(String),
    /// It could not be run; the text says why.
    NotRun(String),
}

/// What a run of the setup is reported as: nothing where it succeeded,
/// else the error.
pub open spec fn onboard_error(run: OnboardRun) -> Option<Seq<char>> {
    match run {
        OnboardRun::Succeeded => None,
        OnboardRun::Failed(status) => Some("Onboard failed (exit code "@ + status@ + ")."@),
        OnboardRun::NotRun(reason) => Some("Onboard failed: "@ + reason@),
    }
}

/// The entry that tells how the setup ended.
pub open spec fn onboard_record(run: OnboardRun) -> LogRecord {
    match onboard_error(run) {
        None => LogRecord {
            kind: ProcessKind::Gateway,
            stream: StreamKind::Stdout,
            text: "Onboard completed"@,
        },
        Some(error) => LogRecord {
            kind: ProcessKind::Gateway,
            stream: StreamKind::Stderr,
            text: error,
        },
    }
}

/// What is to be done when the setup is asked for.
#[derive(Debug, PartialEq, Eq)]
pub enum OnboardStep {
    /// There is a configuration: nothing is to be done.
    Skip,
    /// The setup is to be run; the entry is to be pushed where it is
    /// there.
    Run(Option<LogEntry>),
}

/// What the end of the setup leaves for the caller.
#[derive(Debug, PartialEq, Eq)]
pub struct OnboardEnd {
    pub result: Result<(), String>,
    /// The entry that was logged, where it is to be pushed as well.
    pub notify: Option<LogEntry>,
}

/// What is to be done when the shell starts.
#[derive(Debug, PartialEq, Eq)]
pub enum Startup {
    /// There is a configuration: both roles are to be started.
    StartBoth,
    /// There is none: the consumer is to be told, and the entry pushed
    /// where it is there.
    AwaitSetup(Option<LogEntry>),
}

/// Whether `notify` is right for an entry of `record` logged in the state
/// `before`: a copy of the entry where entries are pushed, else nothing.
pub open spec fn notified(notify: Option<LogEntry>, before: Supervision, record: LogRecord) -> bool {
    match notify {
        Some(entry) => before.streaming && entry@ == record,
        None => !before.streaming,
    }
}

/// The arguments with which the interpreter runs the setup.
pub fn onboard_args() -> (args: Vec<String>)
    ensures
        texts(args@) == seq!["-m"@, "nanobot"@, "onboard"@],
{
    let mut args: Vec<String> = Vec::new();
    args.push("-m".to_owned());
    args.push("nanobot".to_owned());
    args.push("onboard".to_owned());
    args
}

/// Decides a request for the setup. With a configuration in place there
/// is nothing to do and nothing is logged; without one, the run is
/// announced in the log.
pub fn begin_onboard(state: &mut ProcState, config_exists: bool, config_path: &str) -> (step:
    OnboardStep)
    ensures
        final(state)@ == (if config_exists {
            old(state)@
        } else {
            old(state)@.with_entry(onboard_notice_record(config_path@))
        }),
        match step {
            OnboardStep::Skip => config_exists,
            OnboardStep::Run(notify) => !config_exists && notified(
                notify,
                old(state)@,
                onboard_notice_record(config_path@),
            ),
        },
{
    if config_exists {
        return OnboardStep::Skip;
    }
    let head = join_text("Config not found at ", config_path);
    let line = join_text(head.as_str(), ". Running onboard...");
    OnboardStep::Run(state.emit_log(ProcessKind::Gateway, line, StreamKind::Stdout))
}

/// Records how the setup ended: success on the output channel, failure
/// on the error channel, and the failure is the error to return.
pub fn finish_onboard(state: &mut ProcState, run: &OnboardRun) -> (end: OnboardEnd)
    ensures
        final(state)@ == old(state)@.with_entry(onboard_record(*run)),
        notified(end.notify, old(state)@, onboard_record(*run)),
        match onboard_error(*run) {
            None => end.result is Ok,
            Some(error) => end.result is Err && end.result->Err_0@ == error,
        },
{
    match run {
        OnboardRun::Succeeded => {
            let notify = state.emit_log(
                ProcessKind::Gateway,
                "Onboard completed".to_owned(),
                StreamKind::Stdout,
            );
            OnboardEnd { result: Ok(()), notify }
        },
        OnboardRun::Failed(status) => {
            let head = join_text("Onboard failed (exit code ", status.as_str());
            let message = join_text(head.as_str(), ").");
            let notify = state.emit_log(ProcessKind::Gateway, message.clone(), StreamKind::Stderr);
            OnboardEnd { result: Err(message), notify }
        },
        OnboardRun::NotRun(reason) => {
            let message = join_text("Onboard failed: ", reason.as_str());
            let notify = state.emit_log(ProcessKind::Gateway, message.clone(), StreamKind::Stderr);
            OnboardEnd { result: Err(message), notify }
        },
    }
}

/// Decides what the shell does when it starts: with a configuration both
/// roles are started; without one this is logged on the error channel and
/// nothing is started.
pub fn startup(state: &mut ProcState, config_exists: bool, config_path: &str) -> (plan: Startup)
    ensures
        final(state)@ == (if config_exists {
            old(state)@
        } else {
            old(state)@.with_entry(setup_notice_record(config_path@))
        }),
        match plan {
            Startup::StartBoth => config_exists,
            Startup::AwaitSetup(notify) => !config_exists && notified(
                notify,
                old(state)@,
                setup_notice_record(config_path@),
            ),
        },
{
    if config_exists {
        return Startup::StartBoth;
    }
    let head = join_text("Config not found at ", config_path);
    let line = join_text(head.as_str(), ". Waiting for setup...");
    Startup::AwaitSetup(state.emit_log(ProcessKind::Gateway, line, StreamKind::Stderr))
}

} // verus!
