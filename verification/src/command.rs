//! The command lines by which a process tree is terminated, stray processes
//! of a role are swept away or looked for, and a child of a role is started.
//! They are plain data: running them is the caller's part.

use crate::kind::ProcessKind;
use crate::text::texts;
use crate::text::{join_text, decimal, decimal_text};
use vstd::prelude::*;

verus! {

/// The family of operating systems that the commands are made for.
#[derive(Clone, Copy, Debug, PartialEq, Eq, Structural)]
pub enum Platform {
    Unix,
    Windows,
}

/// A program and its arguments.
#[derive(Debug, PartialEq, Eq)]
pub struct CommandLine {
    pub program: String,
    pub args: Vec<String>,
    /// Whether the program is to run without a console window of its own,
    /// where the platform would give it one.
    pub no_window: bool,
}

/// What a `CommandLine` says.
pub struct Invocation {
    pub program: Seq<char>,
    pub args: Seq<Seq<char>>,
    pub no_window: bool,
}

impl View for CommandLine {
    type V = Invocation;

    open spec fn view(&self) -> Invocation {
        Invocation { program: self.program@, args: texts(self.args@), no_window: self.no_window }
    }
}

/// What each of `commands` says, in the same order.
pub open spec fn invocations(commands: Seq<CommandLine>) -> Seq<Invocation> {
    commands.map_values(|c: CommandLine| c@)
}

/// The commands that terminate the process `pid` and the processes it has
/// started, in the order in which they are to run.
pub open spec fn tree_kill(pid: u32, platform: Platform) -> Seq<Invocation> {
    match platform {
        Platform::Windows => seq![
            Invocation {
                program: "taskkill"@,
                args: seq!["/PID"@, decimal(pid as nat), "/T"@, "/F"@],
                no_window: false,
            },
        ],
        Platform::Unix => seq![
            Invocation {
                program: "pkill"@,
                args: seq!["-TERM"@, "-P"@, decimal(pid as nat)],
                no_window: false,
            },
            Invocation {
                program: "kill"@,
                args: seq!["-TERM"@, decimal(pid as nat)],
                no_window: false,
            },
        ],
    }
}

/// A PowerShell invocation that runs `script` out of sight.
pub open spec fn powershell(script: Seq<char>) -> Invocation {
    Invocation {
        program: "powershell"@,
        args: seq!["-NoProfile"@, "-WindowStyle"@, "Hidden"@, "-Command"@, script],
        no_window: true,
    }
}

/// The PowerShell script that stops every process whose command line
/// matches `pattern`.
pub open spec fn sweep_script(pattern: Seq<char>) -> Seq<char> {
    "Get-CimInstance Win32_Process | Where-Object { $_.CommandLine -match '"@ + pattern
        + "' } | Stop-Process -Id {$_.ProcessId} -Force"@
}

/// The PowerShell script that exits with 0 where a process whose command
/// line matches `pattern` is running, and with 1 where none is.
pub open spec fn scan_script(pattern: Seq<char>) -> Seq<char> {
    "if (Get-CimInstance Win32_Process | Where-Object { $_.CommandLine -match '"@ + pattern
        + "' } | Select-Object -First 1) { exit 0 } else { exit 1 }"@
}

/// The command that terminates every process of the role, whoever started
/// it.
pub open spec fn sweep(kind: ProcessKind, platform: Platform) -> Invocation {
    match platform {
        Platform::Windows => powershell(sweep_script(kind.pattern())),
        Platform::Unix => Invocation {
            program: "pkill"@,
            args: seq!["-f"@, kind.pattern()],
            no_window: false,
        },
    }
}

/// The command that succeeds exactly where a process of the role is
/// running, whoever started it.
pub open spec fn scan(kind: ProcessKind, platform: Platform) -> Invocation {
    match platform {
        Platform::Windows => powershell(scan_script(kind.pattern())),
        Platform::Unix => Invocation {
            program: "pgrep"@,
            args: seq!["-f"@, kind.pattern()],
            no_window: false,
        },
    }
}

/// The arguments with which the interpreter starts a child of the role.
pub open spec fn start_arguments(kind: ProcessKind, verbose: bool) -> Seq<Seq<char>> {
    match kind {
        ProcessKind::Agent => seq!["-u"@, "-m"@, "nanobot"@, "agent"@, "--daemon"@],
        ProcessKind::Gateway => if verbose {
            seq!["-u"@, "-m"@, "nanobot"@, "gateway"@, "--verbose"@]
        } else {
            seq!["-u"@, "-m"@, "nanobot"@, "gateway"@]
        },
    }
}

/// How an external scan for a process ended.
#[derive(Clone, Copy, Debug, PartialEq, Eq, Structural)]
pub enum ScanOutcome {
    /// The scan ran and found a matching process.
    Found,
    /// The scan ran and found none.
    NotFound,
    /// The scan could not be run.
    Unavailable,
}

fn arguments(items: &[&str]) -> (args: Vec<String>)
    ensures
        args@.len() == items@.len(),
        forall|i: int| 0 <= i < items@.len() ==> (#[trigger] args@[i])@ == items@[i]@,
{
    let mut args: Vec<String> = Vec::new();
    let mut i: usize = 0;
    while i < items.len()
        invariant
            i <= items@.len(),
            args@.len() == i,
            forall|j: int| 0 <= j < i ==> (#[trigger] args@[j])@ == items@[j]@,
        decreases items@.len() - i,
    {
        args.push(items[i].to_owned());
        i += 1;
    }
    args
}

fn run_powershell(script: String) -> (command: CommandLine)
    ensures
        command@ == powershell(script@),
{
    let mut args = arguments(&["-NoProfile", "-WindowStyle", "Hidden", "-Command"]);
    args.push(script);
    let command = CommandLine { program: "powershell".to_owned(), args, no_window: true };
    assert(command@.args =~= powershell(script@).args);
    command
}

/// The commands that terminate the process `pid` and the processes it has
/// started. They are best effort: how they end is of no account.
pub fn kill_process_tree(pid: u32, platform: Platform) -> (commands: Vec<CommandLine>)
    ensures
        invocations(commands@) == tree_kill(pid, platform),
{
    let id = decimal_text(pid as u64);
    let mut commands: Vec<CommandLine> = Vec::new();
    match platform {
        Platform::Windows => {
            let mut args = arguments(&["/PID"]);
            args.push(id);
            args.push("/T".to_owned());
            args.push("/F".to_owned());
            let command = CommandLine { program: "taskkill".to_owned(), args, no_window: false };
            assert(command@.args =~= tree_kill(pid, platform)[0].args);
            commands.push(command);
        },
        Platform::Unix => {
            let mut args = arguments(&["-TERM", "-P"]);
            args.push(id.clone());
            let children = CommandLine { program: "pkill".to_owned(), args, no_window: false };
            assert(children@.args =~= tree_kill(pid, platform)[0].args);
            let mut args = arguments(&["-TERM"]);
            args.push(id);
            let parent = CommandLine { program: "kill".to_owned(), args, no_window: false };
            assert(parent@.args =~= tree_kill(pid, platform)[1].args);
            commands.push(children);
            commands.push(parent);
        },
    }
    commands
}

/// The command that sweeps away every process of the role.
pub fn sweep_command(kind: ProcessKind, platform: Platform) -> (command: CommandLine)
    ensures
        command@ == sweep(kind, platform),
{
    match platform {
        Platform::Windows => {
            let head = join_text(
                "Get-CimInstance Win32_Process | Where-Object { $_.CommandLine -match '",
                kind.match_pattern(),
            );
            let script = join_text(head.as_str(), "' } | Stop-Process -Id {$_.ProcessId} -Force");
            run_powershell(script)
        },
        Platform::Unix => {
            let mut args = arguments(&["-f"]);
            args.push(kind.match_pattern().to_owned());
            let command = CommandLine { program: "pkill".to_owned(), args, no_window: false };
            assert(command@.args =~= sweep(kind, platform).args);
            command
        },
    }
}

/// The command that looks for a process of the role.
pub fn scan_command(kind: ProcessKind, platform: Platform) -> (command: CommandLine)
    ensures
        command@ == scan(kind, platform),
{
    match platform {
        Platform::Windows => {
            let head = join_text(
                "if (Get-CimInstance Win32_Process | Where-Object { $_.CommandLine -match '",
                kind.match_pattern(),
            );
            let script = join_text(
                head.as_str(),
                "' } | Select-Object -First 1) { exit 0 } else { exit 1 }",
            );
            run_powershell(script)
        },
        Platform::Unix => {
            let mut args = arguments(&["-f"]);
            args.push(kind.match_pattern().to_owned());
            let command = CommandLine { program: "pgrep".to_owned(), args, no_window: false };
            assert(command@.args =~= scan(kind, platform).args);
            command
        },
    }
}

/// The sweep for the role that `kind` names. A name that addresses no role
/// has nothing to sweep.
pub fn kill_matching_processes(kind: &str, platform: Platform) -> (command: Option<CommandLine>)
    ensures
        match ProcessKind::from_name(kind@) {
            Some(k) => command is Some && command->0@ == sweep(k, platform),
            None => command is None,
        },
{
    match ProcessKind::parse(kind) {
        Some(k) => Some(sweep_command(k, platform)),
        None => None,
    }
}

/// Whether a scan found a process of the role that `kind` names. A name
/// that addresses no role, a scan that found nothing and a scan that could
/// not be run all count as not running.
pub fn is_matching_process_running(kind: &str, outcome: ScanOutcome) -> (running: bool)
    ensures
        running == (ProcessKind::from_name(kind@) is Some && outcome == ScanOutcome::Found),
{
    match ProcessKind::parse(kind) {
        Some(_) => outcome == ScanOutcome::Found,
        None => false,
    }
}

/// The arguments that start a child of the role. Only the gateway knows a
/// verbose mode.
pub fn start_args(kind: ProcessKind, verbose: bool) -> (args: Vec<String>)
    ensures
        texts(args@) == start_arguments(kind, verbose),
{
    match kind {
        ProcessKind::Agent => {
            arguments(&["-u", "-m", "nanobot", "agent", "--daemon"])
        },
        ProcessKind::Gateway => {
            let mut args = arguments(&["-u", "-m", "nanobot", "gateway"]);
            if verbose {
                args.push("--verbose".to_owned());
            }
            args
        },
    }
}

/// Whether a child of the role is given an input channel of its own. The
/// agent is, as it is spoken to; the gateway has none.
pub open spec fn has_input(kind: ProcessKind) -> bool {
    kind == ProcessKind::Agent
}

/// Whether a child of the role is given an input channel of its own.
pub fn stdin_piped(kind: ProcessKind) -> (piped: bool)
    ensures
        piped == has_input(kind),
{
    match kind {
        ProcessKind::Agent => true,
        ProcessKind::Gateway => false,
    }
}

/// How a scan ended, from whether it could be run and whether it then
/// succeeded.
pub open spec fn outcome_of(ran: Option<bool>) -> ScanOutcome {
    match ran {
        Some(true) => ScanOutcome::Found,
        Some(false) => ScanOutcome::NotFound,
        None => ScanOutcome::Unavailable,
    }
}

/// How a scan ended: `ran` is `None` where it could not be run, and else
/// tells whether it succeeded.
pub fn scan_outcome(ran: Option<bool>) -> (outcome: ScanOutcome)
    ensures
        outcome == outcome_of(ran),
{
    match ran {
        Some(true) => ScanOutcome::Found,
        Some(false) => ScanOutcome::NotFound,
        None => ScanOutcome::Unavailable,
    }
}

} // verus!
