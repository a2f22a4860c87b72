//! The supervisor's bookkeeping: which child is tracked for each role, the
//! log history, and what is to be done when a start, a stop or a status
//! report is asked for.
//!
//! Nothing here touches a process. The caller asks the operating system
//! whether a tracked child has exited and hands the answer in; it gets back
//! what to do (spawn, kill, run a command) and reports how a spawn went.
//! The state is meant to be held behind one lock, each function called with
//! the lock taken.
//!
//! A role is stopped while no child is tracked for it and running while one
//! is. It is starting from the moment a start is decided until the caller
//! reports how the spawn went, and stopping while the caller carries out
//! what a stop has handed back; the state holds no child for it during
//! either.

use crate::command::{
    invocations, kill_process_tree, scan, scan_command, sweep, sweep_command, tree_kill,
    CommandLine, Invocation, Platform, ScanOutcome,
};
use crate::kind::{parse_kind, unknown_process, ProcessKind, StreamKind};
use crate::log_store::{appended, records, LogEntry, LogRecord, LogStore, MAX_LOG_LINES};
use crate::text::join_text;
use vstd::prelude::*;

verus! {

/// What the supervisor's state says: the process identifier of the child
/// tracked for each role, if one is, and the log history.
pub struct Supervision {
    pub agent: Option<u32>,
    pub gateway: Option<u32>,
    pub logs: Seq<LogRecord>,
    pub streaming: bool,
    pub limit: nat,
}

impl Supervision {
    /// The child tracked for the role.
    pub open spec fn child_of(self, kind: ProcessKind) -> Option<u32> {
        match kind {
            ProcessKind::Agent => self.agent,
            ProcessKind::Gateway => self.gateway,
        }
    }

    /// The state with `slot` as what is tracked for the role.
    pub open spec fn with_slot(self, kind: ProcessKind, slot: Option<u32>) -> Supervision {
        match kind {
            ProcessKind::Agent => Supervision { agent: slot, ..self },
            ProcessKind::Gateway => Supervision { gateway: slot, ..self },
        }
    }

    /// The state with `record` appended to its history.
    pub open spec fn with_entry(self, record: LogRecord) -> Supervision {
        Supervision { logs: appended(self.logs, record, self.limit), ..self }
    }

    /// Whether a child of the role is tracked and alive, where `exited`
    /// says whether the operating system has seen the tracked child exit.
    pub open spec fn is_managed(self, kind: ProcessKind, exited: bool) -> bool {
        self.child_of(kind) is Some && !exited
    }

    /// The state once the tracked child of the role has been held against
    /// what the operating system says: a child that has exited is tracked no
    /// longer.
    pub open spec fn refreshed(self, kind: ProcessKind, exited: bool) -> Supervision {
        if self.is_managed(kind, exited) {
            self
        } else {
            self.with_slot(kind, None)
        }
    }

    /// The state once a child of the role has been spawned as `pid`.
    pub open spec fn started(self, kind: ProcessKind, pid: u32) -> Supervision {
        self.with_slot(kind, Some(pid)).with_entry(
            LogRecord { kind, stream: StreamKind::Stdout, text: kind.started_message() },
        )
    }

    /// The state once spawning a child of the role has failed for `reason`.
    pub open spec fn failed(self, kind: ProcessKind, reason: Seq<char>) -> Supervision {
        self.with_entry(
            LogRecord { kind, stream: StreamKind::Stderr, text: kind.failure_prefix() + reason },
        )
    }

    /// The state once the role has been stopped.
    pub open spec fn stopped(self, kind: ProcessKind) -> Supervision {
        self.with_slot(kind, None)
    }
}

/// What a start request comes to.
#[derive(Clone, Copy, Debug, PartialEq, Eq, Structural)]
pub enum StartDecision {
    /// A child of the role is tracked and alive: nothing is to be done.
    AlreadyRunning,
    /// No child of the role is tracked any more: one is to be spawned.
    Spawn,
}

/// What a start request comes to, given whether the role is managed.
pub open spec fn start_decision(managed: bool) -> StartDecision {
    if managed {
        StartDecision::AlreadyRunning
    } else {
        StartDecision::Spawn
    }
}

/// One thing for the caller to do. None of them can fail the operation that
/// asked for it: termination is best effort.
#[derive(Debug, PartialEq, Eq)]
pub enum Action {
    /// Kill the child that was tracked, through its own handle.
    KillChild { pid: u32 },
    /// Run the command, wait for it, and ignore how it ends.
    Run(CommandLine),
}

/// What an `Action` says.
pub enum Deed {
    KillChild { pid: u32 },
    Run(Invocation),
}

impl View for Action {
    type V = Deed;

    open spec fn view(&self) -> Deed {
        match self {
            Action::KillChild { pid } => Deed::KillChild { pid: *pid },
            Action::Run(command) => Deed::Run(command@),
        }
    }
}

/// What each of `actions` says, in the same order.
pub open spec fn deeds(actions: Seq<Action>) -> Seq<Deed> {
    actions.map_values(|a: Action| a@)
}

/// What terminates the child that was tracked in `slot`: the child itself
/// is killed, then its process tree. Nothing where no child was tracked.
pub open spec fn termination(slot: Option<u32>, platform: Platform) -> Seq<Deed> {
    match slot {
        Some(pid) => seq![Deed::KillChild { pid }] + tree_kill(pid, platform).map_values(
            |c: Invocation| Deed::Run(c),
        ),
        None => Seq::empty(),
    }
}

/// What stopping a role comes to: the termination of the child that was
/// tracked, and in any case the sweep for other processes of the role.
pub open spec fn stop_plan(slot: Option<u32>, kind: ProcessKind, platform: Platform) -> Seq<Deed> {
    termination(slot, platform).push(Deed::Run(sweep(kind, platform)))
}

/// What stopping everything at shutdown comes to: the termination of both
/// tracked children, the agent's first.
pub open spec fn stop_all_plan(state: Supervision, platform: Platform) -> Seq<Deed> {
    termination(state.agent, platform) + termination(state.gateway, platform)
}

/// What the shutdown of the shell comes to: the termination of both
/// tracked children, and the sweep for stray processes of either role.
pub open spec fn shutdown_plan(state: Supervision, platform: Platform) -> Seq<Deed> {
    stop_all_plan(state, platform).push(Deed::Run(sweep(ProcessKind::Agent, platform))).push(
        Deed::Run(sweep(ProcessKind::Gateway, platform)),
    )
}

/// What is known of a role when its status is asked for.
#[derive(Clone, Copy, Debug, PartialEq, Eq, Structural)]
pub enum Presence {
    /// A child of the role is tracked and alive.
    Managed,
    /// None is tracked; an external scan is to decide.
    Scan,
    /// None is tracked, and no scan is wanted.
    Absent,
}

/// What is known of a role that is or is not managed, where a scan is or
/// is not wanted.
pub open spec fn presence(managed: bool, scan_enabled: bool) -> Presence {
    if managed {
        Presence::Managed
    } else if scan_enabled {
        Presence::Scan
    } else {
        Presence::Absent
    }
}

/// Whether a role counts as running: it is managed, or a scan was asked for
/// and found it.
pub open spec fn is_running(presence: Presence, outcome: ScanOutcome) -> bool {
    presence == Presence::Managed || (presence == Presence::Scan && outcome == ScanOutcome::Found)
}

/// What is known of both roles, before any scan.
#[derive(Clone, Copy, Debug, PartialEq, Eq, Structural)]
pub struct StatusQuery {
    pub agent: Presence,
    pub gateway: Presence,
}

/// The status report.
#[derive(Clone, Copy, Debug, PartialEq, Eq, Structural)]
pub struct StatusPayload {
    pub agent: bool,
    pub gateway: bool,
}

/// What a failed start leaves for the caller.
#[derive(Debug, PartialEq, Eq)]
pub struct StartFailure {
    /// The error to return: the reason as it was given.
    pub error: String,
    /// The entry that was logged, where it is to be pushed as well.
    pub notify: Option<LogEntry>,
}

/// The one shared state of the supervisor.
pub struct ProcState {
    agent: Option<u32>,
    gateway: Option<u32>,
    logs: LogStore,
}

fn run_all(actions: &mut Vec<Action>, commands: Vec<CommandLine>)
    ensures
        deeds(final(actions)@) == deeds(old(actions)@) + invocations(commands@).map_values(
            |c: Invocation| Deed::Run(c),
        ),
{
    let ghost before = deeds(actions@);
    let ghost all = commands@;
    for command in it: commands
        invariant
            it.seq() == all,
            deeds(actions@) == before + invocations(all.take(it.index())).map_values(
                |c: Invocation| Deed::Run(c),
            ),
    {
        let ghost held = actions@;
        actions.push(Action::Run(command));
        assert(deeds(actions@) =~= deeds(held).push(Deed::Run(command@)));
    }
}

fn terminate(slot: Option<u32>, platform: Platform, actions: &mut Vec<Action>)
    ensures
        deeds(final(actions)@) == deeds(old(actions)@) + termination(slot, platform),
{
    if let Some(pid) = slot {
        actions.push(Action::KillChild { pid });
        run_all(actions, kill_process_tree(pid, platform));
    }
}

impl ProcState {
    /// What the state says.
    pub closed spec fn view(&self) -> Supervision {
        Supervision {
            agent: self.agent,
            gateway: self.gateway,
            logs: self.logs@,
            streaming: self.logs.streaming(),
            limit: self.logs.limit(),
        }
    }

    /// A state that tracks no child, with an empty history of
    /// `MAX_LOG_LINES` entries that is not pushed.
    pub fn new() -> (state: Self)
        ensures
            state@ == (Supervision {
                agent: None,
                gateway: None,
                logs: Seq::empty(),
                streaming: false,
                limit: MAX_LOG_LINES as nat,
            }),
    {
        ProcState { agent: None, gateway: None, logs: LogStore::new(MAX_LOG_LINES) }
    }

    /// As `new`, with a history of `capacity` entries.
    pub fn with_capacity(capacity: usize) -> (state: Self)
        ensures
            state@ == (Supervision {
                agent: None,
                gateway: None,
                logs: Seq::empty(),
                streaming: false,
                limit: capacity as nat,
            }),
    {
        ProcState { agent: None, gateway: None, logs: LogStore::new(capacity) }
    }

    /// The process identifier of the child tracked for the role.
    pub fn child(&self, kind: ProcessKind) -> (slot: Option<u32>)
        ensures
            slot == self@.child_of(kind),
    {
        match kind {
            ProcessKind::Agent => self.agent,
            ProcessKind::Gateway => self.gateway,
        }
    }

    fn set_child(&mut self, kind: ProcessKind, slot: Option<u32>)
        ensures
            final(self)@ == old(self)@.with_slot(kind, slot),
    {
        match kind {
            ProcessKind::Agent => {
                self.agent = slot;
            },
            ProcessKind::Gateway => {
                self.gateway = slot;
            },
        }
    }

    /// Appends a line to the history. Hands back a copy of the entry where
    /// it is to be pushed to the consumer as well.
    pub fn emit_log(&mut self, kind: ProcessKind, line: String, stream: StreamKind) -> (notify:
        Option<LogEntry>)
        ensures
            final(self)@ == old(self)@.with_entry(LogRecord { kind, stream, text: line@ }),
            final(self)@.logs.len() <= final(self)@.limit,
            match notify {
                Some(entry) => old(self)@.streaming && entry@ == (LogRecord {
                    kind,
                    stream,
                    text: line@,
                }),
                None => !old(self)@.streaming,
            },
    {
        let entry = LogEntry::new(kind, stream, line);
        if self.logs.streaming_enabled() {
            let copy = entry.clone();
            self.logs.append(entry);
            Some(copy)
        } else {
            self.logs.append(entry);
            None
        }
    }

    /// Holds the tracked child of the role against what the operating
    /// system says of it: `exited` tells whether it was seen to have exited.
    /// Says whether a child is tracked afterwards.
    pub fn refresh_child(&mut self, kind: ProcessKind, exited: bool) -> (managed: bool)
        ensures
            managed == old(self)@.is_managed(kind, exited),
            final(self)@ == old(self)@.refreshed(kind, exited),
    {
        match self.child(kind) {
            Some(_) => {
                if exited {
                    self.set_child(kind, None);
                    false
                } else {
                    true
                }
            },
            None => {
                false
            },
        }
    }

    /// Decides a start request for the role. A child that is tracked and
    /// alive is left alone; otherwise the role is tracked no longer and a
    /// child is to be spawned.
    pub fn begin_start(&mut self, kind: ProcessKind, exited: bool) -> (decision: StartDecision)
        ensures
            decision == start_decision(old(self)@.is_managed(kind, exited)),
            final(self)@ == old(self)@.refreshed(kind, exited),
    {
        if self.refresh_child(kind, exited) {
            StartDecision::AlreadyRunning
        } else {
            StartDecision::Spawn
        }
    }

    /// Records that a child of the role was spawned as `pid`, and logs it.
    pub fn child_started(&mut self, kind: ProcessKind, pid: u32) -> (notify: Option<LogEntry>)
        ensures
            final(self)@ == old(self)@.started(kind, pid),
            match notify {
                Some(entry) => old(self)@.streaming && entry@ == (LogRecord {
                    kind,
                    stream: StreamKind::Stdout,
                    text: kind.started_message(),
                }),
                None => !old(self)@.streaming,
            },
    {
        self.set_child(kind, Some(pid));
        self.emit_log(kind, kind.started_text().to_owned(), StreamKind::Stdout)
    }

    /// Records that spawning a child of the role failed for `reason`: the
    /// failure is logged on the error channel, and no child is tracked for
    /// it. The error to return is the reason itself.
    pub fn start_failed(&mut self, kind: ProcessKind, reason: &str) -> (failure: StartFailure)
        ensures
            final(self)@ == old(self)@.failed(kind, reason@),
            failure.error@ == reason@,
            match failure.notify {
                Some(entry) => old(self)@.streaming && entry@ == (LogRecord {
                    kind,
                    stream: StreamKind::Stderr,
                    text: kind.failure_prefix() + reason@,
                }),
                None => !old(self)@.streaming,
            },
    {
        let line = join_text(kind.failure_text(), reason);
        let notify = self.emit_log(kind, line, StreamKind::Stderr);
        StartFailure { error: reason.to_owned(), notify }
    }

    /// Stops the role: its child is tracked no longer, and what is handed
    /// back terminates it and sweeps for other processes of the role.
    pub fn stop(&mut self, kind: ProcessKind, platform: Platform) -> (actions: Vec<Action>)
        ensures
            final(self)@ == old(self)@.stopped(kind),
            deeds(actions@) == stop_plan(old(self)@.child_of(kind), kind, platform),
    {
        let slot = self.child(kind);
        self.set_child(kind, None);
        let mut actions: Vec<Action> = Vec::new();
        terminate(slot, platform, &mut actions);
        actions.push(Action::Run(sweep_command(kind, platform)));
        actions
    }

    /// Stops both roles for shutdown: no child is tracked afterwards, and
    /// what is handed back terminates those that were.
    pub fn stop_all_processes(&mut self, platform: Platform) -> (actions: Vec<Action>)
        ensures
            final(self)@ == old(self)@.stopped(ProcessKind::Agent).stopped(ProcessKind::Gateway),
            deeds(actions@) == stop_all_plan(old(self)@, platform),
    {
        let agent = self.agent;
        let gateway = self.gateway;
        self.agent = None;
        self.gateway = None;
        let mut actions: Vec<Action> = Vec::new();
        terminate(agent, platform, &mut actions);
        terminate(gateway, platform, &mut actions);
        actions
    }

    /// Stops everything before the shell exits: both roles are stopped as
    /// by `stop_all_processes`, and stray processes of either role are swept
    /// away, so that no child outlives the shell.
    pub fn shutdown(&mut self, platform: Platform) -> (actions: Vec<Action>)
        ensures
            final(self)@ == old(self)@.stopped(ProcessKind::Agent).stopped(ProcessKind::Gateway),
            deeds(actions@) == shutdown_plan(old(self)@, platform),
    {
        let mut actions = self.stop_all_processes(platform);
        actions.push(Action::Run(sweep_command(ProcessKind::Agent, platform)));
        actions.push(Action::Run(sweep_command(ProcessKind::Gateway, platform)));
        actions
    }

    /// Reconciles both tracked children with what the operating system says
    /// of them and tells what is known of each role. Where a role is not
    /// managed and `scan_enabled` holds, an external scan is to decide.
    pub fn get_status(&mut self, agent_exited: bool, gateway_exited: bool, scan_enabled: bool) -> (query:
        StatusQuery)
        ensures
            final(self)@ == old(self)@.refreshed(ProcessKind::Agent, agent_exited).refreshed(
                ProcessKind::Gateway,
                gateway_exited,
            ),
            query.agent == presence(
                old(self)@.is_managed(ProcessKind::Agent, agent_exited),
                scan_enabled,
            ),
            query.gateway == presence(
                old(self)@.is_managed(ProcessKind::Gateway, gateway_exited),
                scan_enabled,
            ),
    {
        let agent_managed = self.refresh_child(ProcessKind::Agent, agent_exited);
        let gateway_managed = self.refresh_child(ProcessKind::Gateway, gateway_exited);
        StatusQuery {
            agent: presence_of(agent_managed, scan_enabled),
            gateway: presence_of(gateway_managed, scan_enabled),
        }
    }

    /// A copy of the log history, oldest entry first.
    pub fn get_logs(&self) -> (entries: Vec<LogEntry>)
        ensures
            records(entries@) == self@.logs,
    {
        self.logs.snapshot()
    }

    /// Turns the pushing of new entries on or off. The history is left as
    /// it is.
    pub fn set_log_streaming(&mut self, enabled: bool)
        ensures
            final(self)@ == (Supervision { streaming: enabled, ..old(self)@ }),
    {
        self.logs.set_streaming(enabled);
    }

    /// How many entries the history holds: never more than its capacity.
    pub fn log_count(&self) -> (n: usize)
        ensures
            n == self@.logs.len(),
            n <= self@.limit,
    {
        self.logs.len()
    }
}

impl Default for ProcState {
    /// As `ProcState::new`.
    fn default() -> (state: Self)
        ensures
            state@ == (Supervision {
                agent: None,
                gateway: None,
                logs: Seq::empty(),
                streaming: false,
                limit: MAX_LOG_LINES as nat,
            }),
    {
        ProcState::new()
    }
}

/// What is known of a role that is or is not managed.
pub fn presence_of(managed: bool, scan_enabled: bool) -> (p: Presence)
    ensures
        p == presence(managed, scan_enabled),
{
    if managed {
        Presence::Managed
    } else if scan_enabled {
        Presence::Scan
    } else {
        Presence::Absent
    }
}

impl StatusQuery {
    /// The command of the scan that is to decide for the role, if one is.
    pub fn scan_for(&self, kind: ProcessKind, platform: Platform) -> (command: Option<CommandLine>)
        ensures
            match command {
                Some(c) => self.presence_of(kind) == Presence::Scan && c@ == scan(kind, platform),
                None => self.presence_of(kind) != Presence::Scan,
            },
    {
        let presence = match kind {
            ProcessKind::Agent => self.agent,
            ProcessKind::Gateway => self.gateway,
        };
        if presence == Presence::Scan {
            Some(scan_command(kind, platform))
        } else {
            None
        }
    }

    /// What is known of the role.
    pub open spec fn presence_of(&self, kind: ProcessKind) -> Presence {
        match kind {
            ProcessKind::Agent => self.agent,
            ProcessKind::Gateway => self.gateway,
        }
    }

    /// The status report, given how the scans ended. The outcome of a scan
    /// that was not asked for is of no account.
    pub fn answer(&self, agent_scan: ScanOutcome, gateway_scan: ScanOutcome) -> (status:
        StatusPayload)
        ensures
            status.agent == is_running(self.agent, agent_scan),
            status.gateway == is_running(self.gateway, gateway_scan),
    {
        StatusPayload {
            agent: self.agent == Presence::Managed || (self.agent == Presence::Scan && agent_scan
                == ScanOutcome::Found),
            gateway: self.gateway == Presence::Managed || (self.gateway == Presence::Scan
                && gateway_scan == ScanOutcome::Found),
        }
    }
}

/// Decides a start request for the role that `kind` names. A name that
/// addresses no role is an error, and the state is left as it is.
pub fn start_process_inner(kind: &str, state: &mut ProcState, exited: bool) -> (r: Result<
    StartDecision,
    String,
>)
    ensures
        match ProcessKind::from_name(kind@) {
            Some(k) => r == Ok::<StartDecision, String>(
                start_decision(old(state)@.is_managed(k, exited)),
            ) && final(state)@ == old(state)@.refreshed(k, exited),
            None => r is Err && r->Err_0@ == unknown_process() && final(state)@ == old(state)@,
        },
{
    match parse_kind(kind) {
        Ok(k) => Ok(state.begin_start(k, exited)),
        Err(e) => Err(e),
    }
}

/// Stops the role that `kind` names. This succeeds for either role,
/// whatever is tracked; only a name that addresses no role is an error, and
/// then the state is left as it is.
pub fn stop_process(kind: &str, state: &mut ProcState, platform: Platform) -> (r: Result<
    Vec<Action>,
    String,
>)
    ensures
        match ProcessKind::from_name(kind@) {
            Some(k) => r is Ok && deeds(r->Ok_0@) == stop_plan(
                old(state)@.child_of(k),
                k,
                platform,
            ) && final(state)@ == old(state)@.stopped(k),
            None => r is Err && r->Err_0@ == unknown_process() && final(state)@ == old(state)@,
        },
{
    match parse_kind(kind) {
        Ok(k) => Ok(state.stop(k, platform)),
        Err(e) => Err(e),
    }
}

/// A start that follows a recorded start, with the child still alive,
/// spawns nothing and changes nothing. The start of one role leaves the
/// other role as it was.
pub proof fn lemma_start_is_idempotent(state: Supervision, kind: ProcessKind, pid: u32)
    ensures
        start_decision(state.started(kind, pid).is_managed(kind, false))
            == StartDecision::AlreadyRunning,
        state.started(kind, pid).refreshed(kind, false) == state.started(kind, pid),
        forall|other: ProcessKind|
            other != kind ==> state.started(kind, pid).child_of(other) == state.child_of(other),
{
}

/// A child is tracked no longer only once it was seen to have exited, or
/// was stopped: a child that is alive stays tracked through any number of
/// start requests and status reports.
pub proof fn lemma_live_child_stays(state: Supervision, kind: ProcessKind, other_exited: bool)
    ensures
        state.refreshed(kind, false) == state,
        forall|other: ProcessKind|
            other != kind ==> state.refreshed(other, other_exited).child_of(kind)
                == state.child_of(kind),
{
}

/// Once a tracked child was seen to have exited, its role is absent
/// without any stop: no child is tracked for it, it is not managed whatever
/// is reported later, and without a scan it is reported as not running.
pub proof fn lemma_exit_is_noticed(state: Supervision, kind: ProcessKind, later: bool)
    ensures
        state.refreshed(kind, true).child_of(kind) is None,
        !state.refreshed(kind, true).is_managed(kind, later),
        forall|outcome: ScanOutcome|
            !is_running(
                presence(state.refreshed(kind, true).is_managed(kind, later), false),
                outcome,
            ),
{
}

/// Stopping a role always ends with the sweep for its stray processes,
/// and where no child is tracked it is the sweep alone.
pub proof fn lemma_stop_always_sweeps(slot: Option<u32>, kind: ProcessKind, platform: Platform)
    ensures
        stop_plan(slot, kind, platform).last() == Deed::Run(sweep(kind, platform)),
        stop_plan(None, kind, platform) == seq![Deed::Run(sweep(kind, platform))],
        slot matches Some(pid) ==> stop_plan(slot, kind, platform)[0] == (Deed::KillChild { pid }),
{
}

/// After a stop, no child of the role is tracked, and a later stop has
/// nothing left to kill: a child is killed through its handle at most once.
pub proof fn lemma_stop_takes_the_handle(state: Supervision, kind: ProcessKind, platform: Platform)
    ensures
        state.stopped(kind).child_of(kind) is None,
        termination(state.stopped(kind).child_of(kind), platform) == Seq::<Deed>::empty(),
        state.stopped(kind).logs == state.logs,
{
}

/// At shutdown every tracked child is killed, the agent first, and none is
/// tracked afterwards.
pub proof fn lemma_shutdown_kills_every_child(state: Supervision, platform: Platform)
    ensures
        state.agent matches Some(pid) ==> stop_all_plan(state, platform)[0] == (Deed::KillChild {
            pid,
        }),
        state.gateway matches Some(pid) ==> stop_all_plan(state, platform).contains(
            Deed::KillChild { pid },
        ),
        state.stopped(ProcessKind::Agent).stopped(ProcessKind::Gateway).agent is None,
        state.stopped(ProcessKind::Agent).stopped(ProcessKind::Gateway).gateway is None,
{
    if let Some(pid) = state.gateway {
        let first = termination(state.agent, platform);
        let second = termination(state.gateway, platform);
        assert((first + second)[first.len() as int] == Deed::KillChild { pid });
    }
}

/// Whatever is logged, the history stays within its capacity and the
/// streaming flag is left as it is.
pub proof fn lemma_log_stays_bounded(state: Supervision, record: LogRecord)
    ensures
        state.with_entry(record).logs.len() <= state.limit,
        state.with_entry(record).streaming == state.streaming,
        state.with_entry(record).agent == state.agent,
        state.with_entry(record).gateway == state.gateway,
{
}

} // verus!
