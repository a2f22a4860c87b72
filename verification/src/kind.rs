//! The supervised roles and the output streams of a child.

use crate::text::same_text;
use vstd::prelude::*;

verus! {

/// One of the fixed supervised roles.
#[derive(Clone, Copy, Debug, PartialEq, Eq, Hash, Structural)]
pub enum ProcessKind {
    Agent,
    Gateway,
}

/// One of a child's two output channels.
#[derive(Clone, Copy, Debug, PartialEq, Eq, Hash, Structural)]
pub enum StreamKind {
    Stdout,
    Stderr,
}

impl ProcessKind {
    /// The name by which callers address the role.
    pub open spec fn name(self) -> Seq<char> {
        match self {
            ProcessKind::Agent => "agent"@,
            ProcessKind::Gateway => "gateway"@,
        }
    }

    /// The role that a name addresses, if any.
    pub open spec fn from_name(name: Seq<char>) -> Option<ProcessKind> {
        if name == "agent"@ {
            Some(ProcessKind::Agent)
        } else if name == "gateway"@ {
            Some(ProcessKind::Gateway)
        } else {
            None
        }
    }

    /// The substring of a command line by which a process of this role is
    /// recognised when it was not started from here.
    pub open spec fn pattern(self) -> Seq<char> {
        match self {
            ProcessKind::Agent => "nanobot agent"@,
            ProcessKind::Gateway => "nanobot gateway"@,
        }
    }

    /// The log line written once a child of this role has been started.
    pub open spec fn started_message(self) -> Seq<char> {
        match self {
            ProcessKind::Agent => "Agent started"@,
            ProcessKind::Gateway => "Gateway started"@,
        }
    }

    /// What precedes the reason in the log line of a failed start.
    pub open spec fn failure_prefix(self) -> Seq<char> {
        match self {
            ProcessKind::Agent => "Failed to start agent: "@,
            ProcessKind::Gateway => "Failed to start gateway: "@,
        }
    }

    /// The name by which callers address the role.
    pub fn as_str(self) -> (s: &'static str)
        ensures
            s@ == self.name(),
    {
        match self {
            ProcessKind::Agent => "agent",
            ProcessKind::Gateway => "gateway",
        }
    }

    /// The role that `name` addresses, if any.
    pub fn parse(name: &str) -> (kind: Option<ProcessKind>)
        ensures
            kind == Self::from_name(name@),
    {
        if same_text(name, "agent") {
            Some(ProcessKind::Agent)
        } else if same_text(name, "gateway") {
            Some(ProcessKind::Gateway)
        } else {
            None
        }
    }

    /// The substring of a command line by which a process of this role is
    /// recognised.
    pub fn match_pattern(self) -> (s: &'static str)
        ensures
            s@ == self.pattern(),
    {
        match self {
            ProcessKind::Agent => "nanobot agent",
            ProcessKind::Gateway => "nanobot gateway",
        }
    }

    /// The log line written once a child of this role has been started.
    pub fn started_text(self) -> (s: &'static str)
        ensures
            s@ == self.started_message(),
    {
        match self {
            ProcessKind::Agent => "Agent started",
            ProcessKind::Gateway => "Gateway started",
        }
    }

    /// What precedes the reason in the log line of a failed start.
    pub fn failure_text(self) -> (s: &'static str)
        ensures
            s@ == self.failure_prefix(),
    {
        match self {
            ProcessKind::Agent => "Failed to start agent: ",
            ProcessKind::Gateway => "Failed to start gateway: ",
        }
    }
}

impl StreamKind {
    /// The name by which the channel is known.
    pub open spec fn name(self) -> Seq<char> {
        match self {
            StreamKind::Stdout => "stdout"@,
            StreamKind::Stderr => "stderr"@,
        }
    }

    /// The channel that a name stands for, if any.
    pub open spec fn from_name(name: Seq<char>) -> Option<StreamKind> {
        if name == "stdout"@ {
            Some(StreamKind::Stdout)
        } else if name == "stderr"@ {
            Some(StreamKind::Stderr)
        } else {
            None
        }
    }

    /// The channel that `name` stands for, if any.
    pub fn parse(name: &str) -> (stream: Option<StreamKind>)
        ensures
            stream == Self::from_name(name@),
    {
        if same_text(name, "stdout") {
            Some(StreamKind::Stdout)
        } else if same_text(name, "stderr") {
            Some(StreamKind::Stderr)
        } else {
            None
        }
    }

    /// The name by which the channel is known.
    pub fn as_str(self) -> (s: &'static str)
        ensures
            s@ == self.name(),
    {
        match self {
            StreamKind::Stdout => "stdout",
            StreamKind::Stderr => "stderr",
        }
    }
}

/// What a caller is told when it names a role that does not exist.
pub open spec fn unknown_process() -> Seq<char> {
    "unknown process"@
}

/// The role that `name` addresses, or the error for a name that addresses none.
pub fn parse_kind(name: &str) -> (r: Result<ProcessKind, String>)
    ensures
        match ProcessKind::from_name(name@) {
            Some(kind) => r == Ok::<ProcessKind, String>(kind),
            None => r is Err && r->Err_0@ == unknown_process(),
        },
{
    match ProcessKind::parse(name) {
        Some(kind) => Ok(kind),
        None => Err("unknown process".to_owned()),
    }
}

/// A role's name addresses that role, and the two names differ.
pub proof fn lemma_name_round_trip(kind: ProcessKind)
    ensures
        ProcessKind::from_name(kind.name()) == Some(kind),
        ProcessKind::Agent.name() != ProcessKind::Gateway.name(),
{
    reveal_strlit("agent");
    reveal_strlit("gateway");
    assert("agent"@.len() != "gateway"@.len());
}

} // verus!
