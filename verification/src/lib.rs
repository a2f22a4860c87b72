//! The core of a desktop shell that runs two background workers, the
//! "agent" and the "gateway": it splits their output into lines, keeps a
//! bounded history of them, keeps track of which child runs for which
//! role, and says how children are started, looked for and terminated.
//!
//! Everything here is plain data in, plain data out. Spawning processes,
//! reading pipes, locking the shared state and touching files belong to the
//! caller, who hands in what it has seen and carries out what it is told.
//!
//! - `line_splitter`, `reader`: from chunks of output to log entries.
//! - `log_store`: the bounded history.
//! - `supervisor`: the shared state and what a start, a stop or a status
//!   report comes to.
//! - `command`, `runtime`: the command lines of the children and of the
//!   tools that terminate and look for them.
//! - `kind`: the roles and the streams.
//! - `onboard`, `message`: the first setup, and single messages to the agent.
//! - `paths`, `names`, `sessions`, `json`: where files are, what they may be
//!   called, and what recorded sessions and configurations hold.
//! - `text`: characters, white space and lines.

pub mod command;
pub mod json;
pub mod kind;
pub mod line_splitter;
pub mod log_store;
pub mod message;
pub mod names;
pub mod onboard;
pub mod paths;
pub mod reader;
pub mod runtime;
pub mod sessions;
pub mod supervisor;
pub mod text;
