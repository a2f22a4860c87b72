//! The bounded history of log lines and the flag that decides on their push to
//! the consumer.

use crate::kind::{ProcessKind, StreamKind};
use std::collections::VecDeque;
use vstd::prelude::*;

verus! {

/// How many entries the history of a running shell keeps.
pub const MAX_LOG_LINES: usize = 2000;

/// One logical line of a child's output, or a line the supervisor wrote
/// itself.
#[derive(Debug, PartialEq, Eq)]
pub struct LogEntry {
    pub kind: ProcessKind,
    pub stream: StreamKind,
    pub text: String,
}

/// What a `LogEntry` says.
pub struct LogRecord {
    pub kind: ProcessKind,
    pub stream: StreamKind,
    pub text: Seq<char>,
}

impl View for LogEntry {
    type V = LogRecord;

    open spec fn view(&self) -> LogRecord {
        LogRecord { kind: self.kind, stream: self.stream, text: self.text@ }
    }
}

impl Clone for LogEntry {
    fn clone(&self) -> (copy: Self)
        ensures
            copy == *self,
    {
        LogEntry { kind: self.kind, stream: self.stream, text: self.text.clone() }
    }
}

impl LogEntry {
    /// The entry that says `text` for `kind` on `stream`.
    pub fn new(kind: ProcessKind, stream: StreamKind, text: String) -> (entry: Self)
        ensures
            entry@ == (LogRecord { kind, stream, text: text@ }),
    {
        LogEntry { kind, stream, text }
    }
}

/// What each of `entries` says, in the same order.
pub open spec fn records(entries: Seq<LogEntry>) -> Seq<LogRecord> {
    entries.map_values(|e: LogEntry| e@)
}

/// The last `n` items of `s`, or all of `s` where it holds fewer.
pub open spec fn keep_last<T>(s: Seq<T>, n: nat) -> Seq<T> {
    if s.len() <= n {
        s
    } else {
        s.skip(s.len() - n)
    }
}

/// What a history that may hold `capacity` records holds after `record` is
/// appended to `history`.
pub open spec fn appended(history: Seq<LogRecord>, record: LogRecord, capacity: nat) -> Seq<
    LogRecord,
> {
    keep_last(history.push(record), capacity)
}

/// What a history holds after each of `records` was appended in turn.
pub open spec fn appended_all(history: Seq<LogRecord>, records: Seq<LogRecord>, capacity: nat) -> Seq<
    LogRecord,
>
    decreases records.len(),
{
    if records.len() == 0 {
        history
    } else {
        appended(appended_all(history, records.drop_last(), capacity), records.last(), capacity)
    }
}

/// An insertion-ordered history of at most `capacity` entries. Appending to
/// a full history evicts its oldest entry.
pub struct LogStore {
    entries: VecDeque<LogEntry>,
    capacity: usize,
    streaming: bool,
}

impl LogStore {
    #[verifier::type_invariant]
    spec fn within_capacity(self) -> bool {
        self.entries@.len() <= self.capacity
    }

    /// The entries held, oldest first.
    pub closed spec fn view(&self) -> Seq<LogRecord> {
        records(self.entries@)
    }

    /// The most entries the history keeps.
    pub closed spec fn limit(&self) -> nat {
        self.capacity as nat
    }

    /// Whether appended entries are also pushed to the consumer.
    pub closed spec fn streaming(&self) -> bool {
        self.streaming
    }

    /// An empty history that keeps `capacity` entries and does not push.
    pub fn new(capacity: usize) -> (store: Self)
        ensures
            store@ == Seq::<LogRecord>::empty(),
            store.limit() == capacity,
            !store.streaming(),
    {
        LogStore { entries: VecDeque::new(), capacity, streaming: false }
    }

    /// Appends `entry`, evicting the oldest entry first where the history is
    /// full. Says whether the entry is to be pushed to the consumer as well.
    pub fn append(&mut self, entry: LogEntry) -> (notify: bool)
        ensures
            final(self)@ == appended(old(self)@, entry@, old(self).limit()),
            final(self)@.len() <= final(self).limit(),
            final(self).limit() == old(self).limit(),
            final(self).streaming() == old(self).streaming(),
            notify == old(self).streaming(),
    {
        proof {
            use_type_invariant(&*self);
        }
        if self.capacity > 0 {
            let mut entries: VecDeque<LogEntry> = VecDeque::new();
            std::mem::swap(&mut entries, &mut self.entries);
            if entries.len() >= self.capacity {
                entries.pop_front();
            }
            entries.push_back(entry);
            self.entries = entries;
        }
        self.streaming
    }

    /// A copy of the entries held, oldest first.
    pub fn snapshot(&self) -> (entries: Vec<LogEntry>)
        ensures
            records(entries@) == self@,
    {
        let mut entries: Vec<LogEntry> = Vec::new();
        let mut i: usize = 0;
        while i < self.entries.len()
            invariant
                i <= self.entries@.len(),
                entries@ == self.entries@.take(i as int),
            decreases self.entries@.len() - i,
        {
            entries.push(self.entries[i].clone());
            i += 1;
        }
        entries
    }

    /// Turns pushing on or off. The history is left as it is, and nothing
    /// of it is replayed.
    pub fn set_streaming(&mut self, enabled: bool)
        ensures
            final(self).streaming() == enabled,
            final(self)@ == old(self)@,
            final(self).limit() == old(self).limit(),
    {
        proof {
            use_type_invariant(&*self);
        }
        self.streaming = enabled;
    }

    /// Whether appended entries are also pushed to the consumer.
    pub fn streaming_enabled(&self) -> (enabled: bool)
        ensures
            enabled == self.streaming(),
    {
        self.streaming
    }

    /// How many entries are held: never more than the capacity.
    pub fn len(&self) -> (n: usize)
        ensures
            n == self@.len(),
            n <= self.limit(),
    {
        proof {
            use_type_invariant(self);
        }
        self.entries.len()
    }

    /// Whether no entry is held.
    pub fn is_empty(&self) -> (empty: bool)
        ensures
            empty == (self@.len() == 0),
    {
        self.entries.len() == 0
    }

    /// The most entries the history keeps.
    pub fn capacity(&self) -> (capacity: usize)
        ensures
            capacity == self.limit(),
    {
        self.capacity
    }
}

/// A history within its capacity stays within it, whatever is appended.
pub proof fn lemma_appended_within_capacity(
    history: Seq<LogRecord>,
    record: LogRecord,
    capacity: nat,
)
    ensures
        appended(history, record, capacity).len() <= capacity,
        capacity > 0 ==> appended(history, record, capacity).len() > 0 && appended(
            history,
            record,
            capacity,
        ).last() == record,
{
}

/// Appending entries one by one keeps the history within its capacity and
/// leaves the newest of all that were ever held, in the order in which they
/// came: the oldest are the ones evicted.
pub proof fn lemma_append_is_fifo(history: Seq<LogRecord>, records: Seq<LogRecord>, capacity: nat)
    requires
        history.len() <= capacity,
    ensures
        appended_all(history, records, capacity) == keep_last(history + records, capacity),
        appended_all(history, records, capacity).len() <= capacity,
    decreases records.len(),
{
    if records.len() > 0 {
        lemma_append_is_fifo(history, records.drop_last(), capacity);
    }
}

/// One entry more than an empty history can keep evicts exactly the first.
pub proof fn lemma_overflow_by_one(records: Seq<LogRecord>, capacity: nat)
    requires
        records.len() == capacity + 1,
    ensures
        appended_all(Seq::empty(), records, capacity) == records.skip(1),
{
    lemma_append_is_fifo(Seq::empty(), records, capacity);
}

/// Nothing in the history is made up: every record that it holds after any
/// number of appends was held before or was appended, as a whole. Writers
/// that take turns in any order cannot mix their lines.
pub proof fn lemma_entries_are_kept_whole(
    history: Seq<LogRecord>,
    records: Seq<LogRecord>,
    capacity: nat,
)
    requires
        history.len() <= capacity,
    ensures
        forall|i: int|
            0 <= i < appended_all(history, records, capacity).len() ==> (history
                + records).contains(#[trigger] appended_all(history, records, capacity)[i]),
{
    lemma_append_is_fifo(history, records, capacity);
}

} // verus!
