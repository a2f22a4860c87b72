//! What the reader of one output stream of one child decides: which log
//! entries a chunk of output gives, and what is written when the stream
//! ends. Reading the pipe is the caller's part.

use crate::kind::{ProcessKind, StreamKind};
use crate::line_splitter::{
    all_lines, emitted, fed_chunks, fed_lines, fed_pending, has_short_lines,
    lemma_chunking_is_immaterial, utf8_lossy, LineSplitter,
};
use crate::text::texts;
use crate::log_store::{records, LogEntry, LogRecord};
use vstd::prelude::*;
use vstd::utf8::{decode_utf8, valid_utf8};

verus! {

/// The text of the entry that marks the end of a stream.
pub open spec fn closing_text() -> Seq<char> {
    "Process exited or stream closed"@
}

/// The entry that marks the end of a stream of a child of `kind`. It is
/// written to the error channel, whichever stream has ended.
pub open spec fn closing_record(kind: ProcessKind) -> LogRecord {
    LogRecord { kind, stream: StreamKind::Stderr, text: closing_text() }
}

/// One record for each of `lines`, in the same order.
pub open spec fn records_of(kind: ProcessKind, stream: StreamKind, lines: Seq<Seq<char>>) -> Seq<
    LogRecord,
> {
    lines.map_values(|text: Seq<char>| LogRecord { kind, stream, text })
}

/// What a reader writes when `pending` is held back and its stream ends:
/// the line that was held back, if anything is left of it, and the closing
/// entry.
pub open spec fn closing_records(kind: ProcessKind, stream: StreamKind, pending: Seq<char>) -> Seq<
    LogRecord,
> {
    records_of(kind, stream, emitted(pending)).push(closing_record(kind))
}

/// How many bytes a read has brought, or `None` where the stream is over: it
/// is over when a read brings nothing and when a read fails.
pub open spec fn brought(read: Result<usize, ()>) -> Option<usize> {
    match read {
        Ok(n) => if n > 0 {
            Some(n)
        } else {
            None
        },
        Err(_) => None,
    }
}

/// The reader of one output stream of one child.
pub struct StreamReader {
    kind: ProcessKind,
    stream: StreamKind,
    splitter: LineSplitter,
}

/// What the end of a stream leaves behind.
#[derive(Debug, PartialEq, Eq)]
pub struct StreamEnd {
    /// The last entries of the stream, the closing entry at their end.
    pub entries: Vec<LogEntry>,
    /// The role whose exit is to be announced.
    pub exited: ProcessKind,
}

fn entries_for(kind: ProcessKind, stream: StreamKind, lines: Vec<String>) -> (entries: Vec<
    LogEntry,
>)
    ensures
        records(entries@) == records_of(kind, stream, texts(lines@)),
{
    let mut entries: Vec<LogEntry> = Vec::new();
    let mut i: usize = 0;
    while i < lines.len()
        invariant
            i <= lines@.len(),
            records(entries@) == records_of(kind, stream, texts(lines@.take(i as int))),
        decreases lines@.len() - i,
    {
        let ghost held = entries@;
        let entry = LogEntry::new(kind, stream, lines[i].clone());
        entries.push(entry);
        assert(records(entries@) =~= records(held).push(entry@));
        i += 1;
    }
    entries
}

impl StreamReader {
    /// The role of the child that is read.
    pub closed spec fn kind(&self) -> ProcessKind {
        self.kind
    }

    /// The stream that is read.
    pub closed spec fn stream(&self) -> StreamKind {
        self.stream
    }

    /// The text of the line that has not ended yet.
    pub closed spec fn pending(&self) -> Seq<char> {
        self.splitter@
    }

    /// A reader at the start of the stream.
    pub fn new(kind: ProcessKind, stream: StreamKind) -> (reader: Self)
        ensures
            reader.kind() == kind,
            reader.stream() == stream,
            reader.pending() == Seq::<char>::empty(),
    {
        StreamReader { kind, stream, splitter: LineSplitter::new() }
    }

    /// The entries that the next stretch of output gives, in order.
    pub fn on_text(&mut self, text: &str) -> (entries: Vec<LogEntry>)
        ensures
            records(entries@) == records_of(
                old(self).kind(),
                old(self).stream(),
                fed_lines(old(self).pending(), text@),
            ),
            final(self).pending() == fed_pending(old(self).pending(), text@),
            final(self).kind() == old(self).kind(),
            final(self).stream() == old(self).stream(),
    {
        let lines = self.splitter.push_text(text);
        entries_for(self.kind, self.stream, lines)
    }

    /// The entries that the next chunk of bytes gives, in order.
    pub fn on_chunk(&mut self, chunk: &[u8]) -> (entries: Vec<LogEntry>)
        ensures
            records(entries@) == records_of(
                old(self).kind(),
                old(self).stream(),
                fed_lines(old(self).pending(), utf8_lossy(chunk@)),
            ),
            final(self).pending() == fed_pending(old(self).pending(), utf8_lossy(chunk@)),
            final(self).kind() == old(self).kind(),
            final(self).stream() == old(self).stream(),
            valid_utf8(chunk@) ==> utf8_lossy(chunk@) == decode_utf8(chunk@),
    {
        let lines = self.splitter.feed(chunk);
        entries_for(self.kind, self.stream, lines)
    }

    /// Ends the stream. The reader is used up, so a stream ends once.
    pub fn close(self) -> (end: StreamEnd)
        ensures
            records(end.entries@) == closing_records(self.kind(), self.stream(), self.pending()),
            end.exited == self.kind(),
    {
        let kind = self.kind;
        let stream = self.stream;
        let mut splitter = self.splitter;
        let mut entries: Vec<LogEntry> = Vec::new();
        if let Some(line) = splitter.finish() {
            entries.push(LogEntry::new(kind, stream, line));
        }
        entries.push(
            LogEntry::new(kind, StreamKind::Stderr, "Process exited or stream closed".to_owned()),
        );
        StreamEnd { entries, exited: kind }
    }
}

/// How many bytes a read has brought, or `None` where the stream is over.
/// A read that fails ends the stream as a read that brings nothing does.
pub fn bytes_read(read: Result<usize, ()>) -> (n: Option<usize>)
    ensures
        n == brought(read),
{
    match read {
        Ok(n) => if n > 0 {
            Some(n)
        } else {
            None
        },
        Err(_) => None,
    }
}

/// A stream that ends always leaves its closing entry last, and before it
/// at most the one line that was held back.
pub proof fn lemma_closing_entry_is_last(kind: ProcessKind, stream: StreamKind, pending: Seq<char>)
    ensures
        closing_records(kind, stream, pending).last() == closing_record(kind),
        1 <= closing_records(kind, stream, pending).len() <= 2,
{
}

/// What a reader writes over a whole stream that comes in as `chunks`
/// and then ends.
pub open spec fn stream_records(kind: ProcessKind, stream: StreamKind, chunks: Seq<Seq<char>>) -> Seq<
    LogRecord,
> {
    let (lines, held) = fed_chunks(Seq::empty(), chunks);
    records_of(kind, stream, lines) + closing_records(kind, stream, held)
}

/// Where no line is longer than the limit, what a reader writes over a
/// whole stream is one entry for each line of the stream, in the order of
/// the stream, and the closing entry: how the stream was cut into chunks
/// does not show.
pub proof fn lemma_stream_is_logged_in_order(
    kind: ProcessKind,
    stream: StreamKind,
    chunks: Seq<Seq<char>>,
)
    requires
        has_short_lines(chunks.flatten()),
    ensures
        stream_records(kind, stream, chunks) == records_of(
            kind,
            stream,
            all_lines(chunks.flatten()),
        ).push(closing_record(kind)),
{
    lemma_chunking_is_immaterial(Seq::empty(), chunks);
}

} // verus!
