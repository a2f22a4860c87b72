use nanobot_desktop::kind::{ProcessKind, StreamKind};
use nanobot_desktop::log_store::{LogEntry, LogStore};
use nanobot_desktop::reader::{bytes_read, StreamReader};

fn entry(kind: ProcessKind, stream: StreamKind, text: &str) -> LogEntry {
    LogEntry::new(kind, stream, text.to_string())
}

fn closing(kind: ProcessKind) -> LogEntry {
    entry(kind, StreamKind::Stderr, "Process exited or stream closed")
}

#[test]
fn a_chunk_gives_one_entry_per_line() {
    let mut reader = StreamReader::new(ProcessKind::Gateway, StreamKind::Stderr);
    assert_eq!(
        reader.on_chunk(b"warning: one\nwarning: two\npart"),
        vec![
            entry(ProcessKind::Gateway, StreamKind::Stderr, "warning: one"),
            entry(ProcessKind::Gateway, StreamKind::Stderr, "warning: two"),
        ]
    );
    assert_eq!(
        reader.on_text("ial\n"),
        vec![entry(ProcessKind::Gateway, StreamKind::Stderr, "partial")]
    );
}

#[test]
fn the_end_of_a_stream_flushes_and_closes() {
    let mut reader = StreamReader::new(ProcessKind::Agent, StreamKind::Stdout);
    assert_eq!(reader.on_chunk(b"unfinished  "), Vec::<LogEntry>::new());
    let end = reader.close();
    assert_eq!(
        end.entries,
        vec![
            entry(ProcessKind::Agent, StreamKind::Stdout, "unfinished"),
            closing(ProcessKind::Agent),
        ]
    );
    assert_eq!(end.exited, ProcessKind::Agent);
}

#[test]
fn a_stream_without_rest_only_closes() {
    let mut reader = StreamReader::new(ProcessKind::Gateway, StreamKind::Stdout);
    reader.on_chunk(b"complete\n   ");
    let end = reader.close();
    assert_eq!(end.entries, vec![closing(ProcessKind::Gateway)]);
    assert_eq!(end.exited, ProcessKind::Gateway);
}

#[test]
fn the_closing_entry_goes_to_the_error_channel() {
    for stream in [StreamKind::Stdout, StreamKind::Stderr] {
        let end = StreamReader::new(ProcessKind::Agent, stream).close();
        assert_eq!(end.entries.len(), 1);
        assert_eq!(end.entries[0].stream, StreamKind::Stderr);
        assert_eq!(end.entries[0].text, "Process exited or stream closed");
    }
}

#[test]
fn a_read_that_fails_ends_the_stream_like_one_that_brings_nothing() {
    assert_eq!(bytes_read(Ok(17)), Some(17));
    assert_eq!(bytes_read(Ok(1)), Some(1));
    assert_eq!(bytes_read(Ok(0)), None);
    assert_eq!(bytes_read(Err(())), None);
}

/// Plays a child that writes `hello` and a line feed to its output and
/// exits, as the loop around a reader sees it.
#[test]
fn a_child_that_says_hello_and_exits() {
    let reads: Vec<Result<&[u8], ()>> = vec![Ok(b"hello\n"), Ok(b"")];
    let mut store = LogStore::new(2000);
    let mut exits: Vec<ProcessKind> = Vec::new();
    let mut reader = Some(StreamReader::new(ProcessKind::Agent, StreamKind::Stdout));
    for read in reads {
        let Some(mut current) = reader.take() else { break };
        match bytes_read(read.map(|bytes| bytes.len())) {
            Some(n) => {
                for e in current.on_chunk(&read.unwrap()[..n]) {
                    store.append(e);
                }
                reader = Some(current);
            }
            None => {
                let end = current.close();
                for e in end.entries {
                    store.append(e);
                }
                exits.push(end.exited);
            }
        }
    }
    assert!(reader.is_none());
    assert_eq!(
        store.snapshot(),
        vec![
            entry(ProcessKind::Agent, StreamKind::Stdout, "hello"),
            closing(ProcessKind::Agent),
        ]
    );
    assert_eq!(exits, vec![ProcessKind::Agent]);
}

/// Four readers take turns writing to one history. Every entry that is
/// kept is a whole line of the stream it names, the lines of each stream
/// stay in their order, and the history stays within its capacity.
#[test]
fn four_streams_that_take_turns_do_not_mix() {
    let streams = [
        (ProcessKind::Agent, StreamKind::Stdout, "ao"),
        (ProcessKind::Agent, StreamKind::Stderr, "ae"),
        (ProcessKind::Gateway, StreamKind::Stdout, "go"),
        (ProcessKind::Gateway, StreamKind::Stderr, "ge"),
    ];
    let capacity = 50;
    let mut store = LogStore::new(capacity);
    let mut readers: Vec<StreamReader> =
        streams.iter().map(|(k, s, _)| StreamReader::new(*k, *s)).collect();
    let outputs: Vec<Vec<u8>> = streams
        .iter()
        .map(|(_, _, tag)| (0..40).map(|n| format!("{tag}-{n}\n")).collect::<String>().into_bytes())
        .collect();
    let mut offsets = [0usize; 4];
    let mut turn = 0usize;
    while offsets.iter().zip(&outputs).any(|(o, out)| *o < out.len()) {
        let who = turn % 4;
        let size = 1 + (turn * 7) % 5;
        turn += 1;
        let from = offsets[who];
        let to = (from + size).min(outputs[who].len());
        offsets[who] = to;
        for e in readers[who].on_chunk(&outputs[who][from..to]) {
            store.append(e);
            assert!(store.len() <= capacity);
        }
    }
    let kept = store.snapshot();
    assert_eq!(kept.len(), capacity);
    let mut last_seen = [None::<u32>; 4];
    for e in &kept {
        let who = streams.iter().position(|(k, s, _)| *k == e.kind && *s == e.stream).unwrap();
        let (tag, number) = e.text.split_once('-').expect("a whole line");
        assert_eq!(tag, streams[who].2);
        let number: u32 = number.parse().expect("a whole line");
        assert!(number < 40);
        assert!(last_seen[who].map_or(true, |before| before < number));
        last_seen[who] = Some(number);
    }
}
