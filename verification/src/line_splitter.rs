//! Turning a stream of text, handed over in chunks of any size, into lines.
//!
//! A line ends at a line feed or a carriage return. What has come in since
//! the last of them is held back until its end arrives, the stream ends, or
//! it has grown past `MAX_PENDING_CHARS`. White space at the end of a line
//! is removed, and a line of which nothing is left is dropped.

use crate::text::{is_whitespace, text_of, texts, trim_end, trimmed_len};
use vstd::prelude::*;
use vstd::utf8::{decode_utf8, encode_utf8, is_ascii_chars, valid_utf8};

verus! {

/// How many characters may be held back before they are flushed as a line
/// without waiting for its end.
pub const MAX_PENDING_CHARS: usize = 2048;

/// The characters that end a line.
pub open spec fn is_separator(c: char) -> bool {
    c == '\n' || c == '\r'
}

/// Whether no character of `s` ends a line.
pub open spec fn has_no_separator(s: Seq<char>) -> bool {
    forall|i: int| 0 <= i < s.len() ==> !is_separator(#[trigger] s[i])
}

/// What follows the last separator of `s`: the line that has not ended yet.
pub open spec fn tail(s: Seq<char>) -> Seq<char>
    decreases s.len(),
{
    if s.len() == 0 {
        s
    } else if is_separator(s.last()) {
        Seq::empty()
    } else {
        tail(s.drop_last()).push(s.last())
    }
}

/// The line that a stretch of text between two separators gives, if any.
pub open spec fn line_of(segment: Seq<char>) -> Option<Seq<char>> {
    let line = trim_end(segment);
    if line.len() > 0 {
        Some(line)
    } else {
        None
    }
}

/// `line_of`, as a sequence of no or one line.
pub open spec fn emitted(segment: Seq<char>) -> Seq<Seq<char>> {
    match line_of(segment) {
        Some(line) => seq![line],
        None => Seq::empty(),
    }
}

/// The lines of `s` that a separator has ended, in order.
pub open spec fn completed(s: Seq<char>) -> Seq<Seq<char>>
    decreases s.len(),
{
    if s.len() == 0 {
        Seq::empty()
    } else if is_separator(s.last()) {
        completed(s.drop_last()) + emitted(tail(s.drop_last()))
    } else {
        completed(s.drop_last())
    }
}

/// The lines of a whole stream `s`: those that a separator ended, and the
/// one that the end of the stream ended.
pub open spec fn all_lines(s: Seq<char>) -> Seq<Seq<char>> {
    completed(s) + emitted(tail(s))
}

/// The lines that come out when `text` arrives while `pending` is held back.
pub open spec fn fed_lines(pending: Seq<char>, text: Seq<char>) -> Seq<Seq<char>> {
    let rest = tail(pending + text);
    if rest.len() > MAX_PENDING_CHARS {
        completed(pending + text) + emitted(rest)
    } else {
        completed(pending + text)
    }
}

/// What is held back after `text` has arrived while `pending` was held back.
pub open spec fn fed_pending(pending: Seq<char>, text: Seq<char>) -> Seq<char> {
    let rest = tail(pending + text);
    if rest.len() > MAX_PENDING_CHARS {
        Seq::empty()
    } else {
        rest
    }
}

/// The lines that have come out, and what is held back, after each of
/// `chunks` has arrived in turn.
pub open spec fn fed_chunks(pending: Seq<char>, chunks: Seq<Seq<char>>) -> (
    Seq<Seq<char>>,
    Seq<char>,
)
    decreases chunks.len(),
{
    if chunks.len() == 0 {
        (Seq::empty(), pending)
    } else {
        let (lines, held) = fed_chunks(pending, chunks.drop_last());
        (lines + fed_lines(held, chunks.last()), fed_pending(held, chunks.last()))
    }
}

/// Whether no line of `s` is ever held back beyond the limit: at every
/// position, at most `MAX_PENDING_CHARS` characters have come since the last
/// separator.
pub open spec fn has_short_lines(s: Seq<char>) -> bool {
    forall|k: int| 0 <= k <= s.len() ==> (#[trigger] tail(s.take(k))).len() <= MAX_PENDING_CHARS
}

/// Whether the separators are the only white space in `s`.
pub open spec fn has_no_inner_whitespace(s: Seq<char>) -> bool {
    forall|i: int| 0 <= i < s.len() && is_whitespace(#[trigger] s[i]) ==> is_separator(s[i])
}

/// `s` with its separators taken out.
pub open spec fn without_separators(s: Seq<char>) -> Seq<char> {
    s.filter(|c: char| !is_separator(c))
}

/// What `String::from_utf8_lossy` makes of `bytes`.
pub uninterp spec fn utf8_lossy(bytes: Seq<u8>) -> Seq<char>;

/// `String::from_utf8_lossy`: the text that the bytes encode, with each
/// stretch that is no UTF-8 replaced by U+FFFD. Bytes that are UTF-8
/// throughout decode to the text they encode.
#[verifier::external_body]
fn decode_lossy(bytes: &[u8]) -> (text: String)
    ensures
        text@ == utf8_lossy(bytes@),
        valid_utf8(bytes@) ==> text@ == decode_utf8(bytes@),
{
    String::from_utf8_lossy(bytes).into_owned()
}

/// The state of one stream between two chunks: the text of the line that has
/// not ended yet.
pub struct LineSplitter {
    pending: Vec<char>,
}

fn emit(segment: &Vec<char>, lines: &mut Vec<String>)
    ensures
        texts(final(lines)@) == texts(old(lines)@) + emitted(segment@),
{
    let n = trimmed_len(segment);
    if n > 0 {
        let line = text_of(segment, 0, n);
        lines.push(line);
    }
}

impl LineSplitter {
    #[verifier::type_invariant]
    spec fn holds_an_open_line(self) -> bool {
        &&& has_no_separator(self.pending@)
        &&& self.pending@.len() <= MAX_PENDING_CHARS
    }

    /// The text held back.
    pub closed spec fn view(&self) -> Seq<char> {
        self.pending@
    }

    /// A splitter at the start of a stream.
    pub fn new() -> (splitter: Self)
        ensures
            splitter@ == Seq::<char>::empty(),
    {
        LineSplitter { pending: Vec::new() }
    }

    /// How many characters are held back.
    pub fn pending_len(&self) -> (n: usize)
        ensures
            n == self@.len(),
            n <= MAX_PENDING_CHARS,
            has_no_separator(self@),
    {
        proof {
            use_type_invariant(self);
        }
        self.pending.len()
    }

    /// Takes in the next stretch of text and hands out the lines that are
    /// complete with it, in order.
    pub fn push_text(&mut self, text: &str) -> (lines: Vec<String>)
        ensures
            texts(lines@) == fed_lines(old(self)@, text@),
            final(self)@ == fed_pending(old(self)@, text@),
    {
        broadcast use vstd::string::group_string_axioms;

        proof {
            use_type_invariant(&*self);
            lemma_open_line(self.pending@);
        }
        let ghost before = self.pending@;
        let mut pending: Vec<char> = Vec::new();
        std::mem::swap(&mut pending, &mut self.pending);
        let mut lines: Vec<String> = Vec::new();
        for c in it: text.chars()
            invariant
                it.seq() == text@,
                pending@ == tail(before + text@.take(it.index())),
                texts(lines@) == completed(before + text@.take(it.index())),
        {
            let ghost seen = before + text@.take(it.index());
            assert(before + text@.take(it.index() + 1) =~= seen.push(c));
            assert(seen.push(c).drop_last() =~= seen);
            if c == '\n' || c == '\r' {
                emit(&pending, &mut lines);
                pending.clear();
            } else {
                pending.push(c);
            }
        }
        assert(text@.take(text@.len() as int) =~= text@);
        if pending.len() > MAX_PENDING_CHARS {
            emit(&pending, &mut lines);
            pending.clear();
        }
        proof {
            lemma_tail_is_open(before + text@);
        }
        self.pending = pending;
        lines
    }

    /// Takes in the next chunk of bytes, read as text, and hands out the
    /// lines that are complete with it, in order.
    pub fn feed(&mut self, chunk: &[u8]) -> (lines: Vec<String>)
        ensures
            texts(lines@) == fed_lines(old(self)@, utf8_lossy(chunk@)),
            final(self)@ == fed_pending(old(self)@, utf8_lossy(chunk@)),
            valid_utf8(chunk@) ==> utf8_lossy(chunk@) == decode_utf8(chunk@),
    {
        let text = decode_lossy(chunk);
        self.push_text(text.as_str())
    }

    /// Ends the stream: hands out the line that was held back, if anything
    /// is left of it, and holds nothing back any more.
    pub fn finish(&mut self) -> (line: Option<String>)
        ensures
            final(self)@ == Seq::<char>::empty(),
            match line {
                Some(text) => line_of(old(self)@) == Some(text@),
                None => line_of(old(self)@) is None,
            },
    {
        let mut pending: Vec<char> = Vec::new();
        std::mem::swap(&mut pending, &mut self.pending);
        let n = trimmed_len(&pending);
        if n > 0 {
            let line = text_of(&pending, 0, n);
            Some(line)
        } else {
            None
        }
    }
}

impl Default for LineSplitter {
    /// As `LineSplitter::new`.
    fn default() -> (splitter: Self)
        ensures
            splitter@ == Seq::<char>::empty(),
    {
        LineSplitter::new()
    }
}

/// The characters that ASCII bytes stand for, one for each byte.
pub open spec fn ascii_text(bytes: Seq<u8>) -> Seq<char> {
    Seq::new(bytes.len(), |i: int| bytes[i] as char)
}

/// Bytes that are ASCII throughout are UTF-8, and the text they encode
/// has one character for each byte: however such bytes are cut into
/// chunks, each chunk is read as its own characters.
pub proof fn lemma_ascii_bytes_are_text(bytes: Seq<u8>)
    requires
        forall|i: int| 0 <= i < bytes.len() ==> #[trigger] bytes[i] < 128,
    ensures
        valid_utf8(bytes),
        decode_utf8(bytes) == ascii_text(bytes),
{
    let text = ascii_text(bytes);
    assert(is_ascii_chars(text));
    vstd::utf8::is_ascii_chars_encode_utf8(text);
    assert(encode_utf8(text) =~= bytes);
    vstd::utf8::encode_utf8_valid_utf8(text);
    vstd::utf8::encode_utf8_decode_utf8(text);
}

/// A text without separator is one open line: none of its lines is
/// complete, and all of it is held back.
pub proof fn lemma_open_line(s: Seq<char>)
    requires
        has_no_separator(s),
    ensures
        tail(s) == s,
        completed(s) == Seq::<Seq<char>>::empty(),
    decreases s.len(),
{
    if s.len() > 0 {
        lemma_open_line(s.drop_last());
    }
}

/// What is held back is the stretch after the last separator: a suffix
/// without separator that starts the text or follows a separator.
pub proof fn lemma_tail_is_open(s: Seq<char>)
    ensures
        has_no_separator(tail(s)),
        tail(s).len() <= s.len(),
        tail(s) == s.skip(s.len() - tail(s).len()),
        tail(s).len() < s.len() ==> is_separator(s[s.len() - tail(s).len() - 1]),
    decreases s.len(),
{
    if s.len() > 0 && !is_separator(s.last()) {
        lemma_tail_is_open(s.drop_last());
    }
}

/// Text that arrives in two parts is split as if it had arrived in one: the
/// second part is split together with what the first left open.
pub proof fn lemma_split_in_two(a: Seq<char>, b: Seq<char>)
    ensures
        completed(a + b) == completed(a) + completed(tail(a) + b),
        tail(a + b) == tail(tail(a) + b),
    decreases b.len(),
{
    if b.len() == 0 {
        lemma_tail_is_open(a);
        lemma_open_line(tail(a));
    } else {
        let head = b.drop_last();
        lemma_split_in_two(a, head);
        assert((a + b).drop_last() =~= a + head);
        assert((tail(a) + b).drop_last() =~= tail(a) + head);
    }
}

/// As long as no line is held back beyond the limit, a chunk that arrives in
/// two parts gives the lines, and leaves open the text, that it gives when
/// it arrives in one.
pub proof fn lemma_feed_in_two(pending: Seq<char>, a: Seq<char>, b: Seq<char>)
    requires
        tail(pending + a).len() <= MAX_PENDING_CHARS,
    ensures
        fed_lines(pending, a + b) == fed_lines(pending, a) + fed_lines(fed_pending(pending, a), b),
        fed_pending(pending, a + b) == fed_pending(fed_pending(pending, a), b),
{
    lemma_split_in_two(pending + a, b);
    assert(pending + (a + b) =~= (pending + a) + b);
}

/// Where no line is longer than the limit, the chunk boundaries do not
/// matter: however the text is cut into chunks, the lines that come out are
/// the completed lines of the whole text, and what is held back is its last,
/// open line.
pub proof fn lemma_chunking_is_immaterial(pending: Seq<char>, chunks: Seq<Seq<char>>)
    requires
        has_no_separator(pending),
        has_short_lines(pending + chunks.flatten()),
    ensures
        fed_chunks(pending, chunks) == (
            completed(pending + chunks.flatten()),
            tail(pending + chunks.flatten()),
        ),
    decreases chunks.len(),
{
    let whole = pending + chunks.flatten();
    if chunks.len() == 0 {
        lemma_open_line(pending);
    } else {
        let head = chunks.drop_last();
        let last = chunks.last();
        assert(head.push(last) =~= chunks);
        head.lemma_flatten_push(last);
        let before = pending + head.flatten();
        assert(whole =~= before + last);
        assert forall|k: int| 0 <= k <= before.len() implies (#[trigger] tail(
            before.take(k),
        )).len() <= MAX_PENDING_CHARS by {
            assert(before.take(k) =~= whole.take(k));
        }
        lemma_chunking_is_immaterial(pending, head);
        lemma_split_in_two(before, last);
        assert(whole.take(whole.len() as int) =~= whole);
    }
}

/// Where the separators are the only white space, nothing but separators is
/// lost: the completed lines, put end to end, and the open line are the text
/// without its separators.
pub proof fn lemma_split_loses_nothing(s: Seq<char>)
    requires
        has_no_inner_whitespace(s),
    ensures
        completed(s).flatten() + tail(s) == without_separators(s),
    decreases s.len(),
{
    reveal(Seq::filter);
    if s.len() > 0 {
        let head = s.drop_last();
        lemma_split_loses_nothing(head);
        if is_separator(s.last()) {
            lemma_line_without_whitespace(head);
            vstd::seq_lib::lemma_flatten_concat(completed(head), emitted(tail(head)));
        }
    }
}

/// Where the separators are the only white space in `s`, the open line of
/// `s` holds no white space and comes out as it is.
pub proof fn lemma_line_without_whitespace(s: Seq<char>)
    requires
        has_no_inner_whitespace(s),
    ensures
        forall|i: int| 0 <= i < tail(s).len() ==> !is_whitespace(#[trigger] tail(s)[i]),
        emitted(tail(s)).flatten() == tail(s),
        trim_end(tail(s)) == tail(s),
{
    lemma_tail_is_open(s);
    let t = tail(s);
    if t.len() > 0 {
        seq![t].lemma_flatten_singleton();
    }
}

/// A text without separator has none to take out.
pub proof fn lemma_without_separators_open(s: Seq<char>)
    requires
        has_no_separator(s),
    ensures
        without_separators(s) == s,
    decreases s.len(),
{
    reveal(Seq::filter);
    if s.len() > 0 {
        lemma_without_separators_open(s.drop_last());
    }
}

/// Where the separators are the only white space, a chunk loses nothing but
/// its separators: the lines that come out, put end to end and followed by
/// what is held back afterwards, are what was held back before followed by
/// the chunk without its separators. This holds of a line flushed before its
/// end too.
pub proof fn lemma_feed_loses_nothing(pending: Seq<char>, text: Seq<char>)
    requires
        forall|i: int| 0 <= i < pending.len() ==> !is_whitespace(#[trigger] pending[i]),
        has_no_inner_whitespace(text),
    ensures
        fed_lines(pending, text).flatten() + fed_pending(pending, text) == pending
            + without_separators(text),
        forall|i: int|
            0 <= i < fed_pending(pending, text).len() ==> !is_whitespace(
                #[trigger] fed_pending(pending, text)[i],
            ),
{
    let s = pending + text;
    lemma_split_loses_nothing(s);
    lemma_line_without_whitespace(s);
    lemma_without_separators_open(pending);
    if tail(s).len() > MAX_PENDING_CHARS {
        vstd::seq_lib::lemma_flatten_concat(completed(s), emitted(tail(s)));
    }
}

/// Where the separators are the only white space, the lines that come out
/// of any sequence of chunks, put end to end and followed by what is still
/// held back, are the text that came in without its separators.
pub proof fn lemma_chunks_lose_nothing(pending: Seq<char>, chunks: Seq<Seq<char>>)
    requires
        forall|i: int| 0 <= i < pending.len() ==> !is_whitespace(#[trigger] pending[i]),
        has_no_inner_whitespace(chunks.flatten()),
    ensures
        fed_chunks(pending, chunks).0.flatten() + fed_chunks(pending, chunks).1 == pending
            + without_separators(chunks.flatten()),
        forall|i: int|
            0 <= i < fed_chunks(pending, chunks).1.len() ==> !is_whitespace(
                #[trigger] fed_chunks(pending, chunks).1[i],
            ),
    decreases chunks.len(),
{
    if chunks.len() > 0 {
        let head = chunks.drop_last();
        let last = chunks.last();
        assert(head.push(last) =~= chunks);
        head.lemma_flatten_push(last);
        let flat = head.flatten();
        assert forall|i: int| 0 <= i < flat.len() && is_whitespace(
            #[trigger] flat[i],
        ) implies is_separator(flat[i]) by {
            assert(flat[i] == chunks.flatten()[i]);
        }
        assert forall|i: int| 0 <= i < last.len() && is_whitespace(
            #[trigger] last[i],
        ) implies is_separator(last[i]) by {
            assert(last[i] == chunks.flatten()[flat.len() + i]);
        }
        lemma_chunks_lose_nothing(pending, head);
        let (lines, held) = fed_chunks(pending, head);
        lemma_feed_loses_nothing(held, last);
        vstd::seq_lib::lemma_flatten_concat(lines, fed_lines(held, last));
        assert((lines.flatten() + fed_lines(held, last).flatten()) + fed_pending(held, last)
            =~= lines.flatten() + (fed_lines(held, last).flatten() + fed_pending(held, last)));
        assert(lines.flatten() + (held + without_separators(last)) =~= (lines.flatten() + held)
            + without_separators(last));
    }
}

/// A text without separator that has grown past the limit is flushed as one
/// line, and nothing is held back.
pub proof fn lemma_long_line_is_flushed(pending: Seq<char>, text: Seq<char>)
    requires
        has_no_separator(pending + text),
        (pending + text).len() > MAX_PENDING_CHARS,
    ensures
        fed_lines(pending, text) == emitted(pending + text),
        fed_pending(pending, text) == Seq::<char>::empty(),
{
    lemma_open_line(pending + text);
}

} // verus!
