//! Cleaning up text before it is logged: cutting a long line short and
//! taking terminal escape sequences out.

use crate::text::{
    char_is_whitespace, join_text, is_blank, lines_of, push_char, text_lines, texts, trim, trimmed,
};
use vstd::prelude::*;
use vstd::string::StrSliceExecFns;

verus! {

/// `s` as it is where it has at most `max_len` characters, else its first
/// `max_len` characters followed by three dots.
pub open spec fn truncated(s: Seq<char>, max_len: nat) -> Seq<char> {
    if s.len() <= max_len {
        s
    } else {
        s.take(max_len as int) + "..."@
    }
}

/// Cuts `s` short after `max_len` characters, marking the cut with three
/// dots. Characters are counted, not bytes.
pub fn truncate_line(s: &str, max_len: usize) -> (line: String)
    ensures
        line@ == truncated(s@, max_len as nat),
{
    if s.unicode_len() <= max_len {
        s.to_owned()
    } else {
        let head = s.substring_char(0, max_len);
        join_text(head, "...")
    }
}

/// The character that starts an escape sequence.
pub open spec fn is_escape(c: char) -> bool {
    c as u32 == 0x1b
}

/// The characters that end an escape sequence: `@` to `~`.
pub open spec fn ends_escape(c: char) -> bool {
    0x40 <= c as u32 <= 0x7e
}

/// Whether the character at `i` belongs to an escape sequence that began
/// before it: an escape character stands before it, with no character
/// between the two that would have ended the sequence.
pub open spec fn in_escape(s: Seq<char>, i: int) -> bool {
    exists|j: int| 0 <= j < i && is_escape(s[j]) && #[trigger] runs_on(s, j, i)
}

/// Whether nothing between `j` and `i` ends an escape sequence.
pub open spec fn runs_on(s: Seq<char>, j: int, i: int) -> bool {
    forall|k: int| j < k < i ==> !ends_escape(#[trigger] s[k])
}

/// Whether the character at `i` is taken out: it starts an escape sequence
/// or belongs to one, its last character included.
pub open spec fn is_dropped(s: Seq<char>, i: int) -> bool {
    is_escape(s[i]) || in_escape(s, i)
}

/// `s` without its escape sequences. A sequence reaches from an escape
/// character to the first character from `@` to `~` after it, or to the end
/// of the text.
pub open spec fn stripped(s: Seq<char>) -> Seq<char>
    decreases s.len(),
{
    if s.len() == 0 {
        s
    } else if is_dropped(s, s.len() - 1) {
        stripped(s.drop_last())
    } else {
        stripped(s.drop_last()).push(s.last())
    }
}

/// Whether a position lies in an escape sequence depends on what stands
/// before it alone.
pub proof fn lemma_in_escape_of_prefix(s: Seq<char>, n: int, i: int)
    requires
        0 <= i <= n <= s.len(),
    ensures
        in_escape(s.take(n), i) == in_escape(s, i),
{
    let p = s.take(n);
    if in_escape(s, i) {
        let j = choose|j: int| 0 <= j < i && is_escape(s[j]) && #[trigger] runs_on(s, j, i);
        assert(runs_on(p, j, i));
    }
    if in_escape(p, i) {
        let j = choose|j: int| 0 <= j < i && is_escape(p[j]) && #[trigger] runs_on(p, j, i);
        assert(runs_on(s, j, i)) by {
            assert forall|k: int| j < k < i implies !ends_escape(#[trigger] s[k]) by {
                assert(p[k] == s[k]);
            }
        }
    }
}

/// How being inside an escape sequence moves on by one character: the
/// sequence goes on unless the character ends it, and an escape character
/// begins one.
pub proof fn lemma_in_escape_step(s: Seq<char>, i: int)
    requires
        0 <= i < s.len(),
    ensures
        in_escape(s, i + 1) == (is_escape(s[i]) || (in_escape(s, i) && !ends_escape(s[i]))),
{
    if is_escape(s[i]) {
        assert(runs_on(s, i, i + 1));
    }
    if in_escape(s, i) && !ends_escape(s[i]) {
        let j = choose|j: int| 0 <= j < i && is_escape(s[j]) && #[trigger] runs_on(s, j, i);
        assert(runs_on(s, j, i + 1));
    }
    if in_escape(s, i + 1) {
        let j = choose|j: int| 0 <= j < i + 1 && is_escape(s[j]) && #[trigger] runs_on(s, j, i + 1);
        if j < i {
            assert(runs_on(s, j, i));
        }
    }
}

/// Takes the escape sequences out of `input`.
pub fn strip_ansi(input: &str) -> (out: String)
    ensures
        out@ == stripped(input@),
{
    broadcast use vstd::string::group_string_axioms;

    let mut out = String::new();
    let mut skipping = false;
    for c in it: input.chars()
        invariant
            it.seq() == input@,
            out@ == stripped(input@.take(it.index())),
            skipping == in_escape(input@, it.index()),
    {
        let ghost i = it.index();
        let ghost seen = input@.take(i + 1);
        proof {
            assert(seen.drop_last() =~= input@.take(i));
            lemma_in_escape_of_prefix(input@, i + 1, i);
            lemma_in_escape_step(input@, i);
        }
        let code: u32 = c as u32;
        if skipping {
            if 0x40 <= code && code <= 0x7e {
                skipping = false;
            }
        } else if code == 0x1b {
            skipping = true;
        } else {
            push_char(&mut out, c);
        }
    }
    assert(input@.take(input@.len() as int) =~= input@);
    out
}

/// A text without escape character is left as it is.
pub proof fn lemma_plain_text_is_kept(s: Seq<char>)
    requires
        forall|i: int| 0 <= i < s.len() ==> !is_escape(#[trigger] s[i]),
    ensures
        stripped(s) == s,
    decreases s.len(),
{
    if s.len() > 0 {
        lemma_plain_text_is_kept(s.drop_last());
    }
}

/// How many characters of a message are shown in the log.
pub const MAX_SHOWN_MESSAGE: usize = 200;

/// The log line that shows what the user has sent.
pub open spec fn user_line_of(message: Seq<char>) -> Seq<char> {
    "User: "@ + truncated(message, MAX_SHOWN_MESSAGE as nat)
}

/// The log line that shows what the user has sent.
pub fn user_line(message: &str) -> (line: String)
    ensures
        line@ == user_line_of(message@),
{
    let shown = truncate_line(message, MAX_SHOWN_MESSAGE);
    join_text("User: ", shown.as_str())
}

/// The arguments with which the interpreter answers one message in one
/// session.
pub open spec fn message_arguments(message: Seq<char>, session_id: Seq<char>) -> Seq<Seq<char>> {
    seq!["-m"@, "nanobot"@, "agent"@, "--message"@, message, "--session"@, session_id]
}

/// The arguments with which the interpreter answers one message in one
/// session.
pub fn message_args(message: &str, session_id: &str) -> (args: Vec<String>)
    ensures
        texts(args@) == message_arguments(message@, session_id@),
{
    let mut args: Vec<String> = Vec::new();
    args.push("-m".to_owned());
    args.push("nanobot".to_owned());
    args.push("agent".to_owned());
    args.push("--message".to_owned());
    args.push(message.to_owned());
    args.push("--session".to_owned());
    args.push(session_id.to_owned());
    args
}

/// Of `lines`, those that are not blank, as they are.
pub open spec fn shown_lines(lines: Seq<Seq<char>>) -> Seq<Seq<char>>
    decreases lines.len(),
{
    if lines.len() == 0 {
        Seq::empty()
    } else if is_blank(lines.last()) {
        shown_lines(lines.drop_last())
    } else {
        shown_lines(lines.drop_last()).push(lines.last())
    }
}

/// Whether `s` holds nothing but white space.
pub fn is_blank_text(s: &str) -> (r: bool)
    ensures
        r == is_blank(s@),
{
    broadcast use vstd::string::group_string_axioms;

    for c in it: s.chars()
        invariant
            it.seq() == s@,
            forall|j: int| 0 <= j < it.index() ==> crate::text::is_whitespace(#[trigger] s@[j]),
    {
        if !char_is_whitespace(c) {
            return false;
        }
    }
    true
}

/// What the agent has answered, made ready for the log and for the
/// sender.
#[derive(Debug, PartialEq, Eq)]
pub struct AgentReply {
    /// The lines to log, in order.
    pub lines: Vec<String>,
    /// The answer for the sender.
    pub reply: String,
}

/// Reads the agent's output: escape sequences are taken out, every line
/// that is not blank is to be logged as it is, and the answer is the whole
/// without the white space around it.
pub fn read_reply(output: &str) -> (answer: AgentReply)
    ensures
        texts(answer.lines@) == shown_lines(text_lines(stripped(output@))),
        answer.reply@ == trim(stripped(output@)),
{
    let cleaned = strip_ansi(output);
    let all = lines_of(cleaned.as_str());
    let mut lines: Vec<String> = Vec::new();
    let mut i: usize = 0;
    while i < all.len()
        invariant
            i <= all@.len(),
            texts(lines@) == shown_lines(texts(all@).take(i as int)),
        decreases all@.len() - i,
    {
        let ghost after = texts(all@).take(i + 1);
        assert(after.drop_last() =~= texts(all@).take(i as int));
        if !is_blank_text(all[i].as_str()) {
            lines.push(all[i].clone());
        }
        i += 1;
    }
    assert(texts(all@).take(i as int) =~= texts(all@));
    AgentReply { lines, reply: trimmed(cleaned.as_str()) }
}

} // verus!
