//! The line source: what a read from standard input means to the
//! interpreter.

use vstd::prelude::*;
use vstd::std_specs::iter::IteratorSpec;
use vstd::string::StrSliceExecFns;

verus! {

broadcast use vstd::string::group_string_axioms;

/// The prompt written to standard output, and flushed, before each read.
pub const PROMPT: &'static str = "> ";

/// What reading one line from standard input gave.
#[derive(Clone, Debug, PartialEq, Eq)]
pub enum LineRead {
    /// The read succeeded: it took `size` bytes, which `text` holds.
    Read { size: usize, text: String },
    /// The read failed; `description` is the system's account of the
    /// failure.
    Failed { description: String },
}

/// What the interpreter makes of a read.
#[derive(Clone, Debug, PartialEq, Eq)]
pub struct LineReply {
    /// The line to interpret; `None` ends the interpreter's loop.
    pub line: Option<String>,
    /// What to tell the user on standard error, if anything.
    pub diagnostic: Option<String>,
}

/// Whether `c` ends a line.
pub open spec fn is_line_break(c: char) -> bool {
    c == '\n' || c == '\r'
}

/// `text` without the line breaks at its end.
pub open spec fn without_line_end(text: Seq<char>) -> Seq<char>
    decreases text.len(),
{
    if text.len() > 0 && is_line_break(text.last()) {
        without_line_end(text.drop_last())
    } else {
        text
    }
}

/// Cutting `text` after the last character that is no line break gives
/// `without_line_end(text)`.
pub proof fn lemma_cut_is_without_line_end(text: Seq<char>, keep: int)
    requires
        0 <= keep <= text.len(),
        keep > 0 ==> !is_line_break(text[keep - 1]),
        forall|j: int| keep <= j < text.len() ==> is_line_break(#[trigger] text[j]),
    ensures
        without_line_end(text) == text.subrange(0, keep),
    decreases text.len(),
{
    if keep == text.len() {
        assert(text.subrange(0, keep) =~= text);
    } else {
        let shorter = text.drop_last();
        lemma_cut_is_without_line_end(shorter, keep);
        assert(shorter.subrange(0, keep) =~= text.subrange(0, keep));
    }
}

/// `without_line_end(text)` is the start of `text` up to its last character
/// that is no line break.
pub proof fn stripping_takes_line_breaks_only(text: Seq<char>)
    ensures
        without_line_end(text).len() <= text.len(),
        without_line_end(text) == text.subrange(0, without_line_end(text).len() as int),
        without_line_end(text).len() > 0 ==> !is_line_break(without_line_end(text).last()),
        forall|j: int|
            without_line_end(text).len() <= j < text.len() ==> is_line_break(#[trigger] text[j]),
    decreases text.len(),
{
    if text.len() > 0 && is_line_break(text.last()) {
        let shorter = text.drop_last();
        stripping_takes_line_breaks_only(shorter);
        let kept = without_line_end(shorter);
        assert(shorter.subrange(0, kept.len() as int) =~= text.subrange(0, kept.len() as int));
        assert forall|j: int| kept.len() <= j < text.len() implies is_line_break(
            #[trigger] text[j],
        ) by {
            if j < shorter.len() {
                assert(text[j] == shorter[j]);
            }
        }
    } else {
        assert(text.subrange(0, text.len() as int) =~= text);
    }
}

/// Returns `text` without the line breaks at its end.
pub fn strip_line_end(text: &str) -> (line: String)
    ensures
        line@ == without_line_end(text@),
{
    let length = text.unicode_len();
    let mut chars = text.chars();
    let mut seen: usize = 0;
    let mut keep: usize = 0;
    loop
        invariant
            length == text@.len(),
            keep <= seen <= length,
            chars.remaining() == text@.subrange(seen as int, length as int),
            keep > 0 ==> !is_line_break(text@[keep - 1]),
            forall|j: int| keep <= j < seen ==> is_line_break(#[trigger] text@[j]),
        ensures
            seen == length,
            keep <= length,
            keep > 0 ==> !is_line_break(text@[keep - 1]),
            forall|j: int| keep <= j < length ==> is_line_break(#[trigger] text@[j]),
        decreases length - seen,
    {
        match chars.next() {
            Some(c) => {
                seen = seen + 1;
                if c != '\n' && c != '\r' {
                    keep = seen;
                }
            },
            None => {
                break ;
            },
        }
    }
    proof {
        lemma_cut_is_without_line_end(text@, keep as int);
    }
    text.substring_char(0, keep).to_owned()
}

impl LineRead {
    /// The line a read yields: the text without the line breaks at its end,
    /// unless nothing was read, which is the end of the input, or the read
    /// failed, which is treated alike.
    pub open spec fn line(self) -> Option<Seq<char>> {
        match self {
            LineRead::Read { size, text } => if size == 0 || text@.len() == 0 {
                None
            } else {
                Some(without_line_end(text@))
            },
            LineRead::Failed { .. } => None,
        }
    }

    /// What a read makes the interpreter tell the user: the description of a
    /// failure, and nothing otherwise. The end of the input is no error.
    pub open spec fn diagnostic(self) -> Option<Seq<char>> {
        match self {
            LineRead::Read { .. } => None,
            LineRead::Failed { description } => Some(description@),
        }
    }
}

/// Turns the outcome of a read into the next line for the interpreter.
///
/// The caller writes `PROMPT`, flushes standard output and reads one line;
/// this function decides what the read means.
pub fn shell_read_line(read: LineRead) -> (reply: LineReply)
    ensures
        reply.line.deep_view() == read.line(),
        reply.diagnostic.deep_view() == read.diagnostic(),
{
    match read {
        LineRead::Read { size, text } => {
            if size == 0 || text.as_str().is_empty() {
                LineReply { line: None, diagnostic: None }
            } else {
                LineReply { line: Some(strip_line_end(text.as_str())), diagnostic: None }
            }
        },
        LineRead::Failed { description } => LineReply {
            line: None,
            diagnostic: Some(description),
        },
    }
}

} // verus!
