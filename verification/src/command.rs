//! The command builder: from a line of text to an argument vector.
//!
//! A line is cut at every single space. Nothing is trimmed, quoted or
//! collapsed: two spaces in a row enclose an empty word, and an empty word is
//! an argument like any other.

use vstd::prelude::*;
use vstd::std_specs::iter::IteratorSpec;
use vstd::string::StrSliceExecFns;

verus! {

broadcast use vstd::string::group_string_axioms;

/// What a line asks the interpreter to do.
#[derive(Clone, Debug, PartialEq, Eq)]
pub enum Action {
    /// Run a program in the foreground. The words are its argument vector:
    /// the first names the program, the others are its arguments.
    SimpleCommand(Vec<String>),
}

impl View for Action {
    type V = Seq<Seq<char>>;

    /// The argument vector.
    open spec fn view(&self) -> Seq<Seq<char>> {
        match self {
            Action::SimpleCommand(words) => words.deep_view(),
        }
    }
}

impl Action {
    /// Whether the command names a program: its argument vector is not
    /// empty.
    pub open spec fn well_formed(&self) -> bool {
        self@.len() >= 1
    }

    /// The argument vector, word by word.
    pub fn words(&self) -> (words: &Vec<String>)
        ensures
            words.deep_view() == self@,
    {
        match self {
            Action::SimpleCommand(words) => words,
        }
    }
}

/// The number of characters of `text` before its first space; the length of
/// `text` where it has none.
pub open spec fn first_space(text: Seq<char>) -> int
    decreases text.len(),
{
    if text.len() == 0 || text[0] == ' ' {
        0
    } else {
        1 + first_space(text.drop_first())
    }
}

/// The words of `text`: what stands before its first space, followed by the
/// words of what stands after it. A text without a space is one word.
pub open spec fn split_at_spaces(text: Seq<char>) -> Seq<Seq<char>>
    decreases text.len(),
{
    let cut = first_space(text);
    if 0 <= cut < text.len() {
        seq![text.subrange(0, cut)] + split_at_spaces(text.subrange(cut + 1, text.len() as int))
    } else {
        seq![text]
    }
}

/// The words put together again, with one space between neighbours.
pub open spec fn join_with_spaces(words: Seq<Seq<char>>) -> Seq<char>
    decreases words.len(),
{
    if words.len() == 0 {
        Seq::empty()
    } else if words.len() == 1 {
        words[0]
    } else {
        words[0] + seq![' '] + join_with_spaces(words.drop_first())
    }
}

/// Whether `word` holds no space.
pub open spec fn space_free(word: Seq<char>) -> bool {
    forall|i: int| 0 <= i < word.len() ==> word[i] != ' '
}

/// The argument vector a line stands for: none for the empty line, and the
/// words of any other.
pub open spec fn parse_line(line: Seq<char>) -> Option<Seq<Seq<char>>> {
    if line.len() == 0 {
        None
    } else {
        Some(split_at_spaces(line))
    }
}

/// `first_space` finds the first space: it is the one index that has no
/// space before it and a space, or the end of the text, at it.
pub proof fn lemma_first_space(text: Seq<char>, cut: int)
    requires
        0 <= cut <= text.len(),
        forall|i: int| 0 <= i < cut ==> text[i] != ' ',
        cut < text.len() ==> text[cut] == ' ',
    ensures
        first_space(text) == cut,
    decreases text.len(),
{
    if cut > 0 {
        let rest = text.drop_first();
        assert forall|i: int| 0 <= i < cut - 1 implies rest[i] != ' ' by {
            assert(rest[i] == text[i + 1]);
        }
        lemma_first_space(rest, cut - 1);
    }
}

/// `first_space` lies within the text, has no space before it, and a space
/// at it unless it is the end.
pub proof fn lemma_first_space_bounds(text: Seq<char>)
    ensures
        0 <= first_space(text) <= text.len(),
        forall|i: int| 0 <= i < first_space(text) ==> text[i] != ' ',
        first_space(text) < text.len() ==> text[first_space(text)] == ' ',
    decreases text.len(),
{
    if !(text.len() == 0 || text[0] == ' ') {
        let rest = text.drop_first();
        lemma_first_space_bounds(rest);
        assert forall|i: int| 0 <= i < first_space(text) implies text[i] != ' ' by {
            if i > 0 {
                assert(text[i] == rest[i - 1]);
            }
        }
    }
}

/// Every text has at least one word, and no word holds a space.
pub proof fn lemma_words_are_space_free(text: Seq<char>)
    ensures
        split_at_spaces(text).len() >= 1,
        forall|k: int|
            0 <= k < split_at_spaces(text).len() ==> space_free(#[trigger] split_at_spaces(text)[k]),
    decreases text.len(),
{
    lemma_first_space_bounds(text);
    let cut = first_space(text);
    if cut < text.len() {
        let rest = text.subrange(cut + 1, text.len() as int);
        lemma_words_are_space_free(rest);
        assert forall|k: int| 0 <= k < split_at_spaces(text).len() implies space_free(
            #[trigger] split_at_spaces(text)[k],
        ) by {
            if k > 0 {
                assert(split_at_spaces(text)[k] == split_at_spaces(rest)[k - 1]);
            }
        }
    }
}

/// Joining the words of a text gives the text back.
pub proof fn joining_undoes_splitting(text: Seq<char>)
    ensures
        join_with_spaces(split_at_spaces(text)) == text,
    decreases text.len(),
{
    lemma_first_space_bounds(text);
    let cut = first_space(text);
    if cut < text.len() {
        let head = text.subrange(0, cut);
        let rest = text.subrange(cut + 1, text.len() as int);
        joining_undoes_splitting(rest);
        lemma_words_are_space_free(rest);
        assert(split_at_spaces(text).drop_first() =~= split_at_spaces(rest));
        assert(head + seq![' '] + rest =~= text);
    }
}

/// Splitting the joined words gives the words back, if there is at least one
/// word and no word holds a space.
pub proof fn splitting_undoes_joining(words: Seq<Seq<char>>)
    requires
        words.len() >= 1,
        forall|k: int| 0 <= k < words.len() ==> space_free(#[trigger] words[k]),
    ensures
        split_at_spaces(join_with_spaces(words)) == words,
    decreases words.len(),
{
    let text = join_with_spaces(words);
    assert(space_free(words[0]));
    if words.len() == 1 {
        lemma_first_space(text, text.len() as int);
    } else {
        let others = words.drop_first();
        assert forall|k: int| 0 <= k < others.len() implies space_free(#[trigger] others[k]) by {
            assert(others[k] == words[k + 1]);
        }
        splitting_undoes_joining(others);
        let cut = words[0].len() as int;
        lemma_first_space(text, cut);
        assert(text.subrange(0, cut) =~= words[0]);
        assert(text.subrange(cut + 1, text.len() as int) =~= join_with_spaces(others));
    }
    assert(split_at_spaces(text) =~= words);
}

/// Parsing, joining and parsing again changes nothing.
///
/// A line that is not empty parses to its words; the words, joined with
/// single spaces, are the line again, and so parse to the same words. Empty
/// words, which runs of spaces and spaces at either end produce, are kept
/// like any other.
pub proof fn parse_survives_rejoining(line: Seq<char>)
    requires
        line.len() > 0,
    ensures
        parse_line(line) == Some(split_at_spaces(line)),
        join_with_spaces(split_at_spaces(line)) == line,
        parse_line(join_with_spaces(split_at_spaces(line))) == parse_line(line),
{
    joining_undoes_splitting(line);
}

/// A line has one word more than it has spaces.
pub proof fn words_are_one_more_than_spaces(text: Seq<char>)
    ensures
        split_at_spaces(text).len() == text.filter(|c: char| c == ' ').len() + 1,
    decreases text.len(),
{
    let is_space = |c: char| c == ' ';
    lemma_first_space_bounds(text);
    let cut = first_space(text);
    let head = text.subrange(0, cut);
    lemma_no_space_filter(head);
    if cut < text.len() {
        let rest = text.subrange(cut + 1, text.len() as int);
        words_are_one_more_than_spaces(rest);
        let tail = text.subrange(cut, text.len() as int);
        assert(text =~= head + tail);
        assert(tail =~= seq![' '] + rest);
        Seq::filter_distributes_over_add(head, tail, is_space);
        Seq::filter_distributes_over_add(seq![' '], rest, is_space);
        lemma_single_space_filter();
    } else {
        assert(head =~= text);
    }
}

proof fn lemma_no_space_filter(word: Seq<char>)
    requires
        space_free(word),
    ensures
        word.filter(|c: char| c == ' ').len() == 0,
    decreases word.len(),
{
    reveal(Seq::filter);
    if word.len() > 0 {
        lemma_no_space_filter(word.drop_last());
    }
}

proof fn lemma_single_space_filter()
    ensures
        seq![' '].filter(|c: char| c == ' ').len() == 1,
{
    reveal_with_fuel(Seq::filter, 2);
    assert(seq![' '].drop_last() =~= Seq::<char>::empty());
}

/// Parses one line: `None` for the empty line, and otherwise the command
/// whose argument vector is the words of the line.
pub fn shell_parse_line(line: &str) -> (action: Option<Action>)
    ensures
        match action {
            Some(a) => parse_line(line@) == Some(a@) && a.well_formed(),
            None => parse_line(line@) is None,
        },
{
    if line.is_empty() {
        return None;
    }
    let length = line.unicode_len();
    let mut words: Vec<String> = Vec::new();
    let mut chars = line.chars();
    let mut start: usize = 0;
    let mut seen: usize = 0;
    proof {
        assert(line@.subrange(0, length as int) =~= line@);
    }
    loop
        invariant
            length == line@.len(),
            start <= seen <= length,
            chars.remaining() == line@.subrange(seen as int, length as int),
            forall|i: int| start <= i < seen ==> line@[i] != ' ',
            split_at_spaces(line@) == words.deep_view() + split_at_spaces(
                line@.subrange(start as int, length as int),
            ),
        ensures
            seen == length,
            start <= length,
            forall|i: int| start <= i < length ==> line@[i] != ' ',
            split_at_spaces(line@) == words.deep_view() + split_at_spaces(
                line@.subrange(start as int, length as int),
            ),
        decreases length - seen,
    {
        match chars.next() {
            Some(c) => {
                if c == ' ' {
                    let word = line.substring_char(start, seen).to_owned();
                    proof {
                        let tail = line@.subrange(start as int, length as int);
                        let cut = seen - start;
                        assert forall|i: int| 0 <= i < cut implies tail[i] != ' ' by {
                            assert(tail[i] == line@[start + i]);
                        }
                        lemma_first_space(tail, cut);
                        assert(tail.subrange(0, cut) =~= word@);
                        assert(tail.subrange(cut + 1, tail.len() as int) =~= line@.subrange(
                            seen + 1,
                            length as int,
                        ));
                        assert(words.deep_view().push(word@) + split_at_spaces(
                            line@.subrange(seen + 1, length as int),
                        ) =~= words.deep_view() + split_at_spaces(tail));
                    }
                    let ghost before = words.deep_view();
                    words.push(word);
                    assert(words.deep_view() =~= before.push(word@));
                    start = seen + 1;
                }
                seen = seen + 1;
            },
            None => {
                break ;
            },
        }
    }
    let word = line.substring_char(start, length).to_owned();
    proof {
        let tail = line@.subrange(start as int, length as int);
        assert forall|i: int| 0 <= i < tail.len() implies tail[i] != ' ' by {
            assert(tail[i] == line@[start + i]);
        }
        lemma_first_space(tail, tail.len() as int);
    }
    let ghost before = words.deep_view();
    words.push(word);
    proof {
        assert(words.deep_view() =~= before.push(word@));
        lemma_words_are_space_free(line@);
    }
    Some(Action::SimpleCommand(words))
}

} // verus!
