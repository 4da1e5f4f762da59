//! The argument vector in the form the system takes: every word a string of
//! bytes that a zero byte closes.

use vstd::prelude::*;
use vstd::string::StrSliceExecFns;
use vstd::utf8::{encode_scalar, encode_utf8, has_width_1_encoding, leading_byte_width_1};
use crate::command::Action;

verus! {

/// The bytes that stand for `word` in an argument vector: its encoding, and
/// a zero byte that closes it.
pub open spec fn c_string(word: Seq<char>) -> Seq<u8> {
    encode_utf8(word) + seq![0u8]
}

/// Whether `word` can stand in an argument vector: it does not hold the null
/// character, whose byte would close it early.
pub open spec fn fits_c_string(word: Seq<char>) -> bool {
    !word.contains('\0')
}

proof fn lemma_one_byte_is_zero(scalar: u32)
    by (bit_vector)
    requires
        scalar <= 0x7F,
    ensures
        (scalar & 0x7F) as u8 == 0u8 <==> scalar == 0,
{
}

proof fn lemma_leading_bytes_are_not_zero(scalar: u32)
    by (bit_vector)
    ensures
        0xC0u8 | ((scalar >> 6) & 0x1F) as u8 != 0u8,
        0xE0u8 | ((scalar >> 12) & 0x0F) as u8 != 0u8,
        0xF0u8 | ((scalar >> 18) & 0x7) as u8 != 0u8,
{
}

proof fn lemma_continuation_bytes_are_not_zero(scalar: u32)
    by (bit_vector)
    ensures
        0x80u8 | (scalar & 0x3F) as u8 != 0u8,
        0x80u8 | ((scalar >> 6) & 0x3F) as u8 != 0u8,
        0x80u8 | ((scalar >> 12) & 0x3F) as u8 != 0u8,
{
}

/// Only the null character has a zero byte in its encoding.
proof fn lemma_zero_byte_of_scalar(c: char)
    ensures
        encode_scalar(c as u32).contains(0u8) <==> c == '\0',
{
    let scalar = c as u32;
    let bytes = encode_scalar(scalar);
    vstd::utf8::char_is_scalar(c);
    lemma_leading_bytes_are_not_zero(scalar);
    lemma_continuation_bytes_are_not_zero(scalar);
    if has_width_1_encoding(scalar) {
        lemma_one_byte_is_zero(scalar);
    }
    if c == '\0' {
        assert(bytes[0] == 0u8);
    }
    if bytes.contains(0u8) {
        let at = choose|i: int| 0 <= i < bytes.len() && bytes[i] == 0u8;
        assert(bytes[at] == 0u8);
    }
}

/// The encoding of a word holds a zero byte exactly where the word holds the
/// null character.
pub proof fn lemma_zero_byte_is_null_character(word: Seq<char>)
    ensures
        encode_utf8(word).contains(0u8) <==> word.contains('\0'),
    decreases word.len(),
{
    if word.len() > 0 {
        let head = encode_scalar(word[0] as u32);
        let rest = word.drop_first();
        let tail = encode_utf8(rest);
        let bytes = head + tail;
        lemma_zero_byte_of_scalar(word[0]);
        lemma_zero_byte_is_null_character(rest);
        if head.contains(0u8) {
            let at = choose|i: int| 0 <= i < head.len() && head[i] == 0u8;
            assert(bytes[at] == 0u8);
        }
        if tail.contains(0u8) {
            let at = choose|i: int| 0 <= i < tail.len() && tail[i] == 0u8;
            assert(bytes[head.len() + at] == 0u8);
        }
        if bytes.contains(0u8) {
            let at = choose|i: int| 0 <= i < bytes.len() && bytes[i] == 0u8;
            if at < head.len() {
                assert(head[at] == 0u8);
            } else {
                assert(tail[at - head.len()] == 0u8);
            }
        }
        if rest.contains('\0') {
            let at = choose|i: int| 0 <= i < rest.len() && rest[i] == '\0';
            assert(word[at + 1] == '\0');
        }
        if word.contains('\0') {
            let at = choose|i: int| 0 <= i < word.len() && word[i] == '\0';
            if at > 0 {
                assert(rest[at - 1] == '\0');
            }
        }
    }
}

/// The bytes of a word that fits are a string in the sense of C: the one
/// zero byte is the last.
pub proof fn c_string_ends_at_its_zero(word: Seq<char>)
    requires
        fits_c_string(word),
    ensures
        c_string(word).len() == encode_utf8(word).len() + 1,
        c_string(word).last() == 0u8,
        forall|i: int| 0 <= i < c_string(word).len() - 1 ==> c_string(word)[i] != 0u8,
{
    lemma_zero_byte_is_null_character(word);
    assert forall|i: int| 0 <= i < c_string(word).len() - 1 implies c_string(word)[i]
        != 0u8 by {
        assert(c_string(word)[i] == encode_utf8(word)[i]);
    }
}

impl Action {
    /// The argument vector as the system takes it: every word as a string of
    /// bytes closed by a zero byte, in order. The first names the program to
    /// look up and is also what the program is told its name is. There is no
    /// such vector where a word holds the null character.
    pub fn argument_vector(&self) -> (argv: Option<Vec<Vec<u8>>>)
        ensures
            argv is Some <==> (forall|k: int| 0 <= k < self@.len() ==> fits_c_string(self@[k])),
            argv matches Some(v) ==> v.deep_view() == Seq::new(
                self@.len(),
                |k: int| c_string(self@[k]),
            ),
    {
        let words = self.words();
        let mut argv: Vec<Vec<u8>> = Vec::new();
        let mut done: usize = 0;
        while done < words.len()
            invariant
                done <= words.len(),
                words.deep_view() == self@,
                forall|k: int| 0 <= k < done ==> fits_c_string(self@[k]),
                argv.deep_view() == Seq::new(done as nat, |k: int| c_string(self@[k])),
            decreases words.len() - done,
        {
            let mut bytes = words[done].as_str().as_bytes_vec();
            proof {
                lemma_zero_byte_is_null_character(self@[done as int]);
            }
            if holds_zero(&bytes) {
                return None;
            }
            bytes.push(0u8);
            assert(bytes.deep_view() =~= c_string(self@[done as int]));
            let ghost before = argv.deep_view();
            argv.push(bytes);
            assert(argv.deep_view() =~= before.push(c_string(self@[done as int])));
            done = done + 1;
        }
        Some(argv)
    }
}

/// Whether one of `bytes` is zero.
fn holds_zero(bytes: &Vec<u8>) -> (found: bool)
    ensures
        found == bytes@.contains(0u8),
{
    let mut at: usize = 0;
    while at < bytes.len()
        invariant
            at <= bytes.len(),
            forall|i: int| 0 <= i < at ==> bytes@[i] != 0u8,
        decreases bytes.len() - at,
    {
        if bytes[at] == 0u8 {
            return true;
        }
        at = at + 1;
    }
    false
}

} // verus!
