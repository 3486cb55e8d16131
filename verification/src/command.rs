//! The command line a client sends: how it is read from the wire and which
//! words are reserved.

use crate::text::{chars_of, decode_lossy, lossy_text, trim, trimmed};
use vstd::prelude::*;
use vstd::slice::slice_subrange;
use vstd::string::StringExecFns;
use vstd::utf8::{decode_utf8, valid_utf8};

verus! {

/// Size of the buffer for the single read that carries the command.
pub const COMMAND_BUFFER: usize = 1024;

/// The command line carried by the bytes of one read: the first
/// `COMMAND_BUFFER` bytes at most, decoded lossily and trimmed.
pub open spec fn command_text(bytes: Seq<u8>) -> Seq<char> {
    if bytes.len() <= COMMAND_BUFFER {
        trimmed(lossy_text(bytes))
    } else {
        trimmed(lossy_text(bytes.subrange(0, COMMAND_BUFFER as int)))
    }
}

/// The code of `c` with the ASCII capitals mapped onto the small letters.
pub open spec fn fold_ascii(c: char) -> int {
    if 'A' <= c && c <= 'Z' {
        c as int + 32
    } else {
        c as int
    }
}

/// Whether two texts are equal up to the case of their ASCII letters.
pub open spec fn same_ignoring_ascii_case(a: Seq<char>, b: Seq<char>) -> bool {
    &&& a.len() == b.len()
    &&& forall|i: int| 0 <= i < a.len() ==> fold_ascii(#[trigger] a[i]) == fold_ascii(b[i])
}

pub open spec fn quit_word() -> Seq<char> {
    seq!['q', 'u', 'i', 't']
}

pub open spec fn exit_word() -> Seq<char> {
    seq!['e', 'x', 'i', 't']
}

/// Whether `line` is one of the two reserved words, in any mix of cases.
/// Such a line asks the server to stop instead of naming a command to run.
pub open spec fn is_shutdown_word(line: Seq<char>) -> bool {
    same_ignoring_ascii_case(line, quit_word()) || same_ignoring_ascii_case(line, exit_word())
}

/// A reserved word is reserved in every mix of upper and lower case, and in
/// no other spelling: a line matches exactly when it has the letters of the
/// word, each either small or capital.
pub proof fn law_reserved_words_ignore_case(line: Seq<char>, word: Seq<char>)
    requires
        word == quit_word() || word == exit_word(),
    ensures
        same_ignoring_ascii_case(line, word) <==> line.len() == 4 && forall|i: int|
            0 <= i < 4 ==> #[trigger] line[i] == word[i] || line[i] as int == word[i] as int - 32,
        same_ignoring_ascii_case(line, word) ==> is_shutdown_word(line),
{
    assert(word.len() == 4);
    assert(word[0] == 'q' || word[0] == 'e');
    assert(word[1] == 'u' || word[1] == 'x');
    assert(word[2] == 'i');
    assert(word[3] == 't');
    if line.len() == 4 {
        assert forall|i: int| 0 <= i < 4 implies (fold_ascii(#[trigger] line[i]) == fold_ascii(
            word[i],
        ) <==> line[i] == word[i] || line[i] as int == word[i] as int - 32) by {
            assert(fold_ascii(word[i]) == word[i] as int);
        }
    }
}

fn fold(c: char) -> (code: u32)
    ensures
        code as int == fold_ascii(c),
{
    if 'A' <= c && c <= 'Z' {
        let code: u32 = c as u32;
        code + 32
    } else {
        c as u32
    }
}

/// The command interpreters a command line can be handed to.
#[derive(Clone, Copy, Debug, PartialEq, Eq, Structural)]
pub enum Shell {
    /// `sh`, which takes a command line after `-c`.
    Posix,
    /// `cmd`, which takes a command line after `/C`.
    Windows,
}

/// The name of the interpreter.
pub open spec fn shell_program(shell: Shell) -> Seq<char> {
    match shell {
        Shell::Posix => "sh"@,
        Shell::Windows => "cmd"@,
    }
}

/// The flag after which the interpreter takes a command line.
pub open spec fn shell_flag(shell: Shell) -> Seq<char> {
    match shell {
        Shell::Posix => "-c"@,
        Shell::Windows => "/C"@,
    }
}

/// How `line` is run: the interpreter, its flag, and the line as one
/// argument, whatever it holds. An empty line is run like any other.
pub fn shell_invocation(shell: Shell, line: &str) -> (words: Vec<String>)
    ensures
        words@.len() == 3,
        words@[0]@ == shell_program(shell),
        words@[1]@ == shell_flag(shell),
        words@[2]@ == line@,
{
    let mut words: Vec<String> = Vec::new();
    match shell {
        Shell::Posix => {
            words.push(String::from_str("sh"));
            words.push(String::from_str("-c"));
        },
        Shell::Windows => {
            words.push(String::from_str("cmd"));
            words.push(String::from_str("/C"));
        },
    }
    words.push(String::from_str(line));
    words
}

/// Reads the command line out of the bytes of the first read. Bytes that
/// are valid UTF-8 and fit the buffer give their decoding, trimmed.
pub fn parse_command(bytes: &[u8]) -> (line: String)
    ensures
        line@ == command_text(bytes@),
        bytes@.len() <= COMMAND_BUFFER && valid_utf8(bytes@) ==> line@ == trimmed(
            decode_utf8(bytes@),
        ),
{
    let text = if bytes.len() <= COMMAND_BUFFER {
        decode_lossy(bytes)
    } else {
        decode_lossy(slice_subrange(bytes, 0, COMMAND_BUFFER))
    };
    trim(text.as_str())
}

/// Whether `line` asks the server to stop.
pub fn is_shutdown_command(line: &str) -> (stop: bool)
    ensures
        stop == is_shutdown_word(line@),
{
    let v = chars_of(line);
    if v.len() != 4 {
        return false;
    }
    let a = fold(v[0]);
    let b = fold(v[1]);
    let c = fold(v[2]);
    let d = fold(v[3]);
    let quit = a == 0x71 && b == 0x75 && c == 0x69 && d == 0x74;
    let exit = a == 0x65 && b == 0x78 && c == 0x69 && d == 0x74;
    proof {
        let q = quit_word();
        let e = exit_word();
        assert(q[0] == 'q' && q[1] == 'u' && q[2] == 'i' && q[3] == 't');
        assert(e[0] == 'e' && e[1] == 'x' && e[2] == 'i' && e[3] == 't');
        assert(quit == same_ignoring_ascii_case(v@, q));
        assert(exit == same_ignoring_ascii_case(v@, e));
    }
    quit || exit
}

} // verus!
