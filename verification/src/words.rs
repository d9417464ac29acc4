//! Shell words: splitting a line the way a POSIX shell does, and quoting words
//! so that a shell reads them back.

use vstd::prelude::*;
use crate::text::texts;

verus! {

/// The words that `shlex::split` reads from a line, or `None` where the line
/// ends inside a quotation or right after a backslash.
pub uninterp spec fn shell_words(line: Seq<char>) -> Option<Seq<Seq<char>>>;

/// The line that `shlex::join` writes for a list of words: each word quoted
/// where it has to be, with single spaces between them.
pub uninterp spec fn shell_line(words: Seq<Seq<char>>) -> Seq<char>;

/// Calls `shlex::split`. Claimed: the result depends on the line alone.
#[verifier::external_body]
pub(crate) fn split_words(line: &str) -> (words: Option<Vec<String>>)
    ensures
        match words {
            Some(w) => shell_words(line@) == Some(texts(w@)),
            None => shell_words(line@) is None,
        },
{
    shlex::split(line)
}

/// Calls `shlex::join`, which passes every byte through and never fails.
/// Claimed: the result depends on the words alone.
#[verifier::external_body]
#[allow(deprecated)]
pub(crate) fn join_words(words: &Vec<String>) -> (line: String)
    ensures
        line@ == shell_line(texts(words@)),
{
    shlex::join(words.iter().map(|w| w.as_str()))
}

} // verus!
