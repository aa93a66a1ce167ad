//! What the pipeline asks of `git`, and what it reads out of git's answers.

use crate::text::{chars_of, contains, contains_text, find_char, find_from};
use vstd::prelude::*;
use vstd::string::*;

verus! {

/// The phrase in the output of `git status` that says nothing is to be
/// pulled.
pub open spec fn up_to_date_marker() -> Seq<char> {
    "Your branch is up to date"@
}

/// Tells whether the output of `git status` says that the working tree is
/// level with its upstream branch.
pub fn is_up_to_date(status: &str) -> (yes: bool)
    ensures
        yes == contains_text(status@, up_to_date_marker()),
{
    contains(status, "Your branch is up to date")
}

/// What stands before the first line feed of `text`: all of it if it holds
/// none.
pub open spec fn first_line(text: Seq<char>) -> Seq<char> {
    text.subrange(0, find_from(text, '\n', 0))
}

/// The second of the fields that single spaces separate in `line`: what
/// stands between its first space and its second, or its end. Empty if
/// `line` holds no space.
pub open spec fn second_field(line: Seq<char>) -> Seq<char> {
    let first_space = find_from(line, ' ', 0);
    if first_space >= line.len() {
        Seq::empty()
    } else {
        line.subrange(first_space + 1, find_from(line, ' ', first_space + 1))
    }
}

/// The hash of the newest commit as the output of `git log` names it: the
/// second field of the first line.
pub open spec fn commit_hash(git_log: Seq<char>) -> Seq<char> {
    second_field(first_line(git_log))
}

/// Reads the hash of the current commit out of the output of `git log`,
/// whose first line is the word `commit`, a space and the hash. The hash is
/// empty where the first line holds no space.
pub fn get_current_commit_hash(git_log: &str) -> (hash: String)
    ensures
        hash@ == commit_hash(git_log@),
{
    let all = chars_of(git_log);
    let line_end = find_char(&all, '\n', 0);
    let line = git_log.substring_char(0, line_end);
    let cs = chars_of(line);
    let first_space = find_char(&cs, ' ', 0);
    if first_space >= cs.len() {
        return String::new();
    }
    let field_end = find_char(&cs, ' ', first_space + 1);
    String::from_str(line.substring_char(first_space + 1, field_end))
}

} // verus!
