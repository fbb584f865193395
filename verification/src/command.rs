//! The commands of the key-value interpreter and how a line of text is read
//! as one.

use vstd::prelude::*;
use crate::text::{eq_ignore_ascii_case, same_ignoring_ascii_case, split_words, views, words};

verus! {

/// A command.
#[derive(PartialEq, Debug)]
pub enum Command {
    /// `GET <key>`: look the key up.
    Get(String),
    /// `SET <key> <value>`: store the value under the key.
    Put(String, String),
    /// Anything else.
    Unknown,
}

/// A command as plain text.
pub enum CommandView {
    Get(Seq<char>),
    Put(Seq<char>, Seq<char>),
    Unknown,
}

impl View for Command {
    type V = CommandView;

    open spec fn view(&self) -> CommandView {
        match self {
            Command::Get(key) => CommandView::Get(key@),
            Command::Put(key, value) => CommandView::Put(key@, value@),
            Command::Unknown => CommandView::Unknown,
        }
    }
}

/// The command that a sequence of words stands for: `get` and a key, `set`,
/// a key and a value, the command's name in any case; anything else is
/// unknown.
pub open spec fn command_of(w: Seq<Seq<char>>) -> CommandView {
    if w.len() == 2 && same_ignoring_ascii_case(w[0], "get"@) {
        CommandView::Get(w[1])
    } else if w.len() == 3 && same_ignoring_ascii_case(w[0], "set"@) {
        CommandView::Put(w[1], w[2])
    } else {
        CommandView::Unknown
    }
}

impl Command {
    /// The command that the given words stand for.
    pub fn from_words(w: &Vec<String>) -> (command: Command)
        ensures
            command@ == command_of(views(w@)),
    {
        if w.len() == 2 && eq_ignore_ascii_case(w[0].as_str(), "get") {
            Command::Get(w[1].clone())
        } else if w.len() == 3 && eq_ignore_ascii_case(w[0].as_str(), "set") {
            Command::Put(w[1].clone(), w[2].clone())
        } else {
            Command::Unknown
        }
    }

    /// Reads a line such as `SET foo bar` as a command. The line is taken
    /// word by word, so whitespace around and between the words does not
    /// matter.
    pub fn parse(input: &str) -> (command: Command)
        ensures
            command@ == command_of(words(input@)),
    {
        let w = split_words(input);
        Command::from_words(&w)
    }
}

} // verus!
