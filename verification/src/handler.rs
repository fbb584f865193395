//! Carrying out a command on the store and wording the reply.

use vstd::prelude::*;
use crate::command::{command_of, Command, CommandView};
use crate::db::Db;
use crate::text::words;

verus! {

/// The reply to a command on a store: the value that was found or `(nil)`,
/// `OK` for a value that was stored, an error for an unknown command.
pub open spec fn reply_to(db: Map<Seq<char>, Seq<char>>, command: CommandView) -> Seq<char> {
    match command {
        CommandView::Get(key) => if db.contains_key(key) {
            db[key]
        } else {
            "(nil)"@
        },
        CommandView::Put(_, _) => "OK"@,
        CommandView::Unknown => "ERR unknown command"@,
    }
}

/// The store after a command: changed by a stored value, and by nothing
/// else.
pub open spec fn store_after(db: Map<Seq<char>, Seq<char>>, command: CommandView) -> Map<
    Seq<char>,
    Seq<char>,
> {
    match command {
        CommandView::Put(key, value) => db.insert(key, value),
        _ => db,
    }
}

/// Whether a command changes the store: only one that stores a value does.
pub open spec fn changes_store(command: CommandView) -> bool {
    command is Put
}

/// Whether a command looks into the store or changes it: an unknown command
/// does neither.
pub open spec fn uses_store(command: CommandView) -> bool {
    !(command is Unknown)
}

/// Whether the command changes the store, so that whoever guards the store
/// must let no one else at it meanwhile.
pub fn needs_to_write(command: &Command) -> (writes: bool)
    ensures
        writes == changes_store(command@),
{
    match command {
        Command::Put(_, _) => true,
        _ => false,
    }
}

/// The reply to a command that does not use the store, which is the same
/// whatever the store holds; `None` for a command that uses it.
pub fn reply_without_store(command: &Command) -> (reply: Option<String>)
    ensures
        reply is Some <==> !uses_store(command@),
        reply matches Some(text) ==> forall|db: Map<Seq<char>, Seq<char>>|
            text@ == #[trigger] reply_to(db, command@),
{
    match command {
        Command::Unknown => Some(String::from_str("ERR unknown command")),
        _ => None,
    }
}

/// The reply to a command that leaves the store as it is; `None` for a
/// command that changes it.
pub fn reply_from_store(db: &Db, command: &Command) -> (reply: Option<String>)
    ensures
        reply is Some <==> !changes_store(command@),
        reply matches Some(text) ==> text@ == reply_to(db@, command@),
        !changes_store(command@) ==> store_after(db@, command@) == db@,
{
    match command {
        Command::Get(key) => match db.get(key.as_str()) {
            Some(value) => Some(value),
            None => Some(String::from_str("(nil)")),
        },
        Command::Put(_, _) => None,
        Command::Unknown => Some(String::from_str("ERR unknown command")),
    }
}

/// Carries out a command on the store and returns the reply.
pub fn execute_command(db: &mut Db, command: Command) -> (reply: String)
    ensures
        reply@ == reply_to(old(db)@, command@),
        final(db)@ == store_after(old(db)@, command@),
{
    match command {
        Command::Get(key) => match db.get(key.as_str()) {
            Some(value) => value,
            None => String::from_str("(nil)"),
        },
        Command::Put(key, value) => {
            db.set(key, value);
            String::from_str("OK")
        },
        Command::Unknown => String::from_str("ERR unknown command"),
    }
}

/// Reads a line as a command, carries it out on the store and returns the
/// reply.
pub fn process_command(db: &mut Db, input: &str) -> (reply: String)
    ensures
        reply@ == reply_to(old(db)@, command_of(words(input@))),
        final(db)@ == store_after(old(db)@, command_of(words(input@))),
{
    let command = Command::parse(input);
    execute_command(db, command)
}

} // verus!
