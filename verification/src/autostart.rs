//! Starting with the system: what is written to the user's list of programs to run.

use vstd::prelude::*;

verus! {

/// Where the program stands once it has been installed.
pub const INSTALLED_PATH: &'static str = "C:\\Program Files\\Curosu\\curosu.exe";

/// The key that lists the programs to run.
pub const RUN_KEY: &'static str = "Software\\Microsoft\\Windows\\CurrentVersion\\Run";

/// The name of the entry.
pub const VALUE_NAME: &'static str = "Curosu";

/// What is done with the entry.
#[derive(Debug)]
pub enum RunEntry {
    /// It is set to a command.
    Write { command: String },
    /// It is deleted.
    Erase,
    /// There is nothing that could be started.
    Refuse,
}

/// The command that starts the program at `path`: the path in quotes.
pub open spec fn command_for(path: Seq<char>) -> Seq<char> {
    seq!['"'] + path + seq!['"']
}

/// Quotes a path, so that spaces in it do not end it.
pub fn startup_command(path: &str) -> (r: String)
    ensures
        r@ == command_for(path@),
{
    let mut command: String = String::new();
    command.push('"');
    command.append(path);
    command.push('"');
    assert(command@ =~= command_for(path@));
    command
}

/// The path of the program: that of the installed one if there is one, that of the
/// running one otherwise, and nothing if even that is unknown.
pub fn startup_path(installed: bool, running: Option<String>) -> (r: String)
    ensures
        installed ==> r@ == INSTALLED_PATH@,
        !installed ==> r@ == (match running {
            Some(path) => path@,
            None => Seq::empty(),
        }),
{
    if installed {
        INSTALLED_PATH.to_owned()
    } else {
        match running {
            Some(path) => path,
            None => String::new(),
        }
    }
}

/// Whether this is what is to be done with the entry, for the path of the program.
pub open spec fn is_decision(entry: RunEntry, enabled: bool, path: Seq<char>) -> bool {
    match entry {
        RunEntry::Write { command } => enabled && path.len() > 0 && command@ == command_for(path),
        RunEntry::Erase => !enabled,
        RunEntry::Refuse => enabled && path.len() == 0,
    }
}

/// Says what to do with the entry, for the path of the program.
pub fn apply(enabled: bool, path: &str) -> (r: RunEntry)
    ensures
        is_decision(r, enabled, path@),
{
    if enabled {
        if path.is_empty() {
            RunEntry::Refuse
        } else {
            RunEntry::Write { command: startup_command(path) }
        }
    } else {
        RunEntry::Erase
    }
}

/// Whether it was done: the key could be opened, there was something to do, and the one
/// call that does it returned zero.
pub open spec fn succeeded(entry: RunEntry, opened: bool, code: int) -> bool {
    opened && !(entry is Refuse) && code == 0
}

/// Tells whether it was done. `code` is what the call returned that wrote or erased the
/// entry.
pub fn applied(entry: &RunEntry, opened: bool, code: i32) -> (r: bool)
    ensures
        r == succeeded(*entry, opened, code as int),
{
    match entry {
        RunEntry::Refuse => false,
        _ => opened && code == 0,
    }
}

/// Switching the start on or off succeeds if and only if the key could be opened, there
/// is a path where one is needed, and the one call returned zero.
pub proof fn law_outcome_of_switching(
    entry: RunEntry,
    enabled: bool,
    path: Seq<char>,
    opened: bool,
    code: int,
)
    requires
        is_decision(entry, enabled, path),
    ensures
        succeeded(entry, opened, code) <==> opened && (!enabled || path.len() > 0) && code == 0,
{
}

/// Different programs are started by different commands.
pub proof fn law_commands_tell_paths_apart(a: Seq<char>, b: Seq<char>)
    requires
        command_for(a) == command_for(b),
    ensures
        a == b,
{
    assert(command_for(a).len() == a.len() + 2);
    assert(command_for(b).len() == b.len() + 2);
    assert(command_for(a).subrange(1, 1 + a.len() as int) =~= a);
    assert(command_for(b).subrange(1, 1 + b.len() as int) =~= b);
}

/// A command is the path between two quotes, each character of it in its place.
pub proof fn law_command_is_the_quoted_path(path: Seq<char>, i: int)
    ensures
        command_for(path).len() == path.len() + 2,
        command_for(path).first() == '"',
        command_for(path).last() == '"',
        0 <= i < path.len() ==> command_for(path)[i + 1] == path[i],
{
}

/// What is done with the entry: switched on, the quoted path is written, if there is one,
/// and refused otherwise; switched off, it is erased, whatever the path.
pub proof fn law_switching_writes_or_erases(entry: RunEntry, enabled: bool, path: Seq<char>)
    requires
        is_decision(entry, enabled, path),
    ensures
        entry is Erase <==> !enabled,
        entry is Refuse <==> enabled && path.len() == 0,
        entry is Write <==> enabled && path.len() > 0,
        entry matches RunEntry::Write { command } ==> command@ == seq!['"'] + path + seq!['"'],
{
}

/// What was asked for was done if and only if the key could be opened, there was something
/// to write or to erase, and the call returned zero.
pub proof fn law_what_counts_as_done(entry: RunEntry, opened: bool, code: int)
    ensures
        succeeded(entry, opened, code) ==> opened && code == 0 && (entry is Write
            || entry is Erase),
        opened && code == 0 && (entry is Write || entry is Erase) ==> succeeded(
            entry,
            opened,
            code,
        ),
{
}

/// The names of the program, of the key and of the entry.
pub proof fn law_names_of_the_entry()
    ensures
        INSTALLED_PATH@ == "C:\\Program Files\\Curosu\\curosu.exe"@,
        RUN_KEY@ == "Software\\Microsoft\\Windows\\CurrentVersion\\Run"@,
        VALUE_NAME@ == "Curosu"@,
{
}

} // verus!
