//! What one call of the program is to do, from its arguments and the
//! registry.

use crate::cli_args::Args;
use crate::config::added;
use crate::config::is_storable;
use crate::config::stored_registry;
use crate::config::registry_text;
use crate::config::resolved;
use crate::config::Config;
use crate::entry::Entry;
use crate::entry::EntryBuilder;
use crate::error::JournalError;
use crate::file_journal::FileJournal;
use crate::ident::is_random;
use crate::text::is_starred;
use crate::text::join;
use crate::text::joined;
use crate::text::title_of;
use crate::text::without_star;
use vstd::prelude::*;

verus! {

/// What the program is to do.
#[derive(Clone, Copy, Debug, PartialEq, Eq, Structural)]
pub enum Command {
    /// Print the version of the program.
    Version,
    /// Ask the user for a new journal, and add it to the registry.
    AddJournal,
    /// Take back the last entry of the journal at this place of the registry.
    UndoLastEntry { journal: usize },
    /// Add an entry to the journal at this place of the registry.
    AddNewEntry { journal: usize },
}

/// What a call is to do: the version and a new journal come before
/// anything else, in this order; every other call needs the journal that
/// `--journal` picks, and takes back its last entry or adds one.
pub open spec fn command_of(args: Args, registry: Config) -> Result<Command, JournalError> {
    if args.flag_version {
        Ok(Command::Version)
    } else if args.flag_add {
        Ok(Command::AddJournal)
    } else {
        match resolved(registry@, args.flag_journal@) {
            None => Err(JournalError::NoJournal),
            Some(at) => if args.flag_undo {
                Ok(Command::UndoLastEntry { journal: at as usize })
            } else {
                Ok(Command::AddNewEntry { journal: at as usize })
            },
        }
    }
}

/// The content of a new entry: the words of the command line with a space
/// between each two, or, where there are none, the lines that the user
/// typed, each on its own line.
pub open spec fn content_of(args: Args, typed: Seq<Seq<char>>) -> Seq<char> {
    if args.arg_content.len() == 0 {
        joined(typed, "\n"@)
    } else {
        joined(args.arg_content.deep_view(), " "@)
    }
}

/// The journal that a name picks; `NoJournal` where it picks none.
pub fn get_journal<'a>(config: &'a Config, name: &String) -> (outcome: Result<
    &'a Box<FileJournal>,
    JournalError,
>)
    ensures
        outcome is Ok <==> resolved(config@, name@) is Some,
        outcome matches Ok(journal) ==> *journal == config.file_journals@[resolved(
            config@,
            name@,
        )->0],
        outcome matches Err(error) ==> error == JournalError::NoJournal,
{
    match config.file_journal_with_name_or_default(name.as_str()) {
        None => Err(JournalError::NoJournal),
        Some(journal) => Ok(journal),
    }
}

/// What the call is to do.
pub fn process_args(args: &Args, config: &Config) -> (outcome: Result<Command, JournalError>)
    ensures
        outcome == command_of(*args, *config),
        outcome matches Ok(Command::UndoLastEntry { journal }) ==> journal
            < config.file_journals.len(),
        outcome matches Ok(Command::AddNewEntry { journal }) ==> journal
            < config.file_journals.len(),
{
    if args.flag_version {
        return Ok(Command::Version);
    }
    if args.flag_add {
        return Ok(Command::AddJournal);
    }
    let journal = match config.position_with_name_or_default(args.flag_journal.as_str()) {
        Some(journal) => journal,
        None => return Err(JournalError::NoJournal),
    };
    if args.flag_undo {
        return Ok(Command::UndoLastEntry { journal });
    }
    Ok(Command::AddNewEntry { journal })
}

/// Adds a journal to the registry, and gives the text that the registry's
/// file is to hold then.
pub fn handle_add_journal(config: &mut Config, journal: FileJournal) -> (outcome: Result<
    String,
    JournalError,
>)
    ensures
        final(config)@ == added(old(config)@, journal@),
        outcome is Ok <==> is_storable(final(config)@),
        outcome matches Ok(text) ==> text@ == registry_text(final(config)@) && stored_registry(
            text@,
        ) == Some(final(config)@),
        outcome matches Err(error) ==> error == JournalError::RegistryWrite,
{
    config.add_journal(journal);
    config.save()
}

/// The entry that a call adds, made now and with a fresh identifier:
/// `EmptyContent` where nothing is left of the content once its star is
/// taken off.
pub fn new_entry(args: &Args, typed: &Vec<String>) -> (outcome: Result<Entry, JournalError>)
    ensures
        outcome is Ok <==> without_star(content_of(*args, typed.deep_view())).len() > 0,
        outcome matches Ok(entry) ==> {
            let content = content_of(*args, typed.deep_view());
            &&& entry@.content == without_star(content)
            &&& entry@.starred == (args.flag_star || is_starred(content))
            &&& entry@.title == Some(
                if args.flag_title@.len() == 0 {
                    title_of(without_star(content))
                } else {
                    args.flag_title@
                },
            )
            &&& entry@.tags == Seq::<Seq<char>>::empty()
            &&& entry@.updated_at == entry@.created_at
            &&& is_random(entry@.id)
        },
        outcome matches Err(error) ==> error == JournalError::EmptyContent,
{
    let content = if args.arg_content.len() == 0 {
        join(typed, "\n")
    } else {
        join(&args.arg_content, " ")
    };
    EntryBuilder::new().starred(args.flag_star).title(args.flag_title.clone()).content(
        content,
    ).finalize()
}

} // verus!
