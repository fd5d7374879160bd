//! The ways in which an operation on a journal or on the registry fails.

use vstd::prelude::*;
use vstd::string::StringExecFns;

verus! {

/// Why an operation failed.
#[derive(Clone, Copy, Debug, PartialEq, Eq, Structural)]
pub enum JournalError {
    /// The content of an entry is empty once its star is taken off.
    EmptyContent,
    /// A journal cannot be kept at the place given for it.
    InvalidLocation,
    /// What a journal's file holds is no sequence of entries.
    StorageRead,
    /// The entries of a journal could not be written out.
    StorageWrite,
    /// What the registry's file holds is no list of journals.
    RegistryParse,
    /// The registry could not be written out.
    RegistryWrite,
    /// No journal has the name asked for, or none is the default.
    NoJournal,
}

impl JournalError {
    /// The sentence that tells a user of the failure.
    pub open spec fn spec_message(self) -> Seq<char> {
        match self {
            JournalError::EmptyContent => "Content is empty!"@,
            JournalError::InvalidLocation => "Couldn't open/create journal file"@,
            JournalError::StorageRead => "Couldn't read entries"@,
            JournalError::StorageWrite => "Couldn't save entries"@,
            JournalError::RegistryParse => "Couldn't read the config file"@,
            JournalError::RegistryWrite => "Couldn't save the config file"@,
            JournalError::NoJournal => "Please add a journal"@,
        }
    }

    /// The sentence that tells a user of the failure.
    pub fn message(&self) -> (text: String)
        ensures
            text@ == self.spec_message(),
    {
        match self {
            JournalError::EmptyContent => String::from_str("Content is empty!"),
            JournalError::InvalidLocation => String::from_str("Couldn't open/create journal file"),
            JournalError::StorageRead => String::from_str("Couldn't read entries"),
            JournalError::StorageWrite => String::from_str("Couldn't save entries"),
            JournalError::RegistryParse => String::from_str("Couldn't read the config file"),
            JournalError::RegistryWrite => String::from_str("Couldn't save the config file"),
            JournalError::NoJournal => String::from_str("Please add a journal"),
        }
    }
}

} // verus!
