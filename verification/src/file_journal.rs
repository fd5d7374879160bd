//! A journal that is kept in one file: its record in the registry, and what
//! each operation makes of the text that the file holds.

use crate::codec::document_entries;
use crate::codec::entries_document;
use crate::codec::entries_from_json;
use crate::codec::entries_to_json;
use crate::codec::flag_at;
use crate::codec::lemma_entries_exact;
use crate::codec::lemma_line;
use crate::codec::line_from;
use crate::codec::flag_member;
use crate::codec::text_at;
use crate::codec::text_member;
use crate::entry::Entry;
use crate::entry::EntryView;
use crate::error::JournalError;
use crate::journal::remove;
use crate::journal::undo_last;
use crate::journal::upsert;
use crate::journal::Journal;
use crate::journal::JournalRecord;
use crate::journal::views_of;
use crate::json;
use crate::json::json_model;
use crate::json::json_parsed;
use crate::json::json_text;
use crate::json::JsonModel;
use crate::scan::fits;
use crate::scan::is_parsable;
use crate::text::strip_line_break;
use crate::text::trim;
use crate::text::without_line_break;
use crate::text::trimmed;
use rustc_serialize::json::Json;
use vstd::prelude::*;
use vstd::std_specs::cmp::PartialEqSpecImpl;
use vstd::string::StringExecFns;

verus! {

/// The JSON object that stands for a journal in the registry's file.
pub open spec fn record_document(record: JournalRecord) -> JsonModel {
    JsonModel::Object(
        map![
            "name"@ => JsonModel::String(record.name),
            "location"@ => JsonModel::String(record.location),
            "type"@ => JsonModel::String("FileJournal"@),
            "default"@ => JsonModel::Boolean(record.is_default),
        ],
    )
}

/// The journal that a JSON value stands for, if it stands for one: an
/// object with a name, a location and the default flag.
pub open spec fn document_record(document: JsonModel) -> Option<JournalRecord> {
    if text_member(document, "name"@) is Some && text_member(document, "location"@) is Some
        && flag_member(document, "default"@) is Some {
        Some(
            JournalRecord {
                name: text_member(document, "name"@)->0,
                location: text_member(document, "location"@)->0,
                is_default: flag_member(document, "default"@)->0,
            },
        )
    } else {
        None
    }
}

/// The entries that the text of a journal's file stands for: none for an
/// empty file, else those of the JSON value that the text spells, on a line
/// or without a line break. A text beyond the limits of the parser stands
/// for nothing.
pub open spec fn stored_entries(stored: Seq<char>) -> Option<Seq<EntryView>> {
    if stored.len() == 0 {
        Some(Seq::empty())
    } else if !is_parsable(without_line_break(stored)) {
        None
    } else {
        match json_parsed(without_line_break(stored)) {
            Some(document) => document_entries(document),
            None => None,
        }
    }
}

/// The text that a journal's file holds for the given entries: their JSON
/// array on one line.
pub open spec fn entries_text(entries: Seq<EntryView>) -> Seq<char> {
    json_text(entries_document(entries)) + "\n"@
}

/// Whether the JSON array of the given entries is printed as a text that
/// the parser can be given again.
pub open spec fn is_storable(entries: Seq<EntryView>) -> bool {
    is_parsable(json_text(entries_document(entries)))
}

/// The name of a journal, from what the user typed for it: `default` where
/// nothing was typed.
pub open spec fn name_from(typed: Seq<char>) -> Seq<char> {
    if typed.len() == 0 {
        "default"@
    } else {
        typed
    }
}

/// The name of the file that is offered for a journal of the given name.
pub open spec fn default_file_of(name: Seq<char>) -> Seq<char> {
    "rjrn-"@ + name + ".json"@
}

/// Where a journal is kept, from what the user typed for it: where nothing
/// was typed, at the offered file under the user's home directory, if there
/// is a home directory.
pub open spec fn location_from(typed: Seq<char>, home_default: Option<Seq<char>>) -> Option<
    Seq<char>,
> {
    if typed.len() == 0 {
        home_default
    } else {
        Some(typed)
    }
}

/// What becomes of making a journal: the journal that is not the default,
/// where there is a place for it and the probe file there was made and
/// removed.
pub open spec fn made(
    name: Seq<char>,
    location: Option<Seq<char>>,
    created: bool,
    removed: bool,
) -> Result<JournalRecord, JournalError> {
    match location {
        Some(location) if created && removed => Ok(
            JournalRecord { name, location, is_default: false },
        ),
        _ => Err(JournalError::InvalidLocation),
    }
}

/// A journal kept in a file.
#[derive(Debug)]
pub struct FileJournal {
    name: String,
    path: String,
    default: bool,
}

impl View for FileJournal {
    type V = JournalRecord;

    closed spec fn view(&self) -> JournalRecord {
        JournalRecord { name: self.name@, location: self.path@, is_default: self.default }
    }
}

impl FileJournal {
    /// The journal of the given name at the given path, which is not the
    /// default. A journal is made only at a place that can hold one:
    /// `created` and `removed` say whether the probe file at the path was
    /// made, and taken away again.
    pub fn new(name: &str, path: &str, created: bool, removed: bool) -> (outcome: Result<
        FileJournal,
        JournalError,
    >)
        ensures
            outcome is Ok <==> created && removed,
            outcome matches Ok(journal) ==> Ok::<JournalRecord, JournalError>(journal@) == made(
                name@,
                Some(path@),
                created,
                removed,
            ),
            outcome matches Err(error) ==> error == JournalError::InvalidLocation,
    {
        match FileJournal::validate_path(created, removed) {
            Ok(_) => Ok(
                FileJournal {
                    name: String::from_str(name),
                    path: String::from_str(path),
                    default: false,
                },
            ),
            Err(error) => Err(error),
        }
    }

    /// Whether a place can hold a journal, from what became of the probe
    /// file there: it must have been made, and taken away again.
    pub fn validate_path(created: bool, removed: bool) -> (outcome: Result<(), JournalError>)
        ensures
            outcome is Ok <==> created && removed,
            outcome matches Err(error) ==> error == JournalError::InvalidLocation,
    {
        if created && removed {
            Ok(())
        } else {
            Err(JournalError::InvalidLocation)
        }
    }

    /// The name of a journal, from what the user typed for it, without the
    /// white space around it.
    pub fn name_of(typed: &str) -> (name: String)
        ensures
            name@ == name_from(typed@),
    {
        if typed.is_empty() {
            String::from_str("default")
        } else {
            String::from_str(typed)
        }
    }

    /// The name of a journal, from the line that the user typed for it.
    pub fn journal_name(name_line: &str) -> (name: String)
        ensures
            name@ == name_from(trimmed(name_line@)),
    {
        FileJournal::name_of(trim(name_line))
    }

    /// The name of the file that is offered for a journal of the given name.
    pub fn default_path(name: &str) -> (file: String)
        ensures
            file@ == default_file_of(name@),
    {
        let mut file = String::from_str("rjrn-");
        file.append(name);
        file.append(".json");
        file
    }

    /// Where a journal is kept, from what the user typed for it, without
    /// the white space around it; `InvalidLocation` where nothing was typed
    /// and there is no home directory.
    pub fn location_of(typed: &str, home_default: Option<String>) -> (outcome: Result<
        String,
        JournalError,
    >)
        ensures
            outcome is Ok <==> location_from(typed@, home_default.deep_view()) is Some,
            outcome matches Ok(location) ==> Some(location@) == location_from(
                typed@,
                home_default.deep_view(),
            ),
            outcome matches Err(error) ==> error == JournalError::InvalidLocation,
    {
        if typed.is_empty() {
            match home_default {
                Some(path) => Ok(path),
                None => Err(JournalError::InvalidLocation),
            }
        } else {
            Ok(String::from_str(typed))
        }
    }

    /// Where a journal is kept, from the line that the user typed for it.
    /// This is the place to probe before the journal is made.
    pub fn location(path_line: &str, home_default: Option<String>) -> (outcome: Result<
        String,
        JournalError,
    >)
        ensures
            outcome is Ok <==> location_from(trimmed(path_line@), home_default.deep_view())
                is Some,
            outcome matches Ok(location) ==> Some(location@) == location_from(
                trimmed(path_line@),
                home_default.deep_view(),
            ),
            outcome matches Err(error) ==> error == JournalError::InvalidLocation,
    {
        FileJournal::location_of(trim(path_line), home_default)
    }

    /// The journal that the user asked for, from the two lines typed for its
    /// name and its path. Where no path was typed, the journal is kept at
    /// `home_default`, the offered file under the user's home directory.
    /// `created` and `removed` say what became of the probe file at the
    /// place that `location` gives for the same line.
    pub fn bootstrap_cli(
        name_line: &str,
        path_line: &str,
        home_default: Option<String>,
        created: bool,
        removed: bool,
    ) -> (outcome: Result<FileJournal, JournalError>)
        ensures
            outcome is Ok <==> location_from(trimmed(path_line@), home_default.deep_view())
                is Some && created && removed,
            outcome matches Ok(journal) ==> Ok::<JournalRecord, JournalError>(journal@) == made(
                name_from(trimmed(name_line@)),
                location_from(trimmed(path_line@), home_default.deep_view()),
                created,
                removed,
            ),
            outcome matches Err(error) ==> error == JournalError::InvalidLocation,
    {
        let name = FileJournal::journal_name(name_line);
        match FileJournal::location(path_line, home_default) {
            Ok(path) => FileJournal::new(name.as_str(), path.as_str(), created, removed),
            Err(error) => Err(error),
        }
    }

    /// The path of the file that holds the journal's entries.
    pub fn path(&self) -> (path: &String)
        ensures
            path@ == self@.location,
    {
        &self.path
    }

    /// The text that the journal's file is to hold for the given entries.
    /// It stands for these entries and no others: they are read back from
    /// it as they are, in id, title, content, instants, star and tags.
    /// `StorageWrite` where the text would be beyond the limits of the
    /// parser.
    pub fn save_entries(&self, entries: &Vec<Box<Entry>>) -> (outcome: Result<String, JournalError>)
        ensures
            outcome is Ok <==> is_storable(views_of(entries@)),
            outcome matches Ok(text) ==> text@ == entries_text(views_of(entries@))
                && stored_entries(text@) == Some(views_of(entries@)),
            outcome matches Err(error) ==> error == JournalError::StorageWrite,
    {
        let document = entries_to_json(entries);
        proof {
            lemma_entries_exact(views_of(entries@));
            lemma_line(json_text(entries_document(views_of(entries@))));
        }
        line_from(json::print(&document), JournalError::StorageWrite)
    }
}

/// A journal kept in a file does what [`Journal`] asks of every kind of
/// journal, with the file's text as the store.
impl Journal for FileJournal {
    open spec fn record_document(record: JournalRecord) -> JsonModel {
        record_document(record)
    }

    open spec fn document_record(document: JsonModel) -> Option<JournalRecord> {
        document_record(document)
    }

    open spec fn stored_entries(stored: Seq<char>) -> Option<Seq<EntryView>> {
        stored_entries(stored)
    }

    open spec fn entries_text(entries: Seq<EntryView>) -> Seq<char> {
        entries_text(entries)
    }

    open spec fn is_storable(entries: Seq<EntryView>) -> bool {
        is_storable(entries)
    }

    fn from_json(j: &Json) -> (outcome: Result<FileJournal, JournalError>) {
        let name = match text_at(j, "name") {
            Some(name) => String::from_str(name),
            None => return Err(JournalError::RegistryParse),
        };
        let path = match text_at(j, "location") {
            Some(path) => String::from_str(path),
            None => return Err(JournalError::RegistryParse),
        };
        let default = match flag_at(j, "default") {
            Some(default) => default,
            None => return Err(JournalError::RegistryParse),
        };
        Ok(FileJournal { name, path, default })
    }

    fn to_json(&self) -> (json: Json) {
        let mut members: Vec<(String, Json)> = Vec::new();
        members.push((String::from_str("name"), json::string(self.name.clone())));
        members.push((String::from_str("location"), json::string(self.path.clone())));
        members.push((String::from_str("type"), json::string(String::from_str("FileJournal"))));
        members.push((String::from_str("default"), json::boolean(self.default)));
        proof {
            lemma_record_keys();
        }
        let json = json::object(members);
        proof {
            let held = json_model(json)->Object_0;
            let wanted = record_document(self@)->Object_0;
            assert(members@[0].0@ == "name"@ && members@[1].0@ == "location"@);
            assert(members@[2].0@ == "type"@ && members@[3].0@ == "default"@);
            assert forall|key: Seq<char>| held.contains_key(key) <==> wanted.contains_key(
                key,
            ) by {
                if held.contains_key(key) {
                    let i = choose|i: int|
                        0 <= i < members.len() && (#[trigger] members@[i]).0@ == key;
                    assert(wanted.contains_key(members@[i].0@));
                }
            }
            assert(held =~= wanted);
        }
        json
    }

    fn set_default(&mut self) {
        self.default = true
    }

    fn is_default(&self) -> (default: bool) {
        self.default
    }

    fn name(&self) -> (name: &String) {
        &self.name
    }

    fn entries(&self, stored: &str) -> (outcome: Result<Vec<Box<Entry>>, JournalError>) {
        if stored.is_empty() {
            let entries: Vec<Box<Entry>> = Vec::new();
            assert(views_of(entries@) =~= Seq::<EntryView>::empty());
            Ok(entries)
        } else {
            let text = strip_line_break(stored);
            if !fits(text) {
                Err(JournalError::StorageRead)
            } else {
                match json::parse(text) {
                    Ok(document) => entries_from_json(&document),
                    Err(_) => Err(JournalError::StorageRead),
                }
            }
        }
    }

    fn upsert_entry(&self, stored: &str, entry: Entry) -> (outcome: Result<String, JournalError>) {
        let mut entries = match self.entries(stored) {
            Ok(entries) => entries,
            Err(error) => return Err(error),
        };
        upsert(&mut entries, entry);
        self.save_entries(&entries)
    }

    fn remove_entries(&self, stored: &str, ids: &Vec<u128>) -> (outcome: Result<
        String,
        JournalError,
    >) {
        let entries = match self.entries(stored) {
            Ok(entries) => entries,
            Err(error) => return Err(error),
        };
        self.save_entries(&remove(entries, ids))
    }

    fn undo_last_entry(&self, stored: &str) -> (outcome: Result<Option<String>, JournalError>) {
        let entries = match self.entries(stored) {
            Ok(entries) => entries,
            Err(error) => return Err(error),
        };
        if entries.len() == 0 {
            Ok(None)
        } else {
            match self.save_entries(&undo_last(entries)) {
                Ok(text) => Ok(Some(text)),
                Err(error) => Err(error),
            }
        }
    }
}

impl PartialEq for FileJournal {
    fn eq(&self, other: &FileJournal) -> (equal: bool) {
        self.path == other.path
    }
}

impl PartialEqSpecImpl for FileJournal {
    open spec fn obeys_eq_spec() -> bool {
        true
    }

    open spec fn eq_spec(&self, other: &FileJournal) -> bool {
        self@.location == other@.location
    }
}

/// The four keys of a journal's object differ from one another.
pub proof fn lemma_record_keys()
    ensures
        "name"@ != "location"@,
        "name"@ != "type"@,
        "name"@ != "default"@,
        "location"@ != "type"@,
        "location"@ != "default"@,
        "type"@ != "default"@,
{
    reveal_strlit("name");
    reveal_strlit("location");
    reveal_strlit("type");
    reveal_strlit("default");
    assert("name"@.len() == 4);
    assert("location"@.len() == 8);
    assert("type"@.len() == 4);
    assert("default"@.len() == 7);
    assert("name"@[0] != "type"@[0]);
}

} // verus!
