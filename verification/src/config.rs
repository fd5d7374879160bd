//! The registry: the journals that the user keeps, in the order in which
//! they were added, and the rule that picks one of them by name.

use crate::codec::lemma_line;
use crate::codec::line_from;
use crate::codec::member;
use crate::codec::text_at;
use crate::codec::text_member;
use crate::error::JournalError;
use crate::file_journal::document_record;
use crate::file_journal::lemma_record_keys;
use crate::file_journal::record_document;
use crate::file_journal::FileJournal;
use crate::journal::Journal;
use crate::journal::JournalRecord;
use crate::json;
use crate::json::json_model;
use crate::json::is_exact;
use crate::json::json_parsed;
use crate::json::json_text;
use crate::json::JsonModel;
use crate::scan::fits;
use crate::scan::is_parsable;
use crate::scan::MAX_DEPTH;
use crate::search::first_index;
use crate::search::lemma_filter_keeps_all;
use crate::search::lemma_first_index;
use crate::search::lemma_first_index_unique;
use crate::text::same_text;
use crate::text::strip_line_break;
use crate::text::trim;
use crate::text::trimmed;
use crate::text::without_line_break;
use rustc_serialize::json::Json;
use vstd::prelude::*;
use vstd::std_specs::cmp::PartialEqSpecImpl;
use vstd::string::StringExecFns;

verus! {

/// The records of the given journals, in their order.
pub open spec fn records_of(journals: Seq<Box<FileJournal>>) -> Seq<JournalRecord> {
    Seq::new(journals.len(), |i: int| journals[i]@)
}

/// The condition that a journal has the given name.
pub open spec fn is_named(name: Seq<char>) -> spec_fn(JournalRecord) -> bool {
    |record: JournalRecord| record.name == name
}

/// The condition that a journal is marked as the default.
pub open spec fn is_marked_default() -> spec_fn(JournalRecord) -> bool {
    |record: JournalRecord| record.is_default
}

/// Where the journal stands that a name picks: the first journal of that
/// name, or for the empty name the first journal that is marked as the
/// default; nowhere if there is no such journal.
pub open spec fn resolved(records: Seq<JournalRecord>, name: Seq<char>) -> Option<int> {
    let at = if name.len() == 0 {
        first_index(records, is_marked_default())
    } else {
        first_index(records, is_named(name))
    };
    if at < records.len() {
        Some(at as int)
    } else {
        None
    }
}

/// Whether a JSON value of the registry stands for a journal kept in a file.
pub open spec fn is_file_journal(document: JsonModel) -> bool {
    text_member(document, "type"@) == Some("FileJournal"@)
}

/// Whether a JSON value of the registry can be read: it says of what kind it
/// is, and where that is a journal kept in a file, it stands for one.
pub open spec fn is_readable(document: JsonModel) -> bool {
    text_member(document, "type"@) is Some && (is_file_journal(document) ==> document_record(
        document,
    ) is Some)
}

/// The journals kept in files among the given JSON values, in their order.
pub open spec fn file_journals_of(items: Seq<JsonModel>) -> Seq<JournalRecord> {
    items.filter(|item: JsonModel| is_file_journal(item)).map_values(
        |item: JsonModel| document_record(item)->0,
    )
}

/// The journals that a JSON value stands for, if it stands for a registry:
/// an object whose member `journals` is an array of values that can be read.
/// Values of another kind than a journal kept in a file are passed over.
pub open spec fn document_registry(document: JsonModel) -> Option<Seq<JournalRecord>> {
    match member(document, "journals"@) {
        Some(JsonModel::Array(items)) => if forall|i: int|
            0 <= i < items.len() ==> is_readable(#[trigger] items[i]) {
            Some(file_journals_of(items))
        } else {
            None
        },
        _ => None,
    }
}

/// The JSON object that stands for a registry.
pub open spec fn registry_document(records: Seq<JournalRecord>) -> JsonModel {
    JsonModel::Object(
        map![
            "journals"@ => JsonModel::Array(
                Seq::new(records.len(), |i: int| record_document(records[i])),
            ),
        ],
    )
}

/// The journals that the text of the registry's file stands for: none for
/// an empty file, else those of the JSON value that the text spells, on a
/// line or without a line break. A text beyond the limits of the parser
/// stands for nothing.
pub open spec fn stored_registry(stored: Seq<char>) -> Option<Seq<JournalRecord>> {
    if stored.len() == 0 {
        Some(Seq::empty())
    } else if !is_parsable(without_line_break(stored)) {
        None
    } else {
        match json_parsed(without_line_break(stored)) {
            Some(document) => document_registry(document),
            None => None,
        }
    }
}

/// The text that the registry's file holds for the given journals: their
/// JSON object on one line.
pub open spec fn registry_text(records: Seq<JournalRecord>) -> Seq<char> {
    json_text(registry_document(records)) + "\n"@
}

/// Whether the JSON object of the given journals is printed as a text that
/// the parser can be given again.
pub open spec fn is_storable(records: Seq<JournalRecord>) -> bool {
    is_parsable(json_text(registry_document(records)))
}

/// The journals after one was added: the first journal of a registry
/// becomes the default.
pub open spec fn added(records: Seq<JournalRecord>, record: JournalRecord) -> Seq<JournalRecord> {
    records.push(
        JournalRecord { is_default: record.is_default || records.len() == 0, ..record },
    )
}

/// The journals that the user keeps.
#[derive(Debug)]
pub struct Config {
    pub file_journals: Vec<Box<FileJournal>>,
}

impl View for Config {
    type V = Seq<JournalRecord>;

    open spec fn view(&self) -> Seq<JournalRecord> {
        records_of(self.file_journals@)
    }
}

impl Config {
    /// The JSON object that stands for the registry.
    pub fn to_json(&self) -> (json: Json)
        ensures
            json_model(json) == registry_document(self@),
    {
        let mut items: Vec<Json> = Vec::new();
        let mut at: usize = 0;
        while at < self.file_journals.len()
            invariant
                at <= self.file_journals.len(),
                items.len() == at,
                forall|i: int|
                    0 <= i < at ==> json_model(#[trigger] items@[i]) == record_document(
                        self.file_journals@[i]@,
                    ),
            decreases self.file_journals.len() - at,
        {
            items.push(self.file_journals[at].to_json());
            at += 1;
        }
        let mut members: Vec<(String, Json)> = Vec::new();
        members.push((String::from_str("journals"), json::array(items)));
        let json = json::object(members);
        proof {
            let held = json_model(json)->Object_0;
            let wanted = registry_document(self@)->Object_0;
            assert(members@[0].0@ == "journals"@);
            assert(json::models_of(items@) =~= wanted["journals"@]->Array_0);
            assert forall|key: Seq<char>| held.contains_key(key) <==> wanted.contains_key(
                key,
            ) by {
                if held.contains_key(key) {
                    let i = choose|i: int|
                        0 <= i < members.len() && (#[trigger] members@[i]).0@ == key;
                    assert(wanted.contains_key(members@[i].0@));
                }
            }
            assert(held =~= wanted);
        }
        json
    }

    /// The registry that a JSON value stands for; `RegistryParse` where it
    /// stands for none.
    pub fn from_json(config: Json) -> (outcome: Result<Config, JournalError>)
        ensures
            outcome is Ok <==> document_registry(json_model(config)) is Some,
            outcome matches Ok(registry) ==> Some(registry@) == document_registry(
                json_model(config),
            ),
            outcome matches Err(error) ==> error == JournalError::RegistryParse,
    {
        let journals = match json::find(&config, "journals") {
            Some(journals) => journals,
            None => return Err(JournalError::RegistryParse),
        };
        let items = match json::as_array(journals) {
            Some(items) => items,
            None => return Err(JournalError::RegistryParse),
        };
        let ghost held = json_model(*journals)->Array_0;
        let mut file_journals: Vec<Box<FileJournal>> = Vec::new();
        let mut at: usize = 0;
        assert(held.take(0) =~= Seq::<JsonModel>::empty());
        assert(file_journals_of(held.take(0)) =~= Seq::<JournalRecord>::empty()) by {
            reveal(Seq::filter);
        }
        assert(records_of(file_journals@) =~= Seq::<JournalRecord>::empty());
        while at < items.len()
            invariant
                at <= items.len(),
                member(json_model(config), "journals"@) == Some(JsonModel::Array(held)),
                json::models_of(items@) == held,
                forall|i: int| 0 <= i < at ==> is_readable(#[trigger] held[i]),
                records_of(file_journals@) == file_journals_of(held.take(at as int)),
            decreases items.len() - at,
        {
            let item = &items[at];
            assert(held[at as int] == json_model(*item));
            let kind = match text_at(item, "type") {
                Some(kind) => kind,
                None => {
                    assert(!is_readable(held[at as int]));
                    return Err(JournalError::RegistryParse);
                },
            };
            proof {
                let seen = held.take(at as int);
                seen.lemma_filter_push(held[at as int], |item: JsonModel| is_file_journal(item));
                assert(held.take(at + 1) =~= seen.push(held[at as int]));
            }
            if same_text(kind, "FileJournal") {
                match FileJournal::from_json(item) {
                    Ok(journal) => {
                        let ghost before = file_journals@;
                        file_journals.push(Box::new(journal));
                        assert(records_of(file_journals@) =~= records_of(before).push(journal@));
                        assert(file_journals_of(held.take(at + 1)) =~= file_journals_of(
                            held.take(at as int),
                        ).push(journal@));
                    },
                    Err(_) => {
                        assert(!is_readable(held[at as int]));
                        return Err(JournalError::RegistryParse);
                    },
                }
            }
            at += 1;
        }
        assert(held.take(at as int) =~= held);
        Ok(Config { file_journals })
    }

    /// The registry that the text of its file stands for; `RegistryParse`
    /// where it stands for none.
    pub fn load(stored: &str) -> (outcome: Result<Config, JournalError>)
        ensures
            outcome is Ok <==> stored_registry(stored@) is Some,
            outcome matches Ok(registry) ==> Some(registry@) == stored_registry(stored@),
            outcome matches Err(error) ==> error == JournalError::RegistryParse,
    {
        if stored.is_empty() {
            let registry = Config { file_journals: Vec::new() };
            assert(registry@ =~= Seq::<JournalRecord>::empty());
            Ok(registry)
        } else {
            let text = strip_line_break(stored);
            if !fits(text) {
                Err(JournalError::RegistryParse)
            } else {
                match json::parse(text) {
                    Ok(document) => Config::from_json(document),
                    Err(_) => Err(JournalError::RegistryParse),
                }
            }
        }
    }

    /// The text that the registry's file is to hold. It stands for this
    /// registry and no other: the journals are read back from it as they
    /// are. `RegistryWrite` where the text would be beyond the limits of
    /// the parser.
    pub fn save(&self) -> (outcome: Result<String, JournalError>)
        ensures
            outcome is Ok <==> is_storable(self@),
            outcome matches Ok(text) ==> text@ == registry_text(self@) && stored_registry(text@)
                == Some(self@),
            outcome matches Err(error) ==> error == JournalError::RegistryWrite,
    {
        let document = self.to_json();
        proof {
            lemma_registry_exact(self@);
            lemma_registry_round_trip(self@);
            lemma_line(json_text(registry_document(self@)));
        }
        line_from(json::print(&document), JournalError::RegistryWrite)
    }

    /// Whether what the user typed picks the kind of journal that is kept in
    /// a file.
    pub fn selects_file_journal(typed: &str) -> (selected: bool)
        ensures
            selected == (trimmed(typed@) == "1"@),
    {
        same_text(trim(typed), "1")
    }

    /// Adds a journal. The first journal of a registry becomes the default.
    pub fn add_journal(&mut self, journal: FileJournal)
        ensures
            final(self)@ == added(old(self)@, journal@),
    {
        let mut journal = journal;
        if self.file_journals.len() == 0 {
            journal.set_default();
        }
        let ghost before = self.file_journals@;
        self.file_journals.push(Box::new(journal));
        assert(records_of(self.file_journals@) =~= records_of(before).push(journal@));
    }

    /// Where the journal stands that a name picks.
    pub fn position_with_name_or_default(&self, name: &str) -> (position: Option<usize>)
        ensures
            position is Some <==> resolved(self@, name@) is Some,
            position matches Some(at) ==> at == resolved(self@, name@)->0 && at
                < self.file_journals.len(),
    {
        let by_default = name.is_empty();
        let wanted_name = String::from_str(name);
        let mut at: usize = 0;
        while at < self.file_journals.len()
            invariant
                at <= self.file_journals.len(),
                by_default == (name@.len() == 0),
                wanted_name@ == name@,
                by_default ==> forall|i: int|
                    0 <= i < at ==> !is_marked_default()(#[trigger] self@[i]),
                !by_default ==> forall|i: int|
                    0 <= i < at ==> !is_named(name@)(#[trigger] self@[i]),
            decreases self.file_journals.len() - at,
        {
            let journal = &self.file_journals[at];
            let wanted = if by_default {
                journal.is_default()
            } else {
                *journal.name() == wanted_name
            };
            if wanted {
                proof {
                    if by_default {
                        lemma_first_index_unique(self@, is_marked_default(), at as int);
                    } else {
                        lemma_first_index_unique(self@, is_named(name@), at as int);
                    }
                }
                return Some(at);
            }
            at += 1;
        }
        proof {
            if by_default {
                lemma_first_index_unique(self@, is_marked_default(), at as int);
            } else {
                lemma_first_index_unique(self@, is_named(name@), at as int);
            }
        }
        None
    }

    /// The journal that a name picks: the first journal of that name, or for
    /// the empty name the first journal that is marked as the default.
    pub fn file_journal_with_name_or_default(&self, name: &str) -> (journal: Option<
        &Box<FileJournal>,
    >)
        ensures
            journal is Some <==> resolved(self@, name@) is Some,
            journal matches Some(found) ==> *found == self.file_journals@[resolved(
                self@,
                name@,
            )->0],
    {
        match self.position_with_name_or_default(name) {
            Some(at) => Some(&self.file_journals[at]),
            None => None,
        }
    }
}

/// Whether two lists of journals agree as far as both reach: journal by
/// journal, the two are kept at the same place.
pub open spec fn agree(left: Seq<JournalRecord>, right: Seq<JournalRecord>) -> bool {
    forall|i: int|
        0 <= i < left.len() && i < right.len() ==> (#[trigger] left[i]).location == (
        #[trigger] right[i]).location
}

impl PartialEq for Config {
    fn eq(&self, other: &Config) -> (equal: bool) {
        let mut at: usize = 0;
        while at < self.file_journals.len() && at < other.file_journals.len()
            invariant
                forall|i: int| 0 <= i < at ==> (#[trigger] self@[i]).location == (
                #[trigger] other@[i]).location,
            decreases self.file_journals.len() - at,
        {
            let left: &FileJournal = &self.file_journals[at];
            let right: &FileJournal = &other.file_journals[at];
            if !left.eq(right) {
                assert(self@[at as int].location != other@[at as int].location);
                return false;
            }
            at += 1;
        }
        true
    }
}

impl PartialEqSpecImpl for Config {
    open spec fn obeys_eq_spec() -> bool {
        true
    }

    open spec fn eq_spec(&self, other: &Config) -> bool {
        agree(self@, other@)
    }
}

/// The object that stands for a registry stands for the same journals, in
/// the same order.
pub proof fn lemma_registry_round_trip(records: Seq<JournalRecord>)
    ensures
        document_registry(registry_document(records)) == Some(records),
{
    lemma_record_keys();
    let items = registry_document(records)->Object_0["journals"@]->Array_0;
    let wanted = |item: JsonModel| is_file_journal(item);
    assert forall|i: int| 0 <= i < items.len() implies is_file_journal(#[trigger] items[i])
        && document_record(items[i]) == Some(records[i]) by {
        let item = record_document(records[i]);
        assert(member(item, "name"@) == Some(JsonModel::String(records[i].name)));
        assert(member(item, "location"@) == Some(JsonModel::String(records[i].location)));
        assert(member(item, "type"@) == Some(JsonModel::String("FileJournal"@)));
        assert(member(item, "default"@) == Some(JsonModel::Boolean(records[i].is_default)));
    }
    lemma_filter_keeps_all(items, wanted);
    assert(file_journals_of(items) =~= records);
}

/// The JSON object of a registry holds strings and truth values alone,
/// with three arrays and objects inside one another: the object, the array
/// of its journals, and the object of each.
pub proof fn lemma_registry_exact(records: Seq<JournalRecord>)
    ensures
        is_exact(registry_document(records), MAX_DEPTH as nat),
{
    lemma_record_keys();
    let members = registry_document(records)->Object_0;
    assert forall|key: Seq<char>| members.contains_key(key) implies is_exact(
        #[trigger] members[key],
        (MAX_DEPTH - 1) as nat,
    ) by {
        let items = members["journals"@]->Array_0;
        assert forall|i: int| 0 <= i < items.len() implies is_exact(
            #[trigger] items[i],
            (MAX_DEPTH - 2) as nat,
        ) by {
            let held = record_document(records[i])->Object_0;
            assert forall|name: Seq<char>| held.contains_key(name) implies is_exact(
                #[trigger] held[name],
                (MAX_DEPTH - 3) as nat,
            ) by {}
        }
        assert(is_exact(members["journals"@], (MAX_DEPTH - 1) as nat));
    }
}

/// A name that is not empty picks the first journal of that name, whatever
/// is marked as the default; the empty name picks the first journal that is
/// marked. Nothing is picked where no journal is of that name, or none is
/// marked: so from a registry without journals nothing is ever picked.
pub proof fn lemma_resolved(records: Seq<JournalRecord>, name: Seq<char>)
    ensures
        records.len() == 0 ==> resolved(records, name) is None,
        resolved(records, name) matches Some(at) ==> {
            &&& 0 <= at < records.len()
            &&& name.len() > 0 ==> records[at].name == name
            &&& name.len() == 0 ==> records[at].is_default
            &&& forall|i: int|
                0 <= i < at ==> if name.len() > 0 {
                    (#[trigger] records[i]).name != name
                } else {
                    !records[i].is_default
                }
        },
        resolved(records, name) is None ==> forall|i: int|
            0 <= i < records.len() ==> if name.len() > 0 {
                (#[trigger] records[i]).name != name
            } else {
                !records[i].is_default
            },
{
    lemma_first_index(records, is_marked_default());
    lemma_first_index(records, is_named(name));
}

} // verus!
