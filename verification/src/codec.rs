//! Entries as JSON: the object that stands for one entry in a journal's
//! file, and the array that stands for a journal.

use crate::clock;
use crate::clock::is_instant;
use crate::clock::rfc3339_normal;
use crate::entry::is_valid;
use crate::entry::lemma_entry_keys;
use crate::entry::Entry;
use crate::entry::EntryView;
use crate::error::JournalError;
use crate::ident;
use crate::ident::uuid_parsed;
use crate::ident::uuid_text;
use crate::journal::views_of;
use crate::scan::fits;
use crate::scan::is_parsable;
use crate::scan::MAX_DEPTH;
use crate::text::without_line_break;
use crate::json;
use crate::json::json_model;
use crate::json::is_exact;
use crate::json::JsonModel;
use rustc_serialize::json::EncoderError;
use rustc_serialize::json::Json;
use vstd::prelude::*;
use vstd::string::StringExecFns;

verus! {

/// The JSON strings with the given texts, in their order.
pub open spec fn strings_of(texts: Seq<Seq<char>>) -> Seq<JsonModel> {
    Seq::new(texts.len(), |i: int| JsonModel::String(texts[i]))
}

/// The JSON value for a title: its text, or `null` where there is none.
pub open spec fn title_document(title: Option<Seq<char>>) -> JsonModel {
    match title {
        Some(text) => JsonModel::String(text),
        None => JsonModel::Null,
    }
}

/// The JSON object that stands for an entry.
pub open spec fn entry_document(entry: EntryView) -> JsonModel {
    JsonModel::Object(
        map![
            "id"@ => JsonModel::String(uuid_text(entry.id)),
            "title"@ => title_document(entry.title),
            "content"@ => JsonModel::String(entry.content),
            "updated_at"@ => JsonModel::String(entry.updated_at),
            "created_at"@ => JsonModel::String(entry.created_at),
            "starred"@ => JsonModel::Boolean(entry.starred),
            "tags"@ => JsonModel::Array(strings_of(entry.tags)),
        ],
    )
}

/// The JSON array that stands for the entries of a journal.
pub open spec fn entries_document(entries: Seq<EntryView>) -> JsonModel {
    JsonModel::Array(Seq::new(entries.len(), |i: int| entry_document(entries[i])))
}

/// The member of an object under a key, if the value is an object that has
/// one there.
pub open spec fn member(document: JsonModel, key: Seq<char>) -> Option<JsonModel> {
    match document {
        JsonModel::Object(members) => if members.contains_key(key) {
            Some(members[key])
        } else {
            None
        },
        _ => None,
    }
}

/// The text of the string that an object holds under a key.
pub open spec fn text_member(document: JsonModel, key: Seq<char>) -> Option<Seq<char>> {
    match member(document, key) {
        Some(JsonModel::String(text)) => Some(text),
        _ => None,
    }
}

/// The truth value of the boolean that an object holds under a key.
pub open spec fn flag_member(document: JsonModel, key: Seq<char>) -> Option<bool> {
    match member(document, key) {
        Some(JsonModel::Boolean(flag)) => Some(flag),
        _ => None,
    }
}

/// The texts of an array that holds strings only.
pub open spec fn texts_of(document: JsonModel) -> Option<Seq<Seq<char>>> {
    match document {
        JsonModel::Array(items) => if forall|i: int|
            0 <= i < items.len() ==> (#[trigger] items[i]) is String {
            Some(Seq::new(items.len(), |i: int| items[i]->String_0))
        } else {
            None
        },
        _ => None,
    }
}

/// The title that an object holds: none where the member is missing or
/// `null`, the text of a string, and no reading of any other value.
pub open spec fn title_member(document: JsonModel) -> Option<Option<Seq<char>>> {
    match member(document, "title"@) {
        None => Some(None),
        Some(JsonModel::Null) => Some(None),
        Some(JsonModel::String(text)) => Some(Some(text)),
        _ => None,
    }
}

/// The tags that an object holds under `tags`.
pub open spec fn tags_member(document: JsonModel) -> Option<Seq<Seq<char>>> {
    match member(document, "tags"@) {
        Some(tags) => texts_of(tags),
        None => None,
    }
}

/// The instant that an object holds under a key, as `chrono` prints it.
pub open spec fn instant_member(document: JsonModel, key: Seq<char>) -> Option<Seq<char>> {
    match text_member(document, key) {
        Some(text) => rfc3339_normal(text),
        None => None,
    }
}

/// The identifier that an object holds under `id`.
pub open spec fn id_member(document: JsonModel) -> Option<u128> {
    match text_member(document, "id"@) {
        Some(text) => uuid_parsed(text),
        None => None,
    }
}

/// The entry that a JSON value stands for, if it stands for one: an object
/// with an identifier, a content that is not empty, the two instants, the
/// star and the tags, and with a title or none.
pub open spec fn document_entry(document: JsonModel) -> Option<EntryView> {
    if id_member(document) is Some && title_member(document) is Some && text_member(
        document,
        "content"@,
    ) is Some && text_member(document, "content"@)->0.len() > 0 && instant_member(
        document,
        "updated_at"@,
    ) is Some && instant_member(document, "created_at"@) is Some && flag_member(
        document,
        "starred"@,
    ) is Some && tags_member(document) is Some {
        Some(
            EntryView {
                id: id_member(document)->0,
                title: title_member(document)->0,
                content: text_member(document, "content"@)->0,
                updated_at: instant_member(document, "updated_at"@)->0,
                created_at: instant_member(document, "created_at"@)->0,
                starred: flag_member(document, "starred"@)->0,
                tags: tags_member(document)->0,
            },
        )
    } else {
        None
    }
}

/// The entries that a JSON value stands for, if it stands for a journal: an
/// array whose items all stand for entries.
pub open spec fn document_entries(document: JsonModel) -> Option<Seq<EntryView>> {
    match document {
        JsonModel::Array(items) => if forall|i: int|
            0 <= i < items.len() ==> document_entry(#[trigger] items[i]) is Some {
            Some(Seq::new(items.len(), |i: int| document_entry(items[i])->0))
        } else {
            None
        },
        _ => None,
    }
}

/// The text of the string that an object holds under a key.
pub fn text_at<'a>(json: &'a Json, key: &str) -> (text: Option<&'a str>)
    ensures
        text is Some <==> text_member(json_model(*json), key@) is Some,
        text matches Some(found) ==> Some(found@) == text_member(json_model(*json), key@),
{
    match json::find(json, key) {
        Some(held) => json::as_string(held),
        None => None,
    }
}

/// The truth value of the boolean that an object holds under a key.
pub fn flag_at(json: &Json, key: &str) -> (flag: Option<bool>)
    ensures
        flag == flag_member(json_model(*json), key@),
{
    match json::find(json, key) {
        Some(held) => json::as_boolean(held),
        None => None,
    }
}

/// The texts of an array that holds strings only.
pub fn texts_in(json: &Json) -> (texts: Option<Vec<String>>)
    ensures
        texts.deep_view() == texts_of(json_model(*json)),
{
    match json::as_array(json) {
        Some(items) => {
            let ghost held = json_model(*json)->Array_0;
            let mut texts: Vec<String> = Vec::new();
            let mut at: usize = 0;
            while at < items.len()
                invariant
                    at <= items.len(),
                    json_model(*json) == JsonModel::Array(held),
                    json::models_of(items@) == held,
                    texts.len() == at,
                    forall|i: int| 0 <= i < at ==> (#[trigger] held[i]) is String,
                    forall|i: int| 0 <= i < at ==> (#[trigger] texts@[i])@ == held[i]->String_0,
                decreases items.len() - at,
            {
                assert(held[at as int] == json_model(items@[at as int]));
                match json::as_string(&items[at]) {
                    Some(text) => {
                        texts.push(String::from_str(text));
                    },
                    None => {
                        assert(!(held[at as int] is String));
                        return None;
                    },
                }
                at += 1;
            }
            assert(texts.deep_view() =~= texts_of(json_model(*json))->0);
            Some(texts)
        },
        None => None,
    }
}

/// The tags that an object holds under `tags`.
pub fn tags_in(json: &Json) -> (tags: Option<Vec<String>>)
    ensures
        tags.deep_view() == tags_member(json_model(*json)),
{
    match json::find(json, "tags") {
        Some(held) => texts_in(held),
        None => None,
    }
}

/// The title that an object holds: none where the member is missing or
/// `null`, the text of a string, and no reading of any other value.
pub fn title_in(json: &Json) -> (title: Option<Option<String>>)
    ensures
        title.deep_view() == title_member(json_model(*json)),
{
    match json::find(json, "title") {
        None => Some(None),
        Some(held) => {
            if json::is_null(held) {
                Some(None)
            } else {
                match json::as_string(held) {
                    Some(text) => Some(Some(String::from_str(text))),
                    None => None,
                }
            }
        },
    }
}

/// The identifier that an object holds under `id`.
pub fn id_in(json: &Json) -> (id: Option<u128>)
    ensures
        id == id_member(json_model(*json)),
{
    match text_at(json, "id") {
        Some(text) => match ident::parse(text) {
            Ok(id) => Some(id),
            Err(_) => None,
        },
        None => None,
    }
}

/// The instant that an object holds under a key, as `chrono` prints it.
pub fn instant_at(json: &Json, key: &str) -> (instant: Option<String>)
    ensures
        instant.deep_view() == instant_member(json_model(*json), key@),
        instant matches Some(normal) ==> is_instant(normal@),
{
    match text_at(json, key) {
        Some(text) => match clock::normalize(text) {
            Ok(normal) => Some(normal),
            Err(_) => None,
        },
        None => None,
    }
}

/// The JSON array of the given texts.
pub fn texts_to_json(texts: &Vec<String>) -> (json: Json)
    ensures
        json_model(json) == JsonModel::Array(strings_of(texts.deep_view())),
{
    let mut items: Vec<Json> = Vec::new();
    let mut at: usize = 0;
    while at < texts.len()
        invariant
            at <= texts.len(),
            items.len() == at,
            forall|i: int|
                0 <= i < at ==> json_model(#[trigger] items@[i]) == JsonModel::String(texts@[i]@),
        decreases texts.len() - at,
    {
        items.push(json::string(texts[at].clone()));
        at += 1;
    }
    assert(json::models_of(items@) =~= strings_of(texts.deep_view()));
    json::array(items)
}

/// The JSON value for a title.
pub fn title_to_json(title: &Option<String>) -> (json: Json)
    ensures
        json_model(json) == title_document(title.deep_view()),
{
    match title {
        Some(text) => json::string(text.clone()),
        None => json::null(),
    }
}

/// The JSON array that stands for the entries of a journal, and for no
/// others: it is read back as the same entries in the same order.
pub fn entries_to_json(entries: &Vec<Box<Entry>>) -> (json: Json)
    ensures
        json_model(json) == entries_document(views_of(entries@)),
        document_entries(json_model(json)) == Some(views_of(entries@)),
{
    let mut items: Vec<Json> = Vec::new();
    let mut at: usize = 0;
    while at < entries.len()
        invariant
            at <= entries.len(),
            items.len() == at,
            forall|i: int|
                0 <= i < at ==> json_model(#[trigger] items@[i]) == entry_document(entries@[i]@),
            forall|i: int|
                0 <= i < at ==> document_entry(entry_document((#[trigger] entries@[i])@)) == Some(
                    entries@[i]@,
                ),
        decreases entries.len() - at,
    {
        items.push(entries[at].to_json());
        at += 1;
    }
    assert(json::models_of(items@) =~= entries_document(views_of(entries@))->Array_0);
    proof {
        lemma_entries_round_trip(views_of(entries@));
    }
    json::array(items)
}

/// The entries that a JSON value stands for; `StorageRead` where it stands
/// for no journal.
pub fn entries_from_json(json: &Json) -> (outcome: Result<Vec<Box<Entry>>, JournalError>)
    ensures
        outcome is Ok <==> document_entries(json_model(*json)) is Some,
        outcome matches Ok(entries) ==> Some(views_of(entries@)) == document_entries(
            json_model(*json),
        ),
        outcome matches Err(error) ==> error == JournalError::StorageRead,
{
    match json::as_array(json) {
        Some(items) => {
            let ghost held = json_model(*json)->Array_0;
            let mut entries: Vec<Box<Entry>> = Vec::new();
            let mut at: usize = 0;
            while at < items.len()
                invariant
                    at <= items.len(),
                    json_model(*json) == JsonModel::Array(held),
                    json::models_of(items@) == held,
                    entries.len() == at,
                    forall|i: int| 0 <= i < at ==> document_entry(#[trigger] held[i]) is Some,
                    forall|i: int|
                        0 <= i < at ==> (#[trigger] entries@[i])@ == document_entry(held[i])->0,
                decreases items.len() - at,
            {
                assert(held[at as int] == json_model(items@[at as int]));
                match Entry::from_json(&items[at]) {
                    Ok(entry) => {
                        entries.push(Box::new(entry));
                    },
                    Err(_) => {
                        assert(document_entry(held[at as int]) is None);
                        return Err(JournalError::StorageRead);
                    },
                }
                at += 1;
            }
            assert(views_of(entries@) =~= document_entries(json_model(*json))->0);
            Ok(entries)
        },
        None => Err(JournalError::StorageRead),
    }
}

/// The object that stands for an entry stands for that entry and no other:
/// it is read back with the same identifier, title, content, instants, star
/// and tags, where `uuid` reads the identifier back from its text.
pub proof fn lemma_entry_round_trip(entry: EntryView)
    requires
        is_valid(entry),
        uuid_parsed(uuid_text(entry.id)) == Some(entry.id),
    ensures
        document_entry(entry_document(entry)) == Some(entry),
{
    lemma_entry_keys();
    let document = entry_document(entry);
    assert(member(document, "id"@) == Some(JsonModel::String(uuid_text(entry.id))));
    assert(member(document, "title"@) == Some(title_document(entry.title)));
    assert(member(document, "content"@) == Some(JsonModel::String(entry.content)));
    assert(member(document, "updated_at"@) == Some(JsonModel::String(entry.updated_at)));
    assert(member(document, "created_at"@) == Some(JsonModel::String(entry.created_at)));
    assert(member(document, "starred"@) == Some(JsonModel::Boolean(entry.starred)));
    assert(member(document, "tags"@) == Some(JsonModel::Array(strings_of(entry.tags))));
    assert(texts_of(JsonModel::Array(strings_of(entry.tags)))->0 =~= entry.tags);
    assert(document_entry(document)->0 == entry);
}

/// An array whose items are read back as the given entries, one by one, is
/// read back as these entries in their order.
pub proof fn lemma_entries_round_trip(entries: Seq<EntryView>)
    requires
        forall|i: int|
            0 <= i < entries.len() ==> document_entry(entry_document(#[trigger] entries[i]))
                == Some(entries[i]),
    ensures
        document_entries(entries_document(entries)) == Some(entries),
{
    let items = entries_document(entries)->Array_0;
    assert forall|i: int| 0 <= i < items.len() implies document_entry(#[trigger] items[i])
        == Some(entries[i]) by {
        assert(items[i] == entry_document(entries[i]));
    }
    assert(document_entries(entries_document(entries))->0 =~= entries);
}

/// The line that a file is to hold, from what the encoder made of a JSON
/// value: its text and a line break. `failure` where it made no text, or
/// one beyond the limits of the parser, which could not be read again.
pub fn line_from(printed: Result<String, EncoderError>, failure: JournalError) -> (outcome: Result<
    String,
    JournalError,
>)
    ensures
        match printed {
            Ok(text) if is_parsable(text@) => outcome matches Ok(line) && line@ == text@ + "\n"@,
            _ => outcome == Err::<String, JournalError>(failure),
        },
{
    match printed {
        Ok(mut text) => {
            if fits(text.as_str()) {
                text.append("\n");
                Ok(text)
            } else {
                Err(failure)
            }
        },
        Err(_) => Err(failure),
    }
}

/// A line is the text before its line break.
pub proof fn lemma_line(text: Seq<char>)
    ensures
        (text + "\n"@).len() > 0,
        without_line_break(text + "\n"@) == text,
{
    reveal_strlit("\n");
    assert((text + "\n"@).drop_last() =~= text);
}

/// The JSON array of a journal's entries holds strings and truth values
/// alone, with three arrays and objects inside one another: the array, the
/// object of an entry, and its tags.
pub proof fn lemma_entries_exact(entries: Seq<EntryView>)
    ensures
        is_exact(entries_document(entries), MAX_DEPTH as nat),
{
    lemma_entry_keys();
    let items = entries_document(entries)->Array_0;
    assert forall|i: int| 0 <= i < items.len() implies is_exact(
        #[trigger] items[i],
        (MAX_DEPTH - 1) as nat,
    ) by {
        let entry = entries[i];
        let members = entry_document(entry)->Object_0;
        assert forall|key: Seq<char>| members.contains_key(key) implies is_exact(
            #[trigger] members[key],
            (MAX_DEPTH - 2) as nat,
        ) by {
            let tags = strings_of(entry.tags);
            assert forall|j: int| 0 <= j < tags.len() implies is_exact(
                #[trigger] tags[j],
                (MAX_DEPTH - 3) as nat,
            ) by {}
            assert(is_exact(JsonModel::Array(tags), (MAX_DEPTH - 2) as nat));
        }
    }
}

} // verus!
