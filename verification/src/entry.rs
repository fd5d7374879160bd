//! Entries, and the builder that makes one from what a user wrote.

use crate::clock;
use crate::clock::is_instant;
use crate::codec::lemma_entry_round_trip;
use crate::codec::document_entry;
use crate::codec::entry_document;
use crate::codec::flag_at;
use crate::codec::id_in;
use crate::codec::instant_at;
use crate::codec::tags_in;
use crate::codec::text_at;
use crate::codec::texts_to_json;
use crate::codec::title_in;
use crate::codec::title_to_json;
use crate::error::JournalError;
use crate::ident;
use crate::ident::is_random;
use crate::json;
use crate::json::json_model;
use crate::search::lemma_first_index;
use crate::text::is_divider;
use crate::text::is_starred;
use crate::text::strip_star;
use crate::text::title_from;
use crate::text::title_of;
use crate::text::without_star;
use rustc_serialize::json::Json;
use vstd::prelude::*;
use vstd::string::StringExecFns;

verus! {

/// Why an entry was not added to a journal.
#[derive(Clone, Copy, Debug, PartialEq, Eq, Structural)]
pub enum EntryError {
    UnsuccessfulAdd,
}

impl EntryError {
    /// The sentence that tells a user of the failure.
    pub open spec fn spec_description(self) -> Seq<char> {
        "Couldn't add entry - unsuccessful."@
    }

    /// The sentence that tells a user of the failure.
    pub fn description(&self) -> (text: String)
        ensures
            text@ == self.spec_description(),
    {
        String::from_str("Couldn't add entry - unsuccessful.")
    }
}

/// What an entry holds, and what a builder holds while the entry is made.
pub struct EntryView {
    /// The identifier, by its 128 bits.
    pub id: u128,
    pub title: Option<Seq<char>>,
    pub content: Seq<char>,
    /// When the entry was last changed, as RFC 3339 text.
    pub updated_at: Seq<char>,
    /// When the entry was made, as RFC 3339 text.
    pub created_at: Seq<char>,
    pub starred: bool,
    pub tags: Seq<Seq<char>>,
}

/// Whether a builder with this title takes its title from the next content.
pub open spec fn lacks_title(title: Option<Seq<char>>) -> bool {
    match title {
        None => true,
        Some(given) => given.len() == 0,
    }
}

/// A builder after it was given a content: a leading star is taken off and
/// marks the entry, and a builder that lacks a title takes the part of the
/// content before its first divider.
pub open spec fn with_content(before: EntryView, content: Seq<char>) -> EntryView {
    let kept = without_star(content);
    EntryView {
        content: kept,
        starred: before.starred || is_starred(content),
        title: if lacks_title(before.title) {
            Some(title_of(kept))
        } else {
            before.title
        },
        ..before
    }
}

/// What becomes of a builder when the entry is asked for: the entry, unless
/// its content is empty.
pub open spec fn finalized(builder: EntryView) -> Result<EntryView, JournalError> {
    if builder.content.len() > 0 {
        Ok(builder)
    } else {
        Err(JournalError::EmptyContent)
    }
}

/// Whether this can be what an entry holds: the content is not empty, and
/// the two instants are as `chrono` prints them.
pub open spec fn is_valid(entry: EntryView) -> bool {
    &&& entry.content.len() > 0
    &&& is_instant(entry.updated_at)
    &&& is_instant(entry.created_at)
}

/// One note of a journal. It does not change once it is made, its content is
/// never empty, and its instants are as `chrono` prints them.
#[derive(Debug)]
pub struct Entry {
    id: u128,
    title: Option<String>,
    content: String,
    updated_at: String,
    created_at: String,
    starred: bool,
    tags: Vec<String>,
}

impl View for Entry {
    type V = EntryView;

    closed spec fn view(&self) -> EntryView {
        EntryView {
            id: self.id,
            title: self.title.deep_view(),
            content: self.content@,
            updated_at: self.updated_at@,
            created_at: self.created_at@,
            starred: self.starred,
            tags: self.tags.deep_view(),
        }
    }
}

impl Clone for Entry {
    fn clone(&self) -> (copy: Entry)
        ensures
            copy@ == self@,
    {
        proof {
            use_type_invariant(self);
        }
        let title = match &self.title {
            Some(given) => Some(given.clone()),
            None => None,
        };
        Entry {
            id: self.id,
            title,
            content: self.content.clone(),
            updated_at: self.updated_at.clone(),
            created_at: self.created_at.clone(),
            starred: self.starred,
            tags: self.tags.clone(),
        }
    }
}

impl Entry {
    #[verifier::type_invariant]
    spec fn is_sound(self) -> bool {
        &&& self.content@.len() > 0
        &&& is_instant(self.updated_at@)
        &&& is_instant(self.created_at@)
    }

    /// Whether the entry is a favourite, and that it is valid as every entry.
    pub fn starred(&self) -> (starred: bool)
        ensures
            starred == self@.starred,
            is_valid(self@),
    {
        proof {
            use_type_invariant(self);
        }
        self.starred
    }

    /// The identifier of the entry.
    pub fn id(&self) -> (id: u128)
        ensures
            id == self@.id,
    {
        self.id
    }

    /// The title of the entry, if it has one.
    pub fn title(&self) -> (title: &Option<String>)
        ensures
            title.deep_view() == self@.title,
    {
        &self.title
    }

    /// The content of the entry, which is not empty.
    pub fn content(&self) -> (content: &String)
        ensures
            content@ == self@.content,
            content@.len() > 0,
    {
        proof {
            use_type_invariant(self);
        }
        &self.content
    }

    /// The tags of the entry.
    pub fn tags(&self) -> (tags: &Vec<String>)
        ensures
            tags.deep_view() == self@.tags,
    {
        &self.tags
    }

    /// When the entry was made, as `chrono` prints it.
    pub fn created_at(&self) -> (instant: &String)
        ensures
            instant@ == self@.created_at,
            is_instant(instant@),
    {
        proof {
            use_type_invariant(self);
        }
        &self.created_at
    }

    /// When the entry was last changed, as `chrono` prints it.
    pub fn updated_at(&self) -> (instant: &String)
        ensures
            instant@ == self@.updated_at,
            is_instant(instant@),
    {
        proof {
            use_type_invariant(self);
        }
        &self.updated_at
    }

    /// The JSON object that stands for the entry, and for no other: it is
    /// read back as the same entry.
    pub fn to_json(&self) -> (json: Json)
        ensures
            json_model(json) == entry_document(self@),
            document_entry(json_model(json)) == Some(self@),
    {
        proof {
            use_type_invariant(self);
        }
        let mut members: Vec<(String, Json)> = Vec::new();
        let id = ident::print(self.id);
        proof {
            lemma_entry_round_trip(self@);
        }
        members.push((String::from_str("id"), json::string(id)));
        members.push((String::from_str("title"), title_to_json(&self.title)));
        members.push((String::from_str("content"), json::string(self.content.clone())));
        members.push((String::from_str("updated_at"), json::string(self.updated_at.clone())));
        members.push((String::from_str("created_at"), json::string(self.created_at.clone())));
        members.push((String::from_str("starred"), json::boolean(self.starred)));
        members.push((String::from_str("tags"), texts_to_json(&self.tags)));
        proof {
            lemma_entry_keys();
        }
        let json = json::object(members);
        proof {
            let held = json_model(json)->Object_0;
            let wanted = entry_document(self@)->Object_0;
            assert(members@[0].0@ == "id"@ && members@[1].0@ == "title"@);
            assert(members@[2].0@ == "content"@ && members@[3].0@ == "updated_at"@);
            assert(members@[4].0@ == "created_at"@ && members@[5].0@ == "starred"@);
            assert(members@[6].0@ == "tags"@);
            assert forall|key: Seq<char>| held.contains_key(key) <==> wanted.contains_key(
                key,
            ) by {
                if held.contains_key(key) {
                    let i = choose|i: int|
                        0 <= i < members.len() && (#[trigger] members@[i]).0@ == key;
                    assert(wanted.contains_key(members@[i].0@));
                }
            }
            assert(held =~= wanted);
        }
        json
    }

    /// The entry that a JSON value stands for; `StorageRead` where it stands
    /// for none.
    pub fn from_json(json: &Json) -> (outcome: Result<Entry, JournalError>)
        ensures
            outcome is Ok <==> document_entry(json_model(*json)) is Some,
            outcome matches Ok(entry) ==> Some(entry@) == document_entry(json_model(*json)),
            outcome matches Err(error) ==> error == JournalError::StorageRead,
    {
        let id = match id_in(json) {
            Some(id) => id,
            None => return Err(JournalError::StorageRead),
        };
        let title = match title_in(json) {
            Some(title) => title,
            None => return Err(JournalError::StorageRead),
        };
        let content = match text_at(json, "content") {
            Some(content) => String::from_str(content),
            None => return Err(JournalError::StorageRead),
        };
        if content.as_str().is_empty() {
            return Err(JournalError::StorageRead);
        }
        let updated_at = match instant_at(json, "updated_at") {
            Some(instant) => instant,
            None => return Err(JournalError::StorageRead),
        };
        let created_at = match instant_at(json, "created_at") {
            Some(instant) => instant,
            None => return Err(JournalError::StorageRead),
        };
        let starred = match flag_at(json, "starred") {
            Some(starred) => starred,
            None => return Err(JournalError::StorageRead),
        };
        let tags = match tags_in(json) {
            Some(tags) => tags,
            None => return Err(JournalError::StorageRead),
        };
        Ok(Entry { id, title, content, updated_at, created_at, starred, tags })
    }
}

/// The seven keys of an entry's object differ from one another.
pub proof fn lemma_entry_keys()
    ensures
        "id"@ != "title"@,
        "id"@ != "content"@,
        "id"@ != "updated_at"@,
        "id"@ != "created_at"@,
        "id"@ != "starred"@,
        "id"@ != "tags"@,
        "title"@ != "content"@,
        "title"@ != "updated_at"@,
        "title"@ != "created_at"@,
        "title"@ != "starred"@,
        "title"@ != "tags"@,
        "content"@ != "updated_at"@,
        "content"@ != "created_at"@,
        "content"@ != "starred"@,
        "content"@ != "tags"@,
        "updated_at"@ != "created_at"@,
        "updated_at"@ != "starred"@,
        "updated_at"@ != "tags"@,
        "created_at"@ != "starred"@,
        "created_at"@ != "tags"@,
        "starred"@ != "tags"@,
{
    reveal_strlit("id");
    reveal_strlit("title");
    reveal_strlit("content");
    reveal_strlit("updated_at");
    reveal_strlit("created_at");
    reveal_strlit("starred");
    reveal_strlit("tags");
    assert("id"@.len() == 2);
    assert("title"@.len() == 5);
    assert("content"@.len() == 7);
    assert("updated_at"@.len() == 10);
    assert("created_at"@.len() == 10);
    assert("starred"@.len() == 7);
    assert("tags"@.len() == 4);
    assert("content"@[0] != "starred"@[0]);
    assert("updated_at"@[0] != "created_at"@[0]);
}

/// Makes an entry step by step.
pub struct EntryBuilder {
    id: u128,
    title: Option<String>,
    content: String,
    updated_at: String,
    created_at: String,
    starred: bool,
    tags: Vec<String>,
}

impl View for EntryBuilder {
    type V = EntryView;

    closed spec fn view(&self) -> EntryView {
        EntryView {
            id: self.id,
            title: self.title.deep_view(),
            content: self.content@,
            updated_at: self.updated_at@,
            created_at: self.created_at@,
            starred: self.starred,
            tags: self.tags.deep_view(),
        }
    }
}

impl Clone for EntryBuilder {
    fn clone(&self) -> (copy: EntryBuilder)
        ensures
            copy@ == self@,
    {
        proof {
            use_type_invariant(self);
        }
        let title = match &self.title {
            Some(given) => Some(given.clone()),
            None => None,
        };
        EntryBuilder {
            id: self.id,
            title,
            content: self.content.clone(),
            updated_at: self.updated_at.clone(),
            created_at: self.created_at.clone(),
            starred: self.starred,
            tags: self.tags.clone(),
        }
    }
}

impl EntryBuilder {
    #[verifier::type_invariant]
    spec fn is_sound(self) -> bool {
        &&& is_instant(self.updated_at@)
        &&& is_instant(self.created_at@)
    }

    /// A builder with a fresh identifier, drawn at random, and the current
    /// instant, with no title, an empty content, no star and no tags.
    pub fn new() -> (builder: EntryBuilder)
        ensures
            is_random(builder@.id),
            is_instant(builder@.created_at),
            builder@.title is None,
            builder@.content == Seq::<char>::empty(),
            builder@.updated_at == builder@.created_at,
            !builder@.starred,
            builder@.tags == Seq::<Seq<char>>::empty(),
    {
        let created_at = clock::now();
        let builder = EntryBuilder {
            id: ident::fresh(),
            title: None,
            content: String::new(),
            updated_at: created_at.clone(),
            created_at,
            starred: false,
            tags: Vec::new(),
        };
        assert(builder.tags.deep_view() =~= Seq::<Seq<char>>::empty());
        builder
    }

    /// Gives the entry this identifier.
    pub fn id(&mut self, id: u128) -> (builder: &mut EntryBuilder)
        ensures
            builder@ == (EntryView { id, ..old(self)@ }),
            *final(self) == *final(builder),
    {
        proof {
            use_type_invariant(&*self);
        }
        self.id = id;
        self
    }

    /// Gives the entry this title.
    pub fn title(&mut self, title: String) -> (builder: &mut EntryBuilder)
        ensures
            builder@ == (EntryView { title: Some(title@), ..old(self)@ }),
            *final(self) == *final(builder),
    {
        proof {
            use_type_invariant(&*self);
        }
        self.title = Some(title);
        self
    }

    /// Gives the entry this content.
    pub fn content(&mut self, content: String) -> (builder: &mut EntryBuilder)
        ensures
            builder@ == with_content(old(self)@, content@),
            *final(self) == *final(builder),
    {
        proof {
            use_type_invariant(&*self);
        }
        let (star, kept) = strip_star(content);
        if star {
            self.starred = true;
        }
        self.content = kept;
        let derive = match &self.title {
            None => true,
            Some(given) => given.as_str().is_empty(),
        };
        if derive {
            self.title = Some(title_from(self.content.as_str()));
        }
        self
    }

    /// Says whether the entry is a favourite.
    pub fn starred(&mut self, state: bool) -> (builder: &mut EntryBuilder)
        ensures
            builder@ == (EntryView { starred: state, ..old(self)@ }),
            *final(self) == *final(builder),
    {
        proof {
            use_type_invariant(&*self);
        }
        self.starred = state;
        self
    }

    /// The entry that was built, unless its content is empty.
    pub fn finalize(&self) -> (outcome: Result<Entry, JournalError>)
        ensures
            outcome matches Ok(entry) ==> is_valid(entry@),
            outcome is Ok <==> finalized(self@) is Ok,
            outcome matches Ok(entry) ==> Ok::<EntryView, JournalError>(entry@) == finalized(
                self@,
            ),
            outcome matches Err(error) ==> Err::<EntryView, JournalError>(error) == finalized(
                self@,
            ),
    {
        proof {
            use_type_invariant(self);
        }
        if !self.content.as_str().is_empty() {
            let title = match &self.title {
                Some(given) => Some(given.clone()),
                None => None,
            };
            Ok(
                Entry {
                    id: self.id,
                    title,
                    content: self.content.clone(),
                    updated_at: self.updated_at.clone(),
                    created_at: self.created_at.clone(),
                    starred: self.starred,
                    tags: self.tags.clone(),
                },
            )
        } else {
            Err(JournalError::EmptyContent)
        }
    }
}

/// An entry built without a title of its own, from a content that is not
/// empty and does not begin with a star, has the beginning of the content as
/// its title: the part before the first line break, `?`, `!` or `.`, which
/// is all of the content where it holds none of these.
pub proof fn lemma_title_from_content(before: EntryView, content: Seq<char>)
    requires
        lacks_title(before.title),
        !is_starred(content),
        content.len() > 0,
    ensures
        finalized(with_content(before, content)) matches Ok(entry) && entry.title matches Some(
            title,
        ) && {
            &&& title.is_prefix_of(content)
            &&& forall|i: int| 0 <= i < title.len() ==> !is_divider(title[i])
            &&& title.len() < content.len() ==> is_divider(content[title.len() as int])
            &&& (forall|i: int| 0 <= i < content.len() ==> !is_divider(content[i])) ==> title
                == content
        },
{
    lemma_first_index(content, |c: char| is_divider(c));
    let title = title_of(content);
    assert(title.is_prefix_of(content));
    if forall|i: int| 0 <= i < content.len() ==> !is_divider(content[i]) {
        assert(title =~= content);
    }
}

/// A content that begins with a star makes the entry a favourite, whatever
/// was said of the star before, and the entry holds the content without
/// that star.
pub proof fn lemma_star_by_convention(before: EntryView, content: Seq<char>)
    requires
        is_starred(content),
    ensures
        with_content(before, content).starred,
        with_content(before, content).content == content.drop_first(),
        content.len() > 1 ==> (finalized(with_content(before, content)) matches Ok(entry)
            && entry.starred && entry.content == content.drop_first()),
{
}

/// No entry is built from a content of which nothing is left once its star
/// is taken off: the empty content, and the star alone.
pub proof fn lemma_empty_content_fails(before: EntryView, content: Seq<char>)
    requires
        without_star(content).len() == 0,
    ensures
        finalized(with_content(before, content)) == Err::<EntryView, JournalError>(
            JournalError::EmptyContent,
        ),
        content.len() == 0 || content == seq!['*'],
{
    if content.len() > 0 {
        assert(content =~= seq!['*']);
    }
}

} // verus!
