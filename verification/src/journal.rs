//! The entries of one journal, in the order in which they are kept, and the
//! changes that a journal makes to them.

use crate::entry::Entry;
use crate::entry::EntryView;
use crate::error::JournalError;
use crate::json::json_model;
use crate::json::JsonModel;
use crate::search::first_index;
use crate::search::lemma_filter_keeps_all;
use crate::search::lemma_first_index;
use crate::search::lemma_first_index_unique;
use rustc_serialize::json::Json;
use vstd::prelude::*;

verus! {

/// What each of the entries holds, in their order.
pub open spec fn views_of(entries: Seq<Box<Entry>>) -> Seq<EntryView> {
    Seq::new(entries.len(), |i: int| entries[i]@)
}

/// The condition that an entry has the given identifier.
pub open spec fn has_id(id: u128) -> spec_fn(EntryView) -> bool {
    |entry: EntryView| entry.id == id
}

/// The condition that an entry has none of the given identifiers.
pub open spec fn has_none_of(ids: Seq<u128>) -> spec_fn(EntryView) -> bool {
    |entry: EntryView| !ids.contains(entry.id)
}

/// The entries after one was put in: it stands before the first entry that
/// has its identifier, which stays, or at the end if there is none.
pub open spec fn upserted(entries: Seq<EntryView>, entry: EntryView) -> Seq<EntryView> {
    entries.insert(first_index(entries, has_id(entry.id)) as int, entry)
}

/// The entries without those that have one of the given identifiers.
pub open spec fn removed(entries: Seq<EntryView>, ids: Seq<u128>) -> Seq<EntryView> {
    entries.filter(has_none_of(ids))
}

/// The entries after the last one was taken back: every entry that has the
/// identifier of the last one is gone.
pub open spec fn undone(entries: Seq<EntryView>) -> Seq<EntryView> {
    if entries.len() == 0 {
        entries
    } else {
        removed(entries, seq![entries.last().id])
    }
}

/// What the registry knows of a journal.
pub struct JournalRecord {
    /// The name by which the user calls the journal.
    pub name: Seq<char>,
    /// Where its entries are kept.
    pub location: Seq<char>,
    /// Whether it is the journal that is meant where none is named.
    pub is_default: bool,
}

/// A kind of journal: how it stands in the registry, and what each
/// operation makes of what the journal's store holds.
pub trait Journal: View<V = JournalRecord> + PartialEq + Sized {
    /// The JSON value that stands for a journal of this kind in the registry.
    spec fn record_document(record: JournalRecord) -> JsonModel;

    /// The journal that a JSON value of the registry stands for, if it
    /// stands for one of this kind.
    spec fn document_record(document: JsonModel) -> Option<JournalRecord>;

    /// The entries that the text of a store stands for, if it stands for any.
    spec fn stored_entries(stored: Seq<char>) -> Option<Seq<EntryView>>;

    /// The text that a store holds for the given entries.
    spec fn entries_text(entries: Seq<EntryView>) -> Seq<char>;

    /// Whether a store can hold the given entries: whether their text can
    /// be read again.
    spec fn is_storable(entries: Seq<EntryView>) -> bool;

    /// The journal that a JSON value of the registry stands for;
    /// `RegistryParse` where it stands for none.
    fn from_json(journal: &Json) -> (outcome: Result<Self, JournalError>)
        ensures
            outcome is Ok <==> Self::document_record(json_model(*journal)) is Some,
            outcome matches Ok(read) ==> Some(read@) == Self::document_record(
                json_model(*journal),
            ),
            outcome matches Err(error) ==> error == JournalError::RegistryParse,
    ;

    /// The JSON value that stands for the journal in the registry.
    fn to_json(&self) -> (json: Json)
        ensures
            json_model(json) == Self::record_document(self@),
    ;

    /// Makes the journal the default.
    fn set_default(&mut self)
        ensures
            final(self)@ == (JournalRecord { is_default: true, ..old(self)@ }),
    ;

    /// Whether the journal is the default.
    fn is_default(&self) -> (default: bool)
        ensures
            default == self@.is_default,
    ;

    /// The name of the journal.
    fn name(&self) -> (name: &String)
        ensures
            name@ == self@.name,
    ;

    /// The entries that the store holds, in their order; `StorageRead`
    /// where what it holds stands for none.
    fn entries(&self, stored: &str) -> (outcome: Result<Vec<Box<Entry>>, JournalError>)
        ensures
            outcome is Ok <==> Self::stored_entries(stored@) is Some,
            outcome matches Ok(entries) ==> Some(views_of(entries@)) == Self::stored_entries(
                stored@,
            ),
            outcome matches Err(error) ==> error == JournalError::StorageRead,
    ;

    /// What the store is to hold once the entry is put in. The store then
    /// holds the new entries: they are read back from the text as they are.
    /// `StorageRead` where what the store holds now stands for no entries,
    /// `StorageWrite` where it cannot hold the new ones.
    fn upsert_entry(&self, stored: &str, entry: Entry) -> (outcome: Result<String, JournalError>)
        ensures
            changed(
                outcome,
                Self::stored_entries(stored@),
                upserted(Self::stored_entries(stored@)->0, entry@),
                Self::is_storable(upserted(Self::stored_entries(stored@)->0, entry@)),
            ),
            outcome matches Ok(text) ==> text@ == Self::entries_text(
                upserted(Self::stored_entries(stored@)->0, entry@),
            ) && Self::stored_entries(text@) == Some(
                upserted(Self::stored_entries(stored@)->0, entry@),
            ),
    ;

    /// What the store is to hold once the entries with one of the given
    /// identifiers are taken out; it then holds the others, and fails as
    /// `upsert_entry` does.
    fn remove_entries(&self, stored: &str, ids: &Vec<u128>) -> (outcome: Result<
        String,
        JournalError,
    >)
        ensures
            changed(
                outcome,
                Self::stored_entries(stored@),
                removed(Self::stored_entries(stored@)->0, ids@),
                Self::is_storable(removed(Self::stored_entries(stored@)->0, ids@)),
            ),
            outcome matches Ok(text) ==> text@ == Self::entries_text(
                removed(Self::stored_entries(stored@)->0, ids@),
            ) && Self::stored_entries(text@) == Some(
                removed(Self::stored_entries(stored@)->0, ids@),
            ),
    ;

    /// What the store is to hold once the last entry is taken back, with
    /// every entry that has its identifier; nothing where there is no entry,
    /// and the store stays as it is. Fails as `upsert_entry` does.
    fn undo_last_entry(&self, stored: &str) -> (outcome: Result<Option<String>, JournalError>)
        ensures
            Self::stored_entries(stored@) is None ==> outcome == Err::<
                Option<String>,
                JournalError,
            >(JournalError::StorageRead),
            Self::stored_entries(stored@) matches Some(before) ==> if before.len() == 0 {
                outcome == Ok::<Option<String>, JournalError>(None)
            } else if Self::is_storable(undone(before)) {
                outcome matches Ok(Some(text)) && text@ == Self::entries_text(undone(before))
                    && Self::stored_entries(text@) == Some(undone(before))
            } else {
                outcome == Err::<Option<String>, JournalError>(JournalError::StorageWrite)
            },
    ;
}

/// Whether an operation that changes a journal ended as it must: with a
/// text where the store held entries and can hold the new ones, with
/// `StorageRead` where it held none, and else with `StorageWrite`.
pub open spec fn changed(
    outcome: Result<String, JournalError>,
    before: Option<Seq<EntryView>>,
    after: Seq<EntryView>,
    storable: bool,
) -> bool {
    if before is None {
        outcome == Err::<String, JournalError>(JournalError::StorageRead)
    } else if storable {
        outcome is Ok
    } else {
        outcome == Err::<String, JournalError>(JournalError::StorageWrite)
    }
}

/// Whether one of the identifiers is `id`.
pub fn holds_id(ids: &Vec<u128>, id: u128) -> (held: bool)
    ensures
        held == ids@.contains(id),
{
    let mut at: usize = 0;
    while at < ids.len()
        invariant
            at <= ids.len(),
            forall|i: int| 0 <= i < at ==> ids@[i] != id,
        decreases ids.len() - at,
    {
        if ids[at] == id {
            return true;
        }
        at += 1;
    }
    false
}

/// Puts an entry in: before the first entry that has its identifier, or at
/// the end.
pub fn upsert(entries: &mut Vec<Box<Entry>>, entry: Entry)
    ensures
        views_of(final(entries)@) == upserted(views_of(old(entries)@), entry@),
{
    let mut at: usize = 0;
    while at < entries.len() && entries[at].id() != entry.id()
        invariant
            at <= entries.len(),
            *entries == *old(entries),
            forall|i: int| 0 <= i < at ==> !has_id(entry@.id)(#[trigger] views_of(entries@)[i]),
        decreases entries.len() - at,
    {
        at += 1;
    }
    proof {
        lemma_first_index_unique(views_of(entries@), has_id(entry@.id), at as int);
    }
    entries.insert(at, Box::new(entry));
    assert(views_of(entries@) =~= upserted(views_of(old(entries)@), entry@));
}

/// Takes out the entries that have one of the given identifiers.
pub fn remove(entries: Vec<Box<Entry>>, ids: &Vec<u128>) -> (kept: Vec<Box<Entry>>)
    ensures
        views_of(kept@) == removed(views_of(entries@), ids@),
{
    let ghost wanted = has_none_of(ids@);
    let ghost all = entries@;
    let mut kept: Vec<Box<Entry>> = Vec::new();
    assert(views_of(all.take(0)) =~= Seq::<EntryView>::empty());
    for entry in rest: entries
        invariant
            rest.seq() == all,
            wanted == has_none_of(ids@),
            views_of(kept@) == views_of(all.take(rest.index())).filter(wanted),
    {
        proof {
            let seen = all.take(rest.index());
            views_of(seen).lemma_filter_push(entry@, wanted);
            assert(views_of(all.take(rest.index() + 1)) =~= views_of(seen).push(entry@));
        }
        if !holds_id(ids, entry.id()) {
            let ghost before = kept@;
            kept.push(entry);
            assert(views_of(kept@) =~= views_of(before).push(entry@));
        }
    }
    assert(all.take(all.len() as int) =~= all);
    kept
}

/// Takes back the last entry, and with it every entry that has its
/// identifier; nothing where there is no entry.
pub fn undo_last(entries: Vec<Box<Entry>>) -> (kept: Vec<Box<Entry>>)
    ensures
        views_of(kept@) == undone(views_of(entries@)),
{
    if entries.len() == 0 {
        entries
    } else {
        let mut ids: Vec<u128> = Vec::new();
        ids.push(entries[entries.len() - 1].id());
        assert(ids@ =~= seq![views_of(entries@).last().id]);
        remove(entries, &ids)
    }
}

/// Taking back the last entry leaves an empty journal empty. In a journal
/// whose last entry shares its identifier with no other, it takes out that
/// entry and nothing else.
pub proof fn lemma_undo_last(entries: Seq<EntryView>)
    requires
        forall|i: int| 0 <= i < entries.len() - 1 ==> entries[i].id != entries.last().id,
    ensures
        entries.len() == 0 ==> undone(entries) == entries,
        entries.len() > 0 ==> undone(entries) == entries.drop_last(),
{
    if entries.len() > 0 {
        let ids = seq![entries.last().id];
        let wanted = has_none_of(ids);
        let others = entries.drop_last();
        assert(ids[0] == entries.last().id);
        assert forall|i: int| 0 <= i < others.len() implies wanted(#[trigger] others[i]) by {
            assert(others[i] == entries[i]);
        }
        lemma_filter_keeps_all(others, wanted);
        others.lemma_filter_push(entries.last(), wanted);
        assert(others.push(entries.last()) =~= entries);
    }
}

/// An entry that is put in stands in the journal afterwards, and every
/// entry that stood there before still does, in the same order.
pub proof fn lemma_upsert_keeps(entries: Seq<EntryView>, entry: EntryView)
    ensures
        upserted(entries, entry).len() == entries.len() + 1,
        upserted(entries, entry).contains(entry),
        upserted(entries, entry).remove(first_index(entries, has_id(entry.id)) as int)
            == entries,
{
    lemma_first_index(entries, has_id(entry.id));
    let at = first_index(entries, has_id(entry.id)) as int;
    assert(upserted(entries, entry)[at] == entry);
    assert(upserted(entries, entry).remove(at) =~= entries);
}

/// After a removal no entry has one of the identifiers that were given,
/// and the entries with another identifier are all still there.
pub proof fn lemma_remove_by_id(entries: Seq<EntryView>, ids: Seq<u128>)
    ensures
        forall|i: int|
            0 <= i < removed(entries, ids).len() ==> !ids.contains(
                (#[trigger] removed(entries, ids)[i]).id,
            ),
        forall|i: int|
            0 <= i < entries.len() && !ids.contains(entries[i].id) ==> removed(
                entries,
                ids,
            ).contains(#[trigger] entries[i]),
{
    broadcast use Seq::lemma_filter_pred, Seq::lemma_filter_contains;

    let wanted = has_none_of(ids);
    assert forall|i: int| 0 <= i < removed(entries, ids).len() implies !ids.contains(
        (#[trigger] removed(entries, ids)[i]).id,
    ) by {
        assert(wanted(entries.filter(wanted)[i]));
    }
    assert forall|i: int| 0 <= i < entries.len() && !ids.contains(entries[i].id) implies removed(
        entries,
        ids,
    ).contains(#[trigger] entries[i]) by {
        assert(wanted(entries[i]));
    }
}

/// An entry with an identifier that the journal does not know yet goes to
/// the end, and taking back the last entry then leaves the journal as it
/// was before.
pub proof fn lemma_undo_after_upsert(entries: Seq<EntryView>, entry: EntryView)
    requires
        forall|i: int| 0 <= i < entries.len() ==> entries[i].id != entry.id,
    ensures
        upserted(entries, entry) == entries.push(entry),
        undone(upserted(entries, entry)) == entries,
{
    lemma_first_index_unique(entries, has_id(entry.id), entries.len() as int);
    assert(entries.insert(entries.len() as int, entry) =~= entries.push(entry));
    lemma_undo_last(entries.push(entry));
    assert(entries.push(entry).drop_last() =~= entries);
}

} // verus!
