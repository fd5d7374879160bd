use rjrn::codec::line_from;
use rjrn::entry::Entry;
use rjrn::entry::EntryBuilder;
use rjrn::error::JournalError;
use rjrn::file_journal::FileJournal;
use rjrn::journal::holds_id;
use rjrn::journal::remove;
use rjrn::journal::undo_last;
use rjrn::journal::upsert;
use rjrn::journal::Journal;
use rjrn::scan::fits;
use rustc_serialize::json::EncoderError;
use rustc_serialize::json::Json;

fn note(id: u128, content: &str) -> Entry {
    EntryBuilder::new().id(id).content(content.to_string()).finalize().unwrap()
}

fn notes(items: &[(u128, &str)]) -> Vec<Box<Entry>> {
    items.iter().map(|(id, content)| Box::new(note(*id, content))).collect()
}

fn contents(entries: &Vec<Box<Entry>>) -> Vec<(u128, String)> {
    entries.iter().map(|entry| (entry.id(), entry.content().clone())).collect()
}

fn listed(items: &[(u128, &str)]) -> Vec<(u128, String)> {
    items.iter().map(|(id, content)| (*id, content.to_string())).collect()
}

fn journal() -> FileJournal {
    FileJournal::new("notes", "/tmp/notes.json", true, true).unwrap()
}

const STORED: &str = "[{\"id\":\"a1a2a3a4-b1b2-c1c2-d1d2-d3d4d5d6d7d8\",\"title\":\"First\",\
\"content\":\"First. Entry\",\"updated_at\":\"2016-03-01T10:00:00+00:00\",\
\"created_at\":\"2016-03-01T09:00:00+00:00\",\"starred\":true,\"tags\":[\"a\",\"b\"]},\
{\"id\":\"00000000-0000-0000-0000-000000000002\",\"title\":null,\"content\":\"Second\",\
\"updated_at\":\"2016-03-02T10:00:00Z\",\"created_at\":\"2016-03-02 10:00:00+01:00\",\
\"starred\":false,\"tags\":[]}]";

#[test]
fn upsert_appends_a_new_entry() {
    let mut entries = notes(&[(1, "a"), (2, "b")]);
    upsert(&mut entries, note(3, "c"));
    assert_eq!(contents(&entries), listed(&[(1, "a"), (2, "b"), (3, "c")]));
}

#[test]
fn upsert_into_an_empty_journal() {
    let mut entries = notes(&[]);
    upsert(&mut entries, note(1, "a"));
    assert_eq!(contents(&entries), listed(&[(1, "a")]));
}

#[test]
fn upsert_puts_a_known_entry_before_the_old_one_and_keeps_both() {
    let mut entries = notes(&[(1, "a"), (2, "b"), (3, "c")]);
    upsert(&mut entries, note(2, "new"));
    assert_eq!(contents(&entries), listed(&[(1, "a"), (2, "new"), (2, "b"), (3, "c")]));
}

#[test]
fn upsert_goes_before_the_first_of_several_with_its_identifier() {
    let mut entries = notes(&[(1, "a"), (2, "b"), (2, "c")]);
    upsert(&mut entries, note(2, "new"));
    assert_eq!(contents(&entries), listed(&[(1, "a"), (2, "new"), (2, "b"), (2, "c")]));
}

#[test]
fn remove_takes_out_every_entry_with_a_given_identifier() {
    let entries = notes(&[(1, "a"), (2, "b"), (1, "c"), (3, "d")]);
    let kept = remove(entries, &vec![1, 3]);
    assert_eq!(contents(&kept), listed(&[(2, "b")]));
}

#[test]
fn remove_of_unknown_identifiers_changes_nothing() {
    let entries = notes(&[(1, "a"), (2, "b")]);
    let kept = remove(entries, &vec![7, 8]);
    assert_eq!(contents(&kept), listed(&[(1, "a"), (2, "b")]));
}

#[test]
fn remove_of_no_identifiers_changes_nothing() {
    let kept = remove(notes(&[(1, "a"), (2, "b")]), &vec![]);
    assert_eq!(contents(&kept), listed(&[(1, "a"), (2, "b")]));
}

#[test]
fn remove_keeps_the_order_of_the_rest() {
    let kept = remove(notes(&[(5, "e"), (4, "d"), (3, "c"), (2, "b")]), &vec![4]);
    assert_eq!(contents(&kept), listed(&[(5, "e"), (3, "c"), (2, "b")]));
}

#[test]
fn undo_of_an_empty_journal_is_nothing() {
    assert!(undo_last(notes(&[])).is_empty());
}

#[test]
fn undo_takes_back_the_last_entry() {
    let kept = undo_last(notes(&[(3, "c"), (1, "a"), (2, "b")]));
    assert_eq!(contents(&kept), listed(&[(3, "c"), (1, "a")]));
}

#[test]
fn undo_takes_back_every_entry_with_the_last_identifier() {
    let kept = undo_last(notes(&[(1, "a"), (2, "new"), (3, "c"), (2, "b")]));
    assert_eq!(contents(&kept), listed(&[(1, "a"), (3, "c")]));
}

#[test]
fn holds_id_finds_what_is_there() {
    assert!(holds_id(&vec![1, 2, 3], 3));
    assert!(holds_id(&vec![1, 2, 3], 1));
    assert!(!holds_id(&vec![1, 2, 3], 4));
    assert!(!holds_id(&vec![], 0));
}

#[test]
fn empty_file_holds_no_entries() {
    assert!(journal().entries("").unwrap().is_empty());
}

#[test]
fn empty_array_holds_no_entries() {
    assert!(journal().entries("[]").unwrap().is_empty());
}

#[test]
fn entries_are_read_in_their_order() {
    let entries = journal().entries(STORED).unwrap();
    assert_eq!(entries.len(), 2);
    assert_eq!(entries[0].id(), 0xa1a2a3a4b1b2c1c2d1d2d3d4d5d6d7d8);
    assert_eq!(entries[0].title(), &Some("First".to_string()));
    assert_eq!(entries[0].content(), "First. Entry");
    assert_eq!(entries[0].updated_at(), "2016-03-01T10:00:00+00:00");
    assert_eq!(entries[0].created_at(), "2016-03-01T09:00:00+00:00");
    assert!(entries[0].starred());
    assert_eq!(entries[0].tags(), &vec!["a".to_string(), "b".to_string()]);
    assert_eq!(entries[1].id(), 2);
    assert_eq!(entries[1].title(), &None);
    assert_eq!(entries[1].content(), "Second");
    assert!(!entries[1].starred());
    assert!(entries[1].tags().is_empty());
}

#[test]
fn instants_are_read_as_chrono_prints_them() {
    let entries = journal().entries(STORED).unwrap();
    assert_eq!(entries[1].updated_at(), "2016-03-02T10:00:00+00:00");
    assert_eq!(entries[1].created_at(), "2016-03-02T09:00:00+00:00");
}

#[test]
fn missing_title_is_no_title() {
    let stored = "[{\"id\":\"00000000-0000-0000-0000-000000000001\",\"content\":\"x\",\
\"updated_at\":\"2016-03-02T10:00:00+00:00\",\"created_at\":\"2016-03-02T10:00:00+00:00\",\
\"starred\":false,\"tags\":[]}]";
    let entries = journal().entries(stored).unwrap();
    assert_eq!(entries[0].title(), &None);
    assert_eq!(entries[0].id(), 1);
}

fn stored_with(member: &str, value: &str) -> String {
    let mut members = vec![
        ("id", "\"00000000-0000-0000-0000-000000000001\""),
        ("title", "\"t\""),
        ("content", "\"x\""),
        ("updated_at", "\"2016-03-02T10:00:00+00:00\""),
        ("created_at", "\"2016-03-02T10:00:00+00:00\""),
        ("starred", "false"),
        ("tags", "[]"),
    ];
    members.retain(|(key, _)| *key != member);
    let mut text: Vec<String> =
        members.iter().map(|(key, value)| format!("\"{}\":{}", key, value)).collect();
    if !value.is_empty() {
        text.push(format!("\"{}\":{}", member, value));
    }
    format!("[{{{}}}]", text.join(","))
}

#[test]
fn stored_with_gives_a_journal_that_reads() {
    let entries = journal().entries(&stored_with("title", "\"other\"")).unwrap();
    assert_eq!(entries[0].title(), &Some("other".to_string()));
}

#[test]
fn text_that_is_no_json_is_refused() {
    assert_eq!(journal().entries("[{").err(), Some(JournalError::StorageRead));
    assert_eq!(journal().entries("not json").err(), Some(JournalError::StorageRead));
    assert_eq!(journal().entries(" ").err(), Some(JournalError::StorageRead));
}

#[test]
fn json_that_is_no_array_is_refused() {
    assert_eq!(journal().entries("{}").err(), Some(JournalError::StorageRead));
    assert_eq!(journal().entries("\"x\"").err(), Some(JournalError::StorageRead));
    assert_eq!(journal().entries("null").err(), Some(JournalError::StorageRead));
}

#[test]
fn array_of_other_things_is_refused() {
    assert_eq!(journal().entries("[1]").err(), Some(JournalError::StorageRead));
    assert_eq!(journal().entries("[{}]").err(), Some(JournalError::StorageRead));
}

#[test]
fn entry_without_a_member_is_refused() {
    for member in ["id", "content", "updated_at", "created_at", "starred", "tags"] {
        let stored = stored_with(member, "");
        assert_eq!(journal().entries(&stored).err(), Some(JournalError::StorageRead));
    }
}

#[test]
fn entry_with_a_member_of_another_type_is_refused() {
    let cases = [
        ("id", "7"),
        ("title", "7"),
        ("title", "false"),
        ("content", "null"),
        ("updated_at", "true"),
        ("created_at", "[]"),
        ("starred", "\"yes\""),
        ("starred", "null"),
        ("tags", "\"a\""),
        ("tags", "[1]"),
        ("tags", "[\"a\",null]"),
    ];
    for (member, value) in cases {
        let stored = stored_with(member, value);
        assert_eq!(journal().entries(&stored).err(), Some(JournalError::StorageRead));
    }
}

#[test]
fn entry_with_an_empty_content_is_refused() {
    let stored = stored_with("content", "\"\"");
    assert_eq!(journal().entries(&stored).err(), Some(JournalError::StorageRead));
}

#[test]
fn entry_with_an_identifier_that_is_none_is_refused() {
    let stored = stored_with("id", "\"not-a-uuid\"");
    assert_eq!(journal().entries(&stored).err(), Some(JournalError::StorageRead));
}

#[test]
fn entry_with_an_instant_that_is_none_is_refused() {
    let stored = stored_with("created_at", "\"yesterday\"");
    assert_eq!(journal().entries(&stored).err(), Some(JournalError::StorageRead));
    let stored = stored_with("updated_at", "\"2016-13-40T10:00:00+00:00\"");
    assert_eq!(journal().entries(&stored).err(), Some(JournalError::StorageRead));
}

#[test]
fn identifier_is_read_in_each_form_that_uuid_knows() {
    let stored = stored_with("id", "\"A1A2A3A4B1B2C1C2D1D2D3D4D5D6D7D8\"");
    let entries = journal().entries(&stored).unwrap();
    assert_eq!(entries[0].id(), 0xa1a2a3a4b1b2c1c2d1d2d3d4d5d6d7d8);
}

#[test]
fn members_that_are_not_known_are_passed_over() {
    let stored = stored_with("colour", "\"red\"");
    assert_eq!(journal().entries(&stored).unwrap().len(), 1);
}

#[test]
fn entry_is_written_as_an_object_of_seven_members() {
    let entry = EntryBuilder::new()
        .id(0xa1a2a3a4b1b2c1c2d1d2d3d4d5d6d7d8)
        .content("*Hello. World".to_string())
        .finalize()
        .unwrap();
    let json = entry.to_json();
    let members = json.as_object().unwrap();
    assert_eq!(members.len(), 7);
    assert_eq!(json.find("id").unwrap().as_string(), Some("a1a2a3a4-b1b2-c1c2-d1d2-d3d4d5d6d7d8"));
    assert_eq!(json.find("title").unwrap().as_string(), Some("Hello"));
    assert_eq!(json.find("content").unwrap().as_string(), Some("Hello. World"));
    assert_eq!(json.find("starred").unwrap().as_boolean(), Some(true));
    assert_eq!(json.find("tags").unwrap().as_array().unwrap().len(), 0);
    assert_eq!(json.find("created_at").unwrap().as_string(), Some(entry.created_at().as_str()));
    assert_eq!(json.find("updated_at").unwrap().as_string(), Some(entry.updated_at().as_str()));
}

#[test]
fn entry_without_a_title_is_written_with_null() {
    let stored = stored_with("title", "null");
    let entry = journal().entries(&stored).unwrap().remove(0);
    assert!(entry.to_json().find("title").unwrap().is_null());
}

#[test]
fn entry_is_read_from_its_own_object() {
    let entry = journal().entries(STORED).unwrap().remove(0);
    let back = Entry::from_json(&entry.to_json()).unwrap();
    assert_eq!(back.id(), entry.id());
    assert_eq!(back.title(), entry.title());
    assert_eq!(back.content(), entry.content());
    assert_eq!(back.updated_at(), entry.updated_at());
    assert_eq!(back.created_at(), entry.created_at());
    assert_eq!(back.starred(), entry.starred());
    assert_eq!(back.tags(), entry.tags());
}

#[test]
fn entry_is_not_read_from_another_value() {
    let value = Json::from_str("[]").unwrap();
    assert_eq!(Entry::from_json(&value).err(), Some(JournalError::StorageRead));
}

#[test]
fn saved_entries_are_one_line_of_json() {
    let entries = journal().entries(STORED).unwrap();
    let text = journal().save_entries(&entries).unwrap();
    assert!(text.ends_with("]\n"));
    assert_eq!(text.matches('\n').count(), 1);
    let json = Json::from_str(&text).unwrap();
    assert_eq!(json.as_array().unwrap().len(), 2);
}

#[test]
fn no_entries_are_saved_as_an_empty_array() {
    assert_eq!(journal().save_entries(&Vec::new()).unwrap(), "[]\n");
}

#[test]
fn saved_entries_are_read_back_the_same() {
    let mut entries = journal().entries(STORED).unwrap();
    entries.push(Box::new(note(9, "*Fresh. One")));
    let text = journal().save_entries(&entries).unwrap();
    let back = journal().entries(&text).unwrap();
    assert_eq!(back.len(), entries.len());
    for (left, right) in back.iter().zip(entries.iter()) {
        assert_eq!(left.id(), right.id());
        assert_eq!(left.title(), right.title());
        assert_eq!(left.content(), right.content());
        assert_eq!(left.updated_at(), right.updated_at());
        assert_eq!(left.created_at(), right.created_at());
        assert_eq!(left.starred(), right.starred());
        assert_eq!(left.tags(), right.tags());
    }
}

#[test]
fn saved_text_is_the_same_after_a_second_round() {
    let entries = journal().entries(STORED).unwrap();
    let text = journal().save_entries(&entries).unwrap();
    let again = journal().save_entries(&journal().entries(&text).unwrap()).unwrap();
    assert_eq!(text, again);
}

#[test]
fn upsert_entry_into_an_empty_file() {
    let text = journal().upsert_entry("", note(1, "a")).unwrap();
    assert_eq!(contents(&journal().entries(&text).unwrap()), listed(&[(1, "a")]));
}

#[test]
fn upsert_entry_appends_to_what_is_stored() {
    let text = journal().upsert_entry(STORED, note(3, "Third")).unwrap();
    let entries = journal().entries(&text).unwrap();
    assert_eq!(
        contents(&entries),
        listed(&[(0xa1a2a3a4b1b2c1c2d1d2d3d4d5d6d7d8, "First. Entry"), (2, "Second"), (3, "Third")])
    );
}

#[test]
fn upsert_entry_keeps_the_old_entry_with_the_same_identifier() {
    let text = journal().upsert_entry(STORED, note(2, "Second, again")).unwrap();
    let entries = journal().entries(&text).unwrap();
    assert_eq!(
        contents(&entries),
        listed(&[
            (0xa1a2a3a4b1b2c1c2d1d2d3d4d5d6d7d8, "First. Entry"),
            (2, "Second, again"),
            (2, "Second")
        ])
    );
}

#[test]
fn upsert_entry_into_a_broken_file_fails() {
    assert_eq!(journal().upsert_entry("{", note(1, "a")).err(), Some(JournalError::StorageRead));
}

#[test]
fn remove_entries_from_what_is_stored() {
    let text = journal().remove_entries(STORED, &vec![2]).unwrap();
    let entries = journal().entries(&text).unwrap();
    assert_eq!(contents(&entries), listed(&[(0xa1a2a3a4b1b2c1c2d1d2d3d4d5d6d7d8, "First. Entry")]));
}

#[test]
fn remove_entries_that_are_not_there() {
    let text = journal().remove_entries(STORED, &vec![77]).unwrap();
    assert_eq!(journal().entries(&text).unwrap().len(), 2);
}

#[test]
fn remove_entries_from_a_broken_file_fails() {
    assert_eq!(journal().remove_entries("[", &vec![1]).err(), Some(JournalError::StorageRead));
}

#[test]
fn undo_last_entry_of_an_empty_file_leaves_it_empty() {
    assert_eq!(journal().undo_last_entry("").unwrap(), None);
}

#[test]
fn undo_last_entry_of_an_empty_array_leaves_it() {
    assert_eq!(journal().undo_last_entry("[]").unwrap(), None);
}

#[test]
fn undo_last_entry_takes_back_what_was_added_last() {
    let text = journal().upsert_entry(STORED, note(3, "Third")).unwrap();
    let text = journal().undo_last_entry(&text).unwrap().unwrap();
    let entries = journal().entries(&text).unwrap();
    assert_eq!(
        contents(&entries),
        listed(&[(0xa1a2a3a4b1b2c1c2d1d2d3d4d5d6d7d8, "First. Entry"), (2, "Second")])
    );
}

#[test]
fn undo_last_entry_down_to_nothing() {
    let text = journal().upsert_entry("", note(1, "a")).unwrap();
    let text = journal().undo_last_entry(&text).unwrap().unwrap();
    assert_eq!(text, "[]\n");
    assert_eq!(journal().undo_last_entry(&text).unwrap(), None);
}

#[test]
fn undo_last_entry_of_a_broken_file_fails() {
    assert_eq!(journal().undo_last_entry("nope").err(), Some(JournalError::StorageRead));
}

#[test]
fn contents_with_marks_and_breaks_are_read_back() {
    let odd = "quote \" backslash \\ tab \t break \n bell \u{7} snowman \u{2603} end";
    let text = journal().upsert_entry("", note(1, odd)).unwrap();
    let entries = journal().entries(&text).unwrap();
    assert_eq!(entries[0].content(), odd);
    assert_eq!(entries[0].title(), &Some("quote \" backslash \\ tab \t break ".to_string()));
}

#[test]
fn numbers_in_unknown_members_do_no_harm() {
    let stored = stored_with("weight", "-1.5e3");
    assert_eq!(journal().entries(&stored).unwrap().len(), 1);
    let stored = stored_with("count", "18446744073709551615");
    assert_eq!(journal().entries(&stored).unwrap().len(), 1);
}

#[test]
fn instant_beyond_four_digit_years_is_read_back() {
    let stored = stored_with("created_at", "\"+12345-06-07T08:09:10.5+00:00\"");
    let entries = journal().entries(&stored).unwrap();
    assert_eq!(entries[0].created_at(), "+12345-06-07T08:09:10.500+00:00");
    let text = journal().save_entries(&entries).unwrap();
    let back = journal().entries(&text).unwrap();
    assert_eq!(back[0].created_at(), entries[0].created_at());
}

#[test]
fn printed_text_becomes_a_line() {
    assert_eq!(line_from(Ok("[]".to_string()), JournalError::StorageWrite), Ok("[]\n".to_string()));
    assert_eq!(line_from(Ok(String::new()), JournalError::RegistryWrite), Ok("\n".to_string()));
}

#[test]
fn failed_print_is_a_failed_write() {
    assert_eq!(
        line_from(Err(EncoderError::BadHashmapKey), JournalError::StorageWrite),
        Err(JournalError::StorageWrite)
    );
    assert_eq!(
        line_from(Err(EncoderError::FmtError(std::fmt::Error)), JournalError::RegistryWrite),
        Err(JournalError::RegistryWrite)
    );
}

fn nested(depth: usize) -> String {
    format!("{}{}", "[".repeat(depth), "]".repeat(depth))
}

#[test]
fn text_within_the_limits_fits() {
    assert!(fits(""));
    assert!(fits("[]"));
    assert!(fits(STORED));
    assert!(fits("{\"a\":{\"b\":[1,2.5e10,-3E-7,true,null]}}"));
    assert!(fits("not json at all"));
}

#[test]
fn nesting_fits_up_to_its_limit() {
    assert!(fits(&nested(64)));
    assert!(!fits(&nested(65)));
    assert!(!fits(&"[".repeat(100_000)));
    assert!(!fits(&"{\"a\":".repeat(65)));
    assert!(fits(&"[],".repeat(1000)));
}

#[test]
fn brackets_inside_strings_are_no_nesting() {
    let text = format!("[\"{}\"]", "[{".repeat(500));
    assert!(fits(&text));
    let text = format!("[\"\\\"{}\"]", "[".repeat(500));
    assert!(fits(&text));
    let text = format!("[\"\\\\\",{}", "[".repeat(500));
    assert!(!fits(&text));
}

#[test]
fn keys_fit_up_to_their_limit() {
    assert!(fits(&format!("{{\"{}\":1}}", "k".repeat(255))));
    assert!(!fits(&format!("{{\"{}\":1}}", "k".repeat(256))));
    assert!(fits(&format!("{{\"a\":1,\"{}\":1}}", "k".repeat(255))));
    assert!(!fits(&format!("{{\"a\":1, \"{}\":1}}", "k".repeat(256))));
}

#[test]
fn strings_that_are_no_keys_have_no_limit() {
    assert!(fits(&format!("{{\"content\":\"{}\"}}", "x".repeat(100_000))));
    assert!(fits(&format!("{{\"content\" : \"{}\"}}", "x".repeat(100_000))));
    assert!(fits(&format!("[\"{}\",\"{}\"]", "x".repeat(1000), "y".repeat(1000))));
    assert!(fits(&format!("\"{}\"", "x".repeat(1000))));
}

#[test]
fn exponents_fit_up_to_their_limit() {
    assert!(fits(&format!("[1e{}]", "9".repeat(18))));
    assert!(!fits(&format!("[1e{}]", "9".repeat(19))));
    assert!(!fits(&format!("[1E+{}]", "0".repeat(19))));
    assert!(!fits(&format!("[1.5e-{}]", "1".repeat(40))));
    assert!(fits("[18446744073709551615,-9223372036854775808]"));
    assert!(fits(&format!("[\"e{}\"]", "9".repeat(40))));
}

#[test]
fn journal_beyond_the_limits_is_refused() {
    let long_keys = format!(
        "{{\"{}\":{{\"{}\":1}}}}",
        "a".repeat(40_000),
        "b".repeat(40_000)
    );
    assert_eq!(journal().entries(&long_keys).err(), Some(JournalError::StorageRead));
    let cut_key = format!("{{\"{}\u{e9}\":1}}", "a".repeat(65_535));
    assert_eq!(journal().entries(&cut_key).err(), Some(JournalError::StorageRead));
    let deep = "[".repeat(1_000_000);
    assert_eq!(journal().entries(&deep).err(), Some(JournalError::StorageRead));
    let exponent = "[1e11111111111111111111]";
    assert_eq!(journal().entries(exponent).err(), Some(JournalError::StorageRead));
    assert_eq!(
        journal().upsert_entry(&deep, note(1, "a")).err(),
        Some(JournalError::StorageRead)
    );
    assert_eq!(journal().undo_last_entry(&deep).err(), Some(JournalError::StorageRead));
}

#[test]
fn journal_at_the_limits_is_parsed() {
    assert_eq!(journal().entries(&nested(64)).err(), Some(JournalError::StorageRead));
    let deep_member = stored_with("extra", &nested(62));
    assert_eq!(journal().entries(&deep_member).unwrap().len(), 1);
    let long_key = stored_with(&"k".repeat(255), "1");
    assert_eq!(journal().entries(&long_key).unwrap().len(), 1);
    let exponent = stored_with("extra", "1e000000000000000002");
    assert_eq!(journal().entries(&exponent).unwrap().len(), 1);
}

#[test]
fn long_entries_are_written_and_read() {
    let long = "word ".repeat(20_000);
    let text = journal().upsert_entry("", note(1, &long)).unwrap();
    let entries = journal().entries(&text).unwrap();
    assert_eq!(entries[0].content(), &long);
    assert_eq!(entries[0].title(), &Some(long.clone()));
}

#[test]
fn instants_are_read_back_as_themselves() {
    for text in [
        "2016-12-31T23:59:60Z",
        "2016-12-31T23:59:60.5+00:00",
        "0000-01-01T00:00:00Z",
        "9999-12-31T23:59:59.999999999Z",
        "+262142-12-31T23:59:59.999999999Z",
        "-262143-01-01T00:00:00Z",
        "-0001-06-15T12:00:00.123+05:30",
        "1969-12-31T23:59:59.000001-08:00",
        "2024-02-29 12:00:00.120Z",
    ] {
        let stored = stored_with("created_at", &format!("\"{}\"", text));
        let first = journal().entries(&stored).unwrap().remove(0).created_at().clone();
        let again = stored_with("created_at", &format!("\"{}\"", first));
        let second = journal().entries(&again).unwrap().remove(0).created_at().clone();
        assert_eq!(first, second);
    }
}

#[test]
fn identifiers_are_read_back_from_their_text() {
    for id in [0u128, 1, u128::MAX, 0xa1a2a3a4b1b2c1c2d1d2d3d4d5d6d7d8, 1 << 127, 0xffff << 64] {
        let text = journal().upsert_entry("", note(id, "x")).unwrap();
        assert_eq!(journal().entries(&text).unwrap()[0].id(), id);
    }
}

#[test]
fn every_character_is_written_and_read() {
    let mut content = String::from("all of them: ");
    for code in 0..=0x10ffffu32 {
        if let Some(c) = char::from_u32(code) {
            content.push(c);
        }
    }
    let text = journal().upsert_entry("", note(1, &content)).unwrap();
    let entries = journal().entries(&text).unwrap();
    assert_eq!(entries[0].content(), &content);
    assert_eq!(entries[0].title(), &Some("all of them: \u{0}\u{1}\u{2}\u{3}\u{4}\u{5}\u{6}\u{7}\u{8}\t".to_string()));
}

#[test]
fn written_journal_is_read_without_its_line_break_too() {
    let text = journal().upsert_entry(STORED, note(3, "Third")).unwrap();
    let bare = text.trim_end_matches('\n');
    assert_eq!(journal().entries(bare).unwrap().len(), 3);
    assert_eq!(journal().entries(&text).unwrap().len(), 3);
    assert_eq!(journal().entries(&format!("{}\n", text)).unwrap().len(), 3);
    assert_eq!(journal().entries("\n").err(), Some(JournalError::StorageRead));
    assert_eq!(journal().entries("\n\n").err(), Some(JournalError::StorageRead));
    assert_eq!(journal().entries(" []  \n").unwrap().len(), 0);
}
