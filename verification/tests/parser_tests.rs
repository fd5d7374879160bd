use rjrn::config::Config;
use rjrn::error::JournalError;
use rjrn::file_journal::FileJournal;
use rjrn::journal::Journal;
use rjrn::scan::fits;
use rjrn::text::trim;
use rustc_serialize::json::Json;

struct Shown {
    text: String,
    answered: bool,
}

impl Drop for Shown {
    fn drop(&mut self) {
        if !self.answered {
            println!("no answer on: {:?}", self.text);
        }
    }
}

struct Dice {
    state: u64,
}

impl Dice {
    fn roll(&mut self, sides: usize) -> usize {
        self.state = self
            .state
            .wrapping_mul(6364136223846793005)
            .wrapping_add(1442695040888963407);
        ((self.state >> 33) as usize) % sides
    }
}

const SCALARS: [&str; 12] = [
    "1",
    "0",
    "-7",
    "2.5",
    "1e3",
    "-0.5E-2",
    "true",
    "false",
    "null",
    "\"s\"",
    "\"\"",
    "\"a\\\"b\\\\\\u00e9\"",
];

const KEYS: [&str; 4] = ["\"k\"", "\"type\"", "\"journals\"", "\"\""];

const PIECES: [&str; 16] =
    ["{", "}", "[", "]", ",", ":", "\"", "\\", " ", "\n", "1", "e", "-", "\"k\"", "tru", "."];

fn value(dice: &mut Dice, depth: usize, pieces: &mut Vec<&'static str>) {
    let kind = if depth == 0 { 0 } else { dice.roll(4) };
    match kind {
        0 | 1 => pieces.push(SCALARS[dice.roll(SCALARS.len())]),
        2 => {
            pieces.push("[");
            let items = dice.roll(4);
            for at in 0..items {
                if at > 0 {
                    pieces.push(",");
                }
                value(dice, depth - 1, pieces);
            }
            pieces.push("]");
        }
        _ => {
            pieces.push("{");
            let members = dice.roll(4);
            for at in 0..members {
                if at > 0 {
                    pieces.push(",");
                }
                pieces.push(KEYS[dice.roll(KEYS.len())]);
                pieces.push(":");
                value(dice, depth - 1, pieces);
            }
            pieces.push("}");
        }
    }
}

fn spoil(dice: &mut Dice, pieces: &mut Vec<&'static str>) {
    let changes = 1 + dice.roll(3);
    for _ in 0..changes {
        let at = dice.roll(pieces.len() + 1);
        match dice.roll(4) {
            0 if at < pieces.len() => {
                pieces.remove(at);
            }
            1 if at < pieces.len() => pieces[at] = PIECES[dice.roll(PIECES.len())],
            2 if at < pieces.len() => {
                let other = dice.roll(pieces.len());
                pieces.swap(at, other);
            }
            _ => pieces.insert(at, PIECES[dice.roll(PIECES.len())]),
        }
    }
}

fn answers(text: String) -> bool {
    let mut shown = Shown { text, answered: false };
    let journal = FileJournal::new("notes", "/tmp/notes.json", true, true).unwrap();
    let fitting = fits(&shown.text);
    let entries = journal.entries(&shown.text);
    let registry = Config::load(&shown.text);
    if !fitting && !shown.text.is_empty() {
        assert_eq!(entries.err(), Some(JournalError::StorageRead));
        assert_eq!(registry.err(), Some(JournalError::RegistryParse));
    }
    shown.answered = true;
    fitting
}

fn spoiled_texts_are_answered(seed: u64) {
    let mut dice = Dice { state: seed };
    let mut fitting = 0;
    let mut refused = 0;
    for _ in 0..150_000 {
        let mut pieces = Vec::new();
        value(&mut dice, 5, &mut pieces);
        spoil(&mut dice, &mut pieces);
        if answers(pieces.concat()) {
            fitting += 1;
        } else {
            refused += 1;
        }
    }
    assert!(fitting > 1000);
    assert!(refused > 100);
}

#[test]
fn spoiled_texts_are_answered_first() {
    spoiled_texts_are_answered(1);
}

#[test]
fn spoiled_texts_are_answered_second() {
    spoiled_texts_are_answered(0x9e3779b97f4a7c15);
}

#[test]
fn spoiled_texts_are_answered_third() {
    spoiled_texts_are_answered(0xdead_beef_cafe);
}

#[test]
fn spoiled_texts_are_answered_fourth() {
    spoiled_texts_are_answered(42);
}

#[test]
fn sound_texts_fit_and_parse() {
    let mut dice = Dice { state: 7 };
    for _ in 0..100_000 {
        let mut pieces = Vec::new();
        value(&mut dice, 6, &mut pieces);
        let text = pieces.concat();
        assert!(fits(&text), "{}", text);
        assert!(Json::from_str(&text).is_ok(), "{}", text);
    }
}

fn pieces_of_length(length: usize, first: usize) {
    let mut counter = vec![0usize; length];
    counter[0] = first;
    loop {
        let text: String = counter.iter().map(|at| PIECES[*at]).collect();
        answers(text);
        let mut place = length;
        loop {
            if place == 1 {
                return;
            }
            place -= 1;
            counter[place] += 1;
            if counter[place] < PIECES.len() {
                break;
            }
            counter[place] = 0;
        }
    }
}

#[test]
fn every_text_of_few_pieces_is_answered() {
    for length in 1..=4 {
        for first in 0..PIECES.len() {
            pieces_of_length(length, first);
        }
    }
}

#[test]
fn every_text_of_five_pieces_is_answered() {
    for first in 0..PIECES.len() {
        pieces_of_length(5, first);
    }
}

#[test]
fn closing_brace_behind_a_comma_is_refused_in_a_journal() {
    let text = "[{\"k\":{\"a\":1,},\"z\":1}]";
    assert!(!fits(text));
    let journal = FileJournal::new("notes", "/tmp/notes.json", true, true).unwrap();
    assert_eq!(journal.entries(text).err(), Some(JournalError::StorageRead));
    assert_eq!(journal.undo_last_entry(text).err(), Some(JournalError::StorageRead));
}

#[test]
fn closing_brace_behind_a_comma_is_refused_in_the_registry() {
    let text = "{\"journals\":[{\"a\":{\"b\":1,},\"type\":\"x\"}]}";
    assert!(!fits(text));
    assert_eq!(Config::load(text).err(), Some(JournalError::RegistryParse));
}

#[test]
fn closing_brace_behind_a_comma_is_refused_wherever_it_stands() {
    assert!(!fits("{\"a\":1,}"));
    assert!(!fits("{\"a\":1 , \n }"));
    assert!(!fits("[{\"a\":{\"b\":[1,{\"c\":2,\t}]}}]"));
    assert!(!fits("[1,}"));
    assert!(fits("{\"a\":\",}\"}"));
    assert!(fits("{\"a\":[1,2],\"b\":{}}"));
    assert!(fits("[{},{}]"));
    assert!(fits("[\",\",{}]"));
    assert!(fits("{\"a\":1,\"b\":\"x\"}"));
}

#[test]
fn numbers_with_exponents_are_parsed() {
    let journal = FileJournal::new("notes", "/tmp/notes.json", true, true).unwrap();
    assert_eq!(journal.entries("[1e5]").err(), Some(JournalError::StorageRead));
    let registry = Config::load("{\"journals\":[],\"version\":1.5e-3}").unwrap();
    assert!(registry.file_journals.is_empty());
}

#[test]
fn trim_keeps_what_the_standard_library_keeps() {
    let mut dice = Dice { state: 3 };
    let letters = [' ', '\t', '\n', '\r', 'a', 'b', '\u{a0}', '\u{2003}', '\u{3000}', '\u{85}', 'é', '.'];
    for _ in 0..50_000 {
        let length = dice.roll(8);
        let text: String = (0..length).map(|_| letters[dice.roll(letters.len())]).collect();
        assert_eq!(trim(&text), text.trim());
    }
    for code in 0..=0x10ffffu32 {
        if let Some(c) = char::from_u32(code) {
            let text = format!("{}a {} b{}", c, c, c);
            assert_eq!(trim(&text), text.trim());
        }
    }
}

#[test]
fn trim_of_nothing_but_white_space_is_empty() {
    assert_eq!(trim(""), "");
    assert_eq!(trim(" \t\r\n\u{2028}\u{2029}\u{205f}\u{1680}"), "");
    assert_eq!(trim("x"), "x");
    assert_eq!(trim(" x"), "x");
    assert_eq!(trim("x "), "x");
    assert_eq!(trim("  a  b  "), "a  b");
}

const MARKS: [char; 22] = [
    '{', '}', '[', ']', ',', ':', '"', '\\', ' ', '\n', '1', '0', 'e', 'E', '-', '+', '.', 'u', 't',
    'n', '\u{e9}', '\u{0}',
];

fn marred_texts_are_answered(seed: u64) {
    let mut dice = Dice { state: seed };
    for _ in 0..120_000 {
        let mut pieces = Vec::new();
        value(&mut dice, 5, &mut pieces);
        let mut text: Vec<char> = pieces.concat().chars().collect();
        let changes = 1 + dice.roll(4);
        for _ in 0..changes {
            let at = dice.roll(text.len() + 1);
            match dice.roll(3) {
                0 if at < text.len() => {
                    text.remove(at);
                }
                1 if at < text.len() => text[at] = MARKS[dice.roll(MARKS.len())],
                _ => text.insert(at, MARKS[dice.roll(MARKS.len())]),
            }
        }
        answers(text.into_iter().collect());
    }
}

#[test]
fn marred_texts_are_answered_first() {
    marred_texts_are_answered(11);
}

#[test]
fn marred_texts_are_answered_second() {
    marred_texts_are_answered(0x1234_5678_9abc_def0);
}

#[test]
fn marred_texts_are_answered_third() {
    marred_texts_are_answered(0xfeed_f00d);
}

fn grown(dice: &mut Dice) -> String {
    match dice.roll(8) {
        0 => format!("\"{}\"", "k".repeat(250 + dice.roll(12))),
        1 => format!("\"{}\"", "\u{10348}".repeat(16_380 + dice.roll(8))),
        2 => "[".repeat(60 + dice.roll(10)),
        3 => "{\"a\":".repeat(60 + dice.roll(10)),
        4 => format!("1e{}", "9".repeat(15 + dice.roll(8))),
        5 => format!("-{}", "9".repeat(15 + dice.roll(8))),
        6 => format!("\"{}\"", "\\u00e9".repeat(250 + dice.roll(12))),
        _ => format!("0.{}", "3".repeat(300 + dice.roll(100))),
    }
}

#[test]
fn grown_texts_are_answered() {
    let mut dice = Dice { state: 5 };
    for _ in 0..4_000 {
        let mut pieces = Vec::new();
        value(&mut dice, 4, &mut pieces);
        let mut parts: Vec<String> = pieces.iter().map(|piece| piece.to_string()).collect();
        let changes = 1 + dice.roll(3);
        for _ in 0..changes {
            let at = dice.roll(parts.len() + 1);
            let part = grown(&mut dice);
            if at < parts.len() && dice.roll(2) == 0 {
                parts[at] = part;
            } else {
                parts.insert(at, part);
            }
        }
        answers(parts.concat());
    }
}

#[test]
fn keys_of_many_bytes_are_answered() {
    for depth in [1, 2, 16, 63, 64] {
        for length in [1, 254, 255] {
            let key = "\u{10348}".repeat(length);
            let text = format!(
                "{}1{}",
                format!("{{\"{}\":", key).repeat(depth),
                "}".repeat(depth)
            );
            assert!(fits(&text));
            assert!(Json::from_str(&text).is_ok());
            assert!(answers(text));
        }
    }
}

fn entry_with(member: &str, value: &str) -> String {
    let mut members = vec![
        ("id", "\"00000000-0000-0000-0000-000000000001\"".to_string()),
        ("content", "\"x\"".to_string()),
        ("updated_at", "\"2016-03-02T10:00:00+00:00\"".to_string()),
        ("created_at", "\"2016-03-02T10:00:00+00:00\"".to_string()),
        ("starred", "false".to_string()),
        ("tags", "[]".to_string()),
    ];
    for (key, held) in members.iter_mut() {
        if *key == member {
            *held = format!("\"{}\"", value);
        }
    }
    let text: Vec<String> =
        members.iter().map(|(key, held)| format!("\"{}\":{}", key, held)).collect();
    format!("[{{{}}}]", text.join(","))
}

fn shaped(dice: &mut Dice, marks: &[&str], sound: &str) -> String {
    let mut text: Vec<String> = if dice.roll(3) == 0 {
        Vec::new()
    } else {
        sound.chars().map(|c| c.to_string()).collect()
    };
    let changes = 1 + dice.roll(6);
    for _ in 0..changes {
        let at = dice.roll(text.len() + 1);
        match dice.roll(3) {
            0 if at < text.len() => {
                text.remove(at);
            }
            1 if at < text.len() => text[at] = marks[dice.roll(marks.len())].to_string(),
            _ => text.insert(at, marks[dice.roll(marks.len())].to_string()),
        }
    }
    text.concat()
}

#[test]
fn identifiers_of_any_shape_are_answered() {
    let marks = [
        "0", "1", "9", "a", "f", "A", "F", "g", "-", "{", "}", "urn:uuid:", ":", " ", "\u{e9}",
        "\u{10348}", "0000", "-0000-",
    ];
    let sounds = [
        "a1a2a3a4-b1b2-c1c2-d1d2-d3d4d5d6d7d8",
        "a1a2a3a4b1b2c1c2d1d2d3d4d5d6d7d8",
        "{a1a2a3a4-b1b2-c1c2-d1d2-d3d4d5d6d7d8}",
        "urn:uuid:a1a2a3a4-b1b2-c1c2-d1d2-d3d4d5d6d7d8",
    ];
    let mut dice = Dice { state: 17 };
    for _ in 0..150_000 {
        let sound = sounds[dice.roll(sounds.len())];
        answers(entry_with("id", &shaped(&mut dice, &marks, sound)));
    }
}

#[test]
fn instants_of_any_shape_are_answered() {
    let marks = [
        "0", "1", "2", "5", "6", "9", "-", "+", ":", ".", "T", "t", "Z", "z", " ", "UTC", "60",
        "99", "262143", "-262144", "\u{e9}", "\u{10348}", "000000000000", "24", "31",
    ];
    let sounds = [
        "2016-03-02T10:00:00+00:00",
        "2016-12-31T23:59:60.123456789Z",
        "+262142-12-31T23:59:59.999999999-23:59",
        "-262143-01-01T00:00:00+23:59",
        "0000-02-29 12:00:00UTC",
    ];
    let mut dice = Dice { state: 19 };
    for _ in 0..150_000 {
        let sound = sounds[dice.roll(sounds.len())];
        let text = entry_with("created_at", &shaped(&mut dice, &marks, sound));
        let journal = FileJournal::new("notes", "/tmp/notes.json", true, true).unwrap();
        let mut shown = Shown { text, answered: false };
        if let Ok(entries) = journal.entries(&shown.text) {
            let again = entry_with("created_at", entries[0].created_at());
            let back = journal.entries(&again).unwrap();
            assert_eq!(back[0].created_at(), entries[0].created_at());
        }
        shown.answered = true;
    }
}
