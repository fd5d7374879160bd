//! The texts that the JSON parser can be given.
//!
//! The parser of `rustc_serialize` gives up on some texts instead of
//! answering: it calls itself once for every array and object that is open,
//! it keeps the keys of the objects that are open in one buffer that it
//! measures in 16 bits, it counts the items of an array in 32 bits, it
//! gathers the digits of an exponent in one machine word, and at a closing
//! brace behind a comma it forgets where it stands in the enclosing value.
//! A text is scanned here before it is parsed, and is parsed only where it
//! stays within limits that keep the parser from all of these.
//!
//! The scan reads a text as the parser does up to the place where the
//! parser reports an error: a string begins at a quote outside strings and
//! ends at the next quote that no backslash took, and arrays and objects
//! open and close at brackets and braces outside strings.

use vstd::prelude::*;
use vstd::std_specs::iter::IteratorSpec;

verus! {

/// How many arrays and objects may be open at a time.
pub const MAX_DEPTH: usize = 64;

/// How many characters, as the text spells them, a key may have. A character
/// takes four bytes at most, so the keys of the objects that are open take
/// fewer than 65,536 bytes together.
pub const MAX_KEY: usize = 255;

/// How many digits an exponent may have.
pub const MAX_EXPONENT: usize = 18;

/// How many characters a text may have.
pub const MAX_TEXT: u64 = 0xffff_ffff;

/// Where a scan stands after some characters of a text.
pub struct Scan {
    /// How many characters were read.
    pub seen: nat,
    /// The arrays and objects that are open, the outermost first: `true`
    /// for an object.
    pub open: Seq<bool>,
    /// Whether the scan stands inside a string.
    pub in_string: bool,
    /// Whether the last character of the string was a backslash that takes
    /// the next character with it.
    pub escaped: bool,
    /// Whether the string stands where an object has its keys: directly in
    /// an object, and not behind a colon.
    pub is_key: bool,
    /// How many characters of a key were read.
    pub length: nat,
    /// The last character outside strings that is no white space, with the
    /// quote that ended a string counted as one.
    pub last: Option<char>,
    /// How many digits were read of an exponent, if the scan stands in one.
    pub exponent: Option<nat>,
    /// Whether a closing brace stood directly behind a comma.
    pub dangling: bool,
}

/// Where a scan begins.
pub open spec fn scan_start() -> Scan {
    Scan {
        seen: 0,
        open: Seq::empty(),
        in_string: false,
        escaped: false,
        is_key: false,
        length: 0,
        last: None,
        exponent: None,
        dangling: false,
    }
}

/// Whether a scan has stayed within the limits.
pub open spec fn is_within(scan: Scan) -> bool {
    &&& scan.seen <= MAX_TEXT
    &&& scan.open.len() <= MAX_DEPTH
    &&& scan.length <= MAX_KEY
    &&& scan.exponent matches Some(digits) ==> digits <= MAX_EXPONENT
    &&& !scan.dangling
}

/// A scan inside a string, after one more character: a backslash takes the
/// next character with it, and a quote that no backslash took ends the
/// string.
pub open spec fn step_inside(scan: Scan, c: char) -> Scan {
    let longer = if scan.is_key {
        scan.length + 1
    } else {
        scan.length
    };
    if scan.escaped {
        Scan { escaped: false, length: longer as nat, ..scan }
    } else if c == '\\' {
        Scan { escaped: true, length: longer as nat, ..scan }
    } else if c == '"' {
        Scan { in_string: false, is_key: false, length: 0, last: Some('"'), ..scan }
    } else {
        Scan { length: longer as nat, ..scan }
    }
}

/// The arrays and objects that are open after one more character outside
/// strings.
pub open spec fn open_after(open: Seq<bool>, c: char) -> Seq<bool> {
    if c == '{' || c == '[' {
        open.push(c == '{')
    } else if (c == '}' || c == ']') && open.len() > 0 {
        open.drop_last()
    } else {
        open
    }
}

/// The digits of the exponent after one more character outside strings: an
/// exponent begins behind `e` or `E`, may have a sign before its first
/// digit, and ends at any other character than a digit.
pub open spec fn exponent_after(exponent: Option<nat>, c: char) -> Option<nat> {
    if c == 'e' || c == 'E' {
        Some(0)
    } else if c == '+' || c == '-' {
        if exponent == Some(0nat) {
            exponent
        } else {
            None
        }
    } else if '0' <= c <= '9' {
        match exponent {
            Some(digits) => Some(digits + 1),
            None => None,
        }
    } else {
        None
    }
}

/// Whether a character is white space to the parser.
pub open spec fn is_blank(c: char) -> bool {
    c == ' ' || c == '\n' || c == '\t' || c == '\r'
}

/// A scan outside strings, after one more character.
pub open spec fn step_outside(scan: Scan, c: char) -> Scan {
    if c == '"' {
        Scan {
            in_string: true,
            escaped: false,
            is_key: scan.open.len() > 0 && scan.open.last() && scan.last != Some(':'),
            length: 0,
            exponent: None,
            ..scan
        }
    } else if is_blank(c) {
        Scan { exponent: None, ..scan }
    } else {
        Scan {
            open: open_after(scan.open, c),
            last: Some(c),
            exponent: exponent_after(scan.exponent, c),
            dangling: c == '}' && scan.last == Some(','),
            ..scan
        }
    }
}

/// A scan after one more character. A scan that has left the limits stays
/// where it is.
pub open spec fn scan_step(scan: Scan, c: char) -> Scan {
    if !is_within(scan) {
        scan
    } else if scan.in_string {
        Scan { seen: scan.seen + 1, ..step_inside(scan, c) }
    } else {
        Scan { seen: scan.seen + 1, ..step_outside(scan, c) }
    }
}

/// Where a scan stands after all of a text.
pub open spec fn scanned(text: Seq<char>) -> Scan
    decreases text.len(),
{
    if text.len() == 0 {
        scan_start()
    } else {
        scan_step(scanned(text.drop_last()), text.last())
    }
}

/// Whether a text stays within the limits: it has no more characters than
/// `MAX_TEXT`, never more arrays and objects open than `MAX_DEPTH`, no
/// string longer than `MAX_KEY` where an object has its keys, no exponent of
/// more digits than `MAX_EXPONENT`, and no closing brace directly behind a
/// comma.
pub open spec fn is_parsable(text: Seq<char>) -> bool {
    is_within(scanned(text))
}

/// A scan that has left the limits at some place of a text is still there
/// at the end of the text.
pub proof fn lemma_scan_stays(text: Seq<char>, at: int)
    requires
        0 <= at <= text.len(),
        !is_within(scanned(text.take(at))),
    ensures
        scanned(text) == scanned(text.take(at)),
    decreases text.len() - at,
{
    if at < text.len() {
        assert(text.take(at + 1).drop_last() =~= text.take(at));
        lemma_scan_stays(text, at + 1);
    } else {
        assert(text.take(at) =~= text);
    }
}

/// A scan as the machine holds it.
struct Scanner {
    seen: u64,
    open: Vec<bool>,
    in_string: bool,
    escaped: bool,
    is_key: bool,
    length: usize,
    last: Option<char>,
    exponent: Option<usize>,
    dangling: bool,
}

impl View for Scanner {
    type V = Scan;

    closed spec fn view(&self) -> Scan {
        Scan {
            seen: self.seen as nat,
            open: self.open@,
            in_string: self.in_string,
            escaped: self.escaped,
            is_key: self.is_key,
            length: self.length as nat,
            last: self.last,
            exponent: match self.exponent {
                Some(digits) => Some(digits as nat),
                None => None,
            },
            dangling: self.dangling,
        }
    }
}

impl Scanner {
    fn start() -> (scanner: Scanner)
        ensures
            scanner@ == scan_start(),
    {
        Scanner {
            seen: 0,
            open: Vec::new(),
            in_string: false,
            escaped: false,
            is_key: false,
            length: 0,
            last: None,
            exponent: None,
            dangling: false,
        }
    }

    fn within(&self) -> (within: bool)
        ensures
            within == is_within(self@),
    {
        let short = match self.exponent {
            Some(digits) => digits <= MAX_EXPONENT,
            None => true,
        };
        self.seen <= MAX_TEXT && self.open.len() <= MAX_DEPTH && self.length <= MAX_KEY && short
            && !self.dangling
    }

    fn was(&self, c: char) -> (was: bool)
        ensures
            was == (self@.last == Some(c)),
    {
        match self.last {
            Some(last) => last == c,
            None => false,
        }
    }

    fn step_inside(&mut self, c: char)
        requires
            is_within(old(self)@),
        ensures
            final(self)@ == step_inside(old(self)@, c),
    {
        if !self.escaped && c == '"' {
            self.in_string = false;
            self.is_key = false;
            self.length = 0;
            self.last = Some('"');
        } else {
            self.escaped = !self.escaped && c == '\\';
            if self.is_key {
                self.length = self.length + 1;
            }
        }
    }

    fn step_outside(&mut self, c: char)
        requires
            is_within(old(self)@),
        ensures
            final(self)@ == step_outside(old(self)@, c),
    {
        if c == '"' {
            let depth = self.open.len();
            self.is_key = depth > 0 && self.open[depth - 1] && !self.was(':');
            self.in_string = true;
            self.escaped = false;
            self.length = 0;
            self.exponent = None;
        } else if c == ' ' || c == '\n' || c == '\t' || c == '\r' {
            self.exponent = None;
        } else {
            self.dangling = c == '}' && self.was(',');
            if c == '{' || c == '[' {
                self.open.push(c == '{');
            } else if (c == '}' || c == ']') && self.open.len() > 0 {
                self.open.pop();
            }
            self.exponent = if c == 'e' || c == 'E' {
                Some(0)
            } else if c == '+' || c == '-' {
                match self.exponent {
                    Some(digits) if digits == 0 => Some(0),
                    _ => None,
                }
            } else if '0' <= c && c <= '9' {
                match self.exponent {
                    Some(digits) => Some(digits + 1),
                    None => None,
                }
            } else {
                None
            };
            self.last = Some(c);
        }
    }

    fn step(&mut self, c: char)
        requires
            is_within(old(self)@),
        ensures
            final(self)@ == scan_step(old(self)@, c),
    {
        if self.in_string {
            self.step_inside(c);
        } else {
            self.step_outside(c);
        }
        self.seen = self.seen + 1;
    }
}

/// Whether a text stays within the limits.
pub fn fits(text: &str) -> (fitting: bool)
    ensures
        fitting == is_parsable(text@),
{
    let mut scanner = Scanner::start();
    let mut rest = text.chars();
    let ghost mut seen: Seq<char> = Seq::empty();
    loop
        invariant
            rest.decrease() is Some,
            seen + rest.remaining() == text@,
            scanner@ == scanned(seen),
            is_within(scanner@),
        decreases rest.decrease()->0,
    {
        match rest.next() {
            Some(c) => {
                scanner.step(c);
                proof {
                    assert(seen.push(c).drop_last() =~= seen);
                    seen = seen.push(c);
                }
                if !scanner.within() {
                    proof {
                        assert(text@.take(seen.len() as int) =~= seen);
                        lemma_scan_stays(text@, seen.len() as int);
                    }
                    return false;
                }
            },
            None => {
                assert(seen =~= text@);
                return true;
            },
        }
    }
}

} // verus!
