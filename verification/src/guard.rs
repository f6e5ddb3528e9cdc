//! Which texts the parser can be given.
//!
//! The parser does not return on a text in which a reserved word stands as a type
//! annotation, `(true)` for one, unless enough of the text follows the word. Whether
//! a parenthesis opens an annotation depends on where it lies: not in a quoted text,
//! a raw text or a comment. This module follows a text character by character to
//! tell.

use vstd::prelude::*;
use crate::text::chars_of;

verus! {

/// Where a place of a text lies.
pub enum Place {
    /// Among nodes, names and values.
    Code,
    /// Among them, behind an `r` and this many `#`: a raw text begins if `"` follows.
    AfterR(nat),
    /// Among them, behind a `/`: a comment begins if `/` or `*` follows.
    AfterSlash,
    /// In a quoted text.
    Text,
    /// In a quoted text, behind a backslash.
    Escape,
    /// In a raw text that ends with `"` and this many `#`.
    Raw(nat),
    /// In such a raw text, behind a `"` and some `#`, fewer than end it.
    RawEnd(nat, nat),
    /// In a comment that ends with the line.
    Line,
    /// In a comment between `/*` and `*/`, this many of them deep.
    Block(nat),
    /// In such a comment, behind a `/`.
    BlockSlash(nat),
    /// In such a comment, behind a `*`.
    BlockStar(nat),
}

/// Whether a character ends a line.
pub open spec fn is_newline(c: char) -> bool {
    c == '\r' || c == '\n' || c == '\u{85}' || c == '\u{c}' || c == '\u{2028}' || c == '\u{2029}'
}

/// Whether a character is a blank.
pub open spec fn is_blank(c: char) -> bool {
    c == ' ' || c == '\t' || c == '\u{feff}' || c == '\u{a0}' || c == '\u{1680}' || ('\u{2000}'
        <= c && c <= '\u{200a}') || c == '\u{202f}' || c == '\u{205f}' || c == '\u{3000}'
}

/// Whether a character has a meaning of its own between names.
pub open spec fn is_mark(c: char) -> bool {
    c == '\\' || c == '/' || c == '(' || c == ')' || c == '{' || c == '}' || c == '<' || c == '>'
        || c == ';' || c == '[' || c == ']' || c == '=' || c == ',' || c == '"'
}

/// Whether a character can stand in a name that is written without quotes.
pub open spec fn is_identifier_char(c: char) -> bool {
    c >= ' ' && !is_mark(c) && !is_newline(c) && !is_blank(c)
}

/// Where the place behind `c` lies, if the place before it lies among nodes, names and
/// values.
pub open spec fn code_step(c: char) -> Place {
    if c == '"' {
        Place::Text
    } else if c == 'r' {
        Place::AfterR(0)
    } else if c == '/' {
        Place::AfterSlash
    } else {
        Place::Code
    }
}

/// Where the place behind `c` lies, given where the place before it lies.
pub open spec fn step(place: Place, c: char) -> Place {
    match place {
        Place::Code => code_step(c),
        Place::AfterR(n) => if c == '#' {
            Place::AfterR(n + 1)
        } else if c == '"' {
            Place::Raw(n)
        } else {
            code_step(c)
        },
        Place::AfterSlash => if c == '/' {
            Place::Line
        } else if c == '*' {
            Place::Block(1)
        } else {
            code_step(c)
        },
        Place::Text => if c == '\\' {
            Place::Escape
        } else if c == '"' {
            Place::Code
        } else {
            Place::Text
        },
        Place::Escape => Place::Text,
        Place::Raw(n) => if c != '"' {
            Place::Raw(n)
        } else if n == 0 {
            Place::Code
        } else {
            Place::RawEnd(n, 0)
        },
        Place::RawEnd(n, k) => if c == '#' {
            if k + 1 >= n {
                Place::Code
            } else {
                Place::RawEnd(n, k + 1)
            }
        } else if c == '"' {
            Place::RawEnd(n, 0)
        } else {
            Place::Raw(n)
        },
        Place::Line => if is_newline(c) {
            Place::Code
        } else {
            Place::Line
        },
        Place::Block(d) => if c == '*' {
            Place::BlockStar(d)
        } else if c == '/' {
            Place::BlockSlash(d)
        } else {
            Place::Block(d)
        },
        Place::BlockSlash(d) => if c == '*' {
            Place::Block(d + 1)
        } else if c == '/' {
            Place::BlockSlash(d)
        } else {
            Place::Block(d)
        },
        Place::BlockStar(d) => if c == '/' {
            if d <= 1 {
                Place::Code
            } else {
                Place::Block((d - 1) as nat)
            }
        } else if c == '*' {
            Place::BlockStar(d)
        } else {
            Place::Block(d)
        },
    }
}

/// Where the place before the character at `at` lies.
pub open spec fn place_at(s: Seq<char>, at: int) -> Place
    decreases at,
{
    if at <= 0 || at > s.len() {
        Place::Code
    } else {
        step(place_at(s, at - 1), s[at - 1])
    }
}

/// Whether a place lies among nodes, names and values.
pub open spec fn in_code(place: Place) -> bool {
    place is Code || place is AfterR || place is AfterSlash
}

/// The number of bytes that a character takes in a text.
pub open spec fn utf8_width(c: char) -> int {
    if c <= '\u{7f}' {
        1
    } else if c <= '\u{7ff}' {
        2
    } else if c <= '\u{ffff}' {
        3
    } else {
        4
    }
}

/// Whether a character ends exactly `bytes` bytes behind the place `from`.
pub open spec fn cuts_at_boundary(s: Seq<char>, from: int, bytes: int) -> bool
    decreases bytes,
{
    if bytes <= 0 {
        bytes == 0
    } else if from < 0 || from >= s.len() || utf8_width(s[from]) > bytes {
        false
    } else {
        cuts_at_boundary(s, from + 1, bytes - utf8_width(s[from]))
    }
}

/// Whether `word` stands in `s` at place `at`.
pub open spec fn stands_at(s: Seq<char>, at: int, word: Seq<char>) -> bool {
    0 <= at && at + word.len() <= s.len() && forall|k: int|
        0 <= k < word.len() ==> s[at + k] == #[trigger] word[k]
}

/// Whether `word` is the whole name of a type annotation that opens at place `at`, and
/// the text behind it cannot be cut after as many bytes as the word has.
pub open spec fn word_stops_parser(s: Seq<char>, at: int, word: Seq<char>) -> bool {
    let behind = at + 1 + word.len();
    &&& 0 <= at < s.len()
    &&& in_code(place_at(s, at))
    &&& s[at] == '('
    &&& stands_at(s, at + 1, word)
    &&& (behind >= s.len() || !is_identifier_char(s[behind]))
    &&& !cuts_at_boundary(s, behind, word.len() as int)
}

/// The reserved word `true`.
pub open spec fn word_true() -> Seq<char> {
    seq!['t', 'r', 'u', 'e']
}

/// The reserved word `false`.
pub open spec fn word_false() -> Seq<char> {
    seq!['f', 'a', 'l', 's', 'e']
}

/// The reserved word `null`.
pub open spec fn word_null() -> Seq<char> {
    seq!['n', 'u', 'l', 'l']
}

/// Whether a reserved word at place `at` stops the parser.
pub open spec fn place_stops_parser(s: Seq<char>, at: int) -> bool {
    word_stops_parser(s, at, word_true()) || word_stops_parser(s, at, word_false())
        || word_stops_parser(s, at, word_null())
}

/// Whether the parser can be given the text: at no place of it a reserved word stops
/// the parser.
pub open spec fn is_readable(s: Seq<char>) -> bool {
    forall|at: int| 0 <= at < s.len() ==> !#[trigger] place_stops_parser(s, at)
}

/// Only a parenthesis among nodes, names and values stops the parser: none in a quoted
/// text, in a raw text or in a comment does.
pub proof fn only_code_stops_parser(s: Seq<char>, at: int)
    ensures
        place_stops_parser(s, at) ==> in_code(place_at(s, at)) && s[at] == '(',
{
}

/// A text without a parenthesis can be given to the parser.
pub proof fn text_without_parenthesis_is_readable(s: Seq<char>)
    requires
        forall|i: int| 0 <= i < s.len() ==> #[trigger] s[i] != '(',
    ensures
        is_readable(s),
{
    assert forall|at: int| 0 <= at < s.len() implies !#[trigger] place_stops_parser(s, at) by {
        assert(s[at] != '(');
    }
}

/// `Place`, with the counts as the machine holds them.
#[derive(Clone, Copy, Debug, PartialEq, Eq)]
pub enum Lexing {
    Code,
    AfterR(usize),
    AfterSlash,
    Text,
    Escape,
    Raw(usize),
    RawEnd(usize, usize),
    Line,
    Block(usize),
    BlockSlash(usize),
    BlockStar(usize),
}

impl View for Lexing {
    type V = Place;

    open spec fn view(&self) -> Place {
        match self {
            Lexing::Code => Place::Code,
            Lexing::AfterR(n) => Place::AfterR(*n as nat),
            Lexing::AfterSlash => Place::AfterSlash,
            Lexing::Text => Place::Text,
            Lexing::Escape => Place::Escape,
            Lexing::Raw(n) => Place::Raw(*n as nat),
            Lexing::RawEnd(n, k) => Place::RawEnd(*n as nat, *k as nat),
            Lexing::Line => Place::Line,
            Lexing::Block(d) => Place::Block(*d as nat),
            Lexing::BlockSlash(d) => Place::BlockSlash(*d as nat),
            Lexing::BlockStar(d) => Place::BlockStar(*d as nat),
        }
    }
}

/// The count that a place holds, 0 where it holds none.
pub open spec fn count_of(place: Place) -> nat {
    match place {
        Place::AfterR(n) => n,
        Place::Raw(n) => n,
        Place::RawEnd(n, _) => n,
        Place::Block(d) => d,
        Place::BlockSlash(d) => d,
        Place::BlockStar(d) => d,
        _ => 0,
    }
}

/// Whether a character ends a line.
pub fn newline(c: char) -> (yes: bool)
    ensures
        yes == is_newline(c),
{
    c == '\r' || c == '\n' || c == '\u{85}' || c == '\u{c}' || c == '\u{2028}' || c == '\u{2029}'
}

/// Whether a character can stand in a name that is written without quotes.
pub fn identifier_char(c: char) -> (yes: bool)
    ensures
        yes == is_identifier_char(c),
{
    let mark = c == '\\' || c == '/' || c == '(' || c == ')' || c == '{' || c == '}' || c == '<'
        || c == '>' || c == ';' || c == '[' || c == ']' || c == '=' || c == ',' || c == '"';
    let blank = c == ' ' || c == '\t' || c == '\u{feff}' || c == '\u{a0}' || c == '\u{1680}' || (
    '\u{2000}' <= c && c <= '\u{200a}') || c == '\u{202f}' || c == '\u{205f}' || c == '\u{3000}';
    c >= ' ' && !mark && !newline(c) && !blank
}

fn code_next(c: char) -> (next: Lexing)
    ensures
        next@ == code_step(c),
        count_of(next@) == 0,
{
    if c == '"' {
        Lexing::Text
    } else if c == 'r' {
        Lexing::AfterR(0)
    } else if c == '/' {
        Lexing::AfterSlash
    } else {
        Lexing::Code
    }
}

/// Where the place behind `c` lies, given where the place before it lies.
fn next_place(place: Lexing, c: char) -> (next: Lexing)
    requires
        count_of(place@) < usize::MAX,
    ensures
        next@ == step(place@, c),
        count_of(next@) <= count_of(place@) + 1,
{
    match place {
        Lexing::Code => code_next(c),
        Lexing::AfterR(n) => {
            if c == '#' {
                Lexing::AfterR(n + 1)
            } else if c == '"' {
                Lexing::Raw(n)
            } else {
                code_next(c)
            }
        },
        Lexing::AfterSlash => {
            if c == '/' {
                Lexing::Line
            } else if c == '*' {
                Lexing::Block(1)
            } else {
                code_next(c)
            }
        },
        Lexing::Text => {
            if c == '\\' {
                Lexing::Escape
            } else if c == '"' {
                Lexing::Code
            } else {
                Lexing::Text
            }
        },
        Lexing::Escape => Lexing::Text,
        Lexing::Raw(n) => {
            if c != '"' {
                Lexing::Raw(n)
            } else if n == 0 {
                Lexing::Code
            } else {
                Lexing::RawEnd(n, 0)
            }
        },
        Lexing::RawEnd(n, k) => {
            if c == '#' {
                if n == 0 || k >= n - 1 {
                    Lexing::Code
                } else {
                    Lexing::RawEnd(n, k + 1)
                }
            } else if c == '"' {
                Lexing::RawEnd(n, 0)
            } else {
                Lexing::Raw(n)
            }
        },
        Lexing::Line => {
            if newline(c) {
                Lexing::Code
            } else {
                Lexing::Line
            }
        },
        Lexing::Block(d) => {
            if c == '*' {
                Lexing::BlockStar(d)
            } else if c == '/' {
                Lexing::BlockSlash(d)
            } else {
                Lexing::Block(d)
            }
        },
        Lexing::BlockSlash(d) => {
            if c == '*' {
                Lexing::Block(d + 1)
            } else if c == '/' {
                Lexing::BlockSlash(d)
            } else {
                Lexing::Block(d)
            }
        },
        Lexing::BlockStar(d) => {
            if c == '/' {
                if d <= 1 {
                    Lexing::Code
                } else {
                    Lexing::Block(d - 1)
                }
            } else if c == '*' {
                Lexing::BlockStar(d)
            } else {
                Lexing::Block(d)
            }
        },
    }
}

/// Whether `word` stands in `chars` at place `at`.
fn stands(chars: &Vec<char>, at: usize, word: &Vec<char>) -> (yes: bool)
    ensures
        yes == stands_at(chars@, at as int, word@),
{
    if word.len() > chars.len() || at > chars.len() - word.len() {
        return false;
    }
    let mut k: usize = 0;
    while k < word.len()
        invariant
            k <= word.len(),
            at + word.len() <= chars.len(),
            forall|j: int| 0 <= j < k ==> chars@[at + j] == #[trigger] word@[j],
        decreases word.len() - k,
    {
        if chars[at + k] != word[k] {
            return false;
        }
        k += 1;
    }
    true
}

/// Whether a character ends exactly `bytes` bytes behind the place `from`.
fn cuts(chars: &Vec<char>, from: usize, bytes: usize) -> (yes: bool)
    ensures
        yes == cuts_at_boundary(chars@, from as int, bytes as int),
    decreases bytes,
{
    if bytes == 0 {
        true
    } else if from >= chars.len() {
        false
    } else {
        let c = chars[from];
        let width: usize = if c <= '\u{7f}' {
            1
        } else if c <= '\u{7ff}' {
            2
        } else if c <= '\u{ffff}' {
            3
        } else {
            4
        };
        if width > bytes {
            false
        } else {
            cuts(chars, from + 1, bytes - width)
        }
    }
}

/// Whether `word` stops the parser at place `at`, which lies as `place` says.
fn word_stops(chars: &Vec<char>, at: usize, place: Lexing, word: &Vec<char>) -> (yes: bool)
    requires
        at < chars.len(),
        place@ == place_at(chars@, at as int),
        0 < word.len() <= 5,
    ensures
        yes == word_stops_parser(chars@, at as int, word@),
{
    let code = match place {
        Lexing::Code => true,
        Lexing::AfterR(_) => true,
        Lexing::AfterSlash => true,
        _ => false,
    };
    if !code || chars[at] != '(' || !stands(chars, at + 1, word) {
        return false;
    }
    let behind = at + 1 + word.len();
    if behind < chars.len() && identifier_char(chars[behind]) {
        return false;
    }
    !cuts(chars, behind, word.len())
}

/// Where the end of a text lies.
pub fn place_behind(text: &str) -> (place: Lexing)
    ensures
        place@ == place_at(text@, text@.len() as int),
{
    let chars = chars_of(text);
    let mut place = Lexing::Code;
    let mut at: usize = 0;
    while at < chars.len()
        invariant
            at <= chars.len(),
            chars@ == text@,
            place@ == place_at(text@, at as int),
            count_of(place@) <= at,
        decreases chars.len() - at,
    {
        place = next_place(place, chars[at]);
        at += 1;
    }
    place
}

/// Whether the parser can be given the text.
pub fn readable(text: &str) -> (yes: bool)
    ensures
        yes == is_readable(text@),
{
    let chars = chars_of(text);
    let word_true: Vec<char> = vec!['t', 'r', 'u', 'e'];
    let word_false: Vec<char> = vec!['f', 'a', 'l', 's', 'e'];
    let word_null: Vec<char> = vec!['n', 'u', 'l', 'l'];
    assert(word_true@ =~= self::word_true());
    assert(word_false@ =~= self::word_false());
    assert(word_null@ =~= self::word_null());
    let mut place = Lexing::Code;
    let mut at: usize = 0;
    while at < chars.len()
        invariant
            at <= chars.len(),
            chars@ == text@,
            word_true@ == self::word_true(),
            word_false@ == self::word_false(),
            word_null@ == self::word_null(),
            place@ == place_at(text@, at as int),
            count_of(place@) <= at,
            forall|j: int| 0 <= j < at ==> !#[trigger] place_stops_parser(text@, j),
        decreases chars.len() - at,
    {
        if word_stops(&chars, at, place, &word_true) || word_stops(&chars, at, place, &word_false)
            || word_stops(&chars, at, place, &word_null) {
            assert(place_stops_parser(text@, at as int));
            return false;
        }
        place = next_place(place, chars[at]);
        at += 1;
    }
    true
}

} // verus!
