//! Terminal output as events: plain text, and the escape sequences that set
//! a colour, reset it, or clear the line.

use vstd::prelude::*;
use vstd::string::*;
use vstd::utf8::{decode_utf8, valid_utf8};
use crate::text::str_eq;

verus! {

/// One event in terminal output.
#[derive(Debug, Clone, PartialEq, Eq)]
pub enum AnsiEvent {
    /// Switch to the colour of this name.
    SetColor(String),
    /// Back to the default colour.
    ResetColor,
    /// Move the cursor to this row and column.
    MoveCursor(u16, u16),
    /// Clear the rest of the line.
    ClearLine,
    /// Print this text.
    PrintText(String),
}

/// The mathematical content of an `AnsiEvent`.
pub ghost enum AnsiEventView {
    SetColor(Seq<char>),
    ResetColor,
    MoveCursor(u16, u16),
    ClearLine,
    PrintText(Seq<char>),
}

impl View for AnsiEvent {
    type V = AnsiEventView;

    open spec fn view(&self) -> AnsiEventView {
        match *self {
            AnsiEvent::SetColor(name) => AnsiEventView::SetColor(name@),
            AnsiEvent::ResetColor => AnsiEventView::ResetColor,
            AnsiEvent::MoveCursor(row, column) => AnsiEventView::MoveCursor(row, column),
            AnsiEvent::ClearLine => AnsiEventView::ClearLine,
            AnsiEvent::PrintText(text) => AnsiEventView::PrintText(text@),
        }
    }
}

/// The contents of a list of events.
pub open spec fn events_of(v: Seq<AnsiEvent>) -> Seq<AnsiEventView> {
    Seq::new(v.len(), |i: int| v[i]@)
}

/// True for a character of a sequence's parameters: a digit or a semicolon.
pub open spec fn is_parameter(c: char) -> bool {
    ('0' <= c <= '9') || c == ';'
}

/// True for a character that ends a sequence: an ASCII letter.
pub open spec fn is_final(c: char) -> bool {
    ('a' <= c <= 'z') || ('A' <= c <= 'Z')
}

/// The length of the run of parameter characters that begins at `i`.
pub open spec fn parameters_len(s: Seq<char>, i: int) -> nat
    decreases s.len() - i,
{
    if 0 <= i < s.len() && is_parameter(s[i]) {
        1 + parameters_len(s, i + 1)
    } else {
        0
    }
}

/// The length of the escape sequence that begins at `i`, if one does: the
/// escape character, `[`, any number of parameter characters, and a letter.
pub open spec fn sequence_len(s: Seq<char>, i: int) -> Option<nat> {
    if 0 <= i && i + 1 < s.len() && s[i] == '\x1b' && s[i + 1] == '[' {
        let p = parameters_len(s, i + 2);
        if i + 2 + p < s.len() && is_final(s[i + 2 + p]) {
            Some(3 + p)
        } else {
            None
        }
    } else {
        None
    }
}

/// The event that an escape sequence stands for, if it is a known one.
pub open spec fn event_of(sequence: Seq<char>) -> Option<AnsiEventView> {
    if sequence == "\x1b[0m"@ {
        Some(AnsiEventView::ResetColor)
    } else if sequence == "\x1b[31m"@ {
        Some(AnsiEventView::SetColor("Red"@))
    } else if sequence == "\x1b[32m"@ {
        Some(AnsiEventView::SetColor("Green"@))
    } else if sequence == "\x1b[K"@ {
        Some(AnsiEventView::ClearLine)
    } else {
        None
    }
}

/// The text from `last` up to `i`, as an event, if there is any.
pub open spec fn text_event(s: Seq<char>, last: int, i: int) -> Seq<AnsiEventView> {
    if last < i {
        seq![AnsiEventView::PrintText(s.subrange(last, i))]
    } else {
        Seq::empty()
    }
}

/// The event of a sequence as a list: one event, or none for an unknown sequence.
pub open spec fn known_event(sequence: Seq<char>) -> Seq<AnsiEventView> {
    match event_of(sequence) {
        Some(e) => seq![e],
        None => Seq::empty(),
    }
}

/// The events of `s` from position `i` on, where the text since `last` has
/// not been given out yet. Escape sequences are found from left to right and
/// do not overlap; what lies between them is text; an unknown sequence gives
/// no event.
pub open spec fn scan(s: Seq<char>, i: int, last: int) -> Seq<AnsiEventView>
    decreases s.len() - i,
{
    if i < 0 || i >= s.len() {
        text_event(s, last, s.len() as int)
    } else {
        match sequence_len(s, i) {
            Some(n) => text_event(s, last, i) + known_event(s.subrange(i, i + n)) + scan(
                s,
                i + n,
                i + n,
            ),
            None => scan(s, i + 1, last),
        }
    }
}

/// Calls `std::str::from_utf8`. Trusted: the result is `Some` exactly where
/// the bytes are valid UTF-8, and is then the text that they encode.
#[verifier::external_body]
fn utf8_text(bytes: &[u8]) -> (r: Option<&str>)
    ensures
        match r {
            Some(s) => valid_utf8(bytes@) && s@ == decode_utf8(bytes@),
            None => !valid_utf8(bytes@),
        },
{
    std::str::from_utf8(bytes).ok()
}

/// Measures the run of parameter characters that begins at `i`.
fn parameters_at(text: &str, i: usize) -> (r: usize)
    requires
        i <= text@.len(),
    ensures
        r == parameters_len(text@, i as int),
        i + r <= text@.len(),
{
    let n: usize = text.unicode_len();
    let mut j: usize = i;
    while j < n
        invariant
            n == text@.len(),
            i <= j <= n,
            parameters_len(text@, i as int) == (j - i) + parameters_len(text@, j as int),
        decreases n - j,
    {
        let c: char = text.get_char(j);
        if !(('0' <= c && c <= '9') || c == ';') {
            return j - i;
        }
        j += 1;
    }
    j - i
}

/// Measures the escape sequence that begins at `i`, if one does.
fn sequence_at(text: &str, i: usize) -> (r: Option<usize>)
    requires
        i < text@.len(),
    ensures
        match r {
            Some(n) => sequence_len(text@, i as int) == Some(n as nat) && i + n <= text@.len(),
            None => sequence_len(text@, i as int).is_none(),
        },
{
    let n: usize = text.unicode_len();
    if n - i < 2 || text.get_char(i) != '\x1b' || text.get_char(i + 1) != '[' {
        return None;
    }
    let p: usize = parameters_at(text, i + 2);
    if i + 2 + p >= n {
        return None;
    }
    let c: char = text.get_char(i + 2 + p);
    if ('a' <= c && c <= 'z') || ('A' <= c && c <= 'Z') {
        Some(3 + p)
    } else {
        None
    }
}

/// Appends the event of a known escape sequence.
fn push_known(events: &mut Vec<AnsiEvent>, sequence: &str)
    ensures
        events_of(final(events)@) == events_of(old(events)@) + known_event(sequence@),
{
    let ghost before = events_of(events@);
    if str_eq(sequence, "\x1b[0m") {
        events.push(AnsiEvent::ResetColor);
    } else if str_eq(sequence, "\x1b[31m") {
        events.push(AnsiEvent::SetColor("Red".to_owned()));
    } else if str_eq(sequence, "\x1b[32m") {
        events.push(AnsiEvent::SetColor("Green".to_owned()));
    } else if str_eq(sequence, "\x1b[K") {
        events.push(AnsiEvent::ClearLine);
    }
    assert(events_of(events@) =~= before + known_event(sequence@));
}

/// Appends the text from `last` up to `i`, if there is any.
fn push_text(events: &mut Vec<AnsiEvent>, text: &str, last: usize, i: usize)
    requires
        last <= i <= text@.len(),
    ensures
        events_of(final(events)@) == events_of(old(events)@) + text_event(
            text@,
            last as int,
            i as int,
        ),
{
    let ghost before = events_of(events@);
    if last < i {
        events.push(AnsiEvent::PrintText(text.substring_char(last, i).to_owned()));
    }
    assert(events_of(events@) =~= before + text_event(text@, last as int, i as int));
}

/// Splits terminal output into its events.
pub fn parse_text(text: &str) -> (events: Vec<AnsiEvent>)
    ensures
        events_of(events@) == scan(text@, 0, 0),
{
    let n: usize = text.unicode_len();
    let mut events: Vec<AnsiEvent> = Vec::new();
    let mut last: usize = 0;
    let mut i: usize = 0;
    assert(events_of(events@) + scan(text@, 0, 0) =~= scan(text@, 0, 0));
    while i < n
        invariant
            n == text@.len(),
            last <= i <= n,
            events_of(events@) + scan(text@, i as int, last as int) == scan(text@, 0, 0),
        decreases n - i,
    {
        let ghost before = events_of(events@);
        match sequence_at(text, i) {
            Some(len) => {
                push_text(&mut events, text, last, i);
                push_known(&mut events, text.substring_char(i, i + len));
                assert(events_of(events@) + scan(text@, i + len, i + len) =~= before + scan(
                    text@,
                    i as int,
                    last as int,
                ));
                i = i + len;
                last = i;
            },
            None => {
                i += 1;
            },
        }
    }
    push_text(&mut events, text, last, n);
    events
}

/// The parser of terminal output.
pub struct AnsiParser;

impl AnsiParser {
    /// Splits terminal output, given as bytes, into its events. Bytes that
    /// are not valid UTF-8 give no event at all.
    pub fn parse(input: &[u8]) -> (events: Vec<AnsiEvent>)
        ensures
            events_of(events@) == if valid_utf8(input@) {
                scan(decode_utf8(input@), 0, 0)
            } else {
                Seq::<AnsiEventView>::empty()
            },
    {
        match utf8_text(input) {
            Some(text) => parse_text(text),
            None => {
                let events: Vec<AnsiEvent> = Vec::new();
                assert(events_of(events@) =~= Seq::<AnsiEventView>::empty());
                events
            },
        }
    }
}

} // verus!
