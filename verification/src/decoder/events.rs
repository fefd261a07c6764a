//! What one frame means.
//!
//! Keys are decoded by the terminal input parser of the `termwiz` crate,
//! which is shown only bytes that have the shape of one key. The report of
//! a new terminal size, which the server writes into the stream itself, is
//! read here: the escape byte, `[8;`, the rows, `;`, the columns and `t`,
//! both numbers in decimal digits.

use crate::decimal::digit_bytes;
use crate::decoder::framing::{char_width, is_continuation, ESC};
use crate::keys::{KeyCode, KeyEvent, KeyEventKind, KeyModifiers};
use termwiz::input::KeyCode::{
    Backspace, Char, DownArrow, Enter, Escape, Function, LeftArrow, RightArrow, Tab, UpArrow,
};
use vstd::prelude::*;

verus! {

/// An event as the terminal input parser reports it: a key with the bits of
/// its modifiers, or something that is no key.
#[derive(Clone, Copy, Debug, PartialEq, Eq, Structural)]
pub enum RawInput {
    Key(KeyCode, u16),
    Other,
}

/// An event that a session acts on.
#[derive(Clone, Copy, Debug, PartialEq, Eq, Structural)]
pub enum InputEvent {
    Key(KeyEvent),
    /// The client's terminal now has this size.
    Resized { columns: u16, rows: u16 },
}

/// The bit that the parser sets for the Shift key.
pub const SHIFT_BIT: u16 = 2;

/// The bit that the parser sets for the Alt key.
pub const ALT_BIT: u16 = 4;

/// The bit that the parser sets for the Control key.
pub const CTRL_BIT: u16 = 8;

/// The longest control sequence that can be a key.
pub const MAX_KEY_SEQUENCE: usize = 16;

/// Whether `byte` can stand between the introducer and the last byte of a
/// control sequence that is a key: a digit or a semicolon.
pub open spec fn is_key_body(byte: u8) -> bool {
    is_digit(byte) || byte == 0x3b
}

/// Whether `byte` can end a control sequence that is a key: a capital
/// letter, `a` to `d`, `u`, or one of `@`, `^` and `~`.
pub open spec fn is_key_end(byte: u8) -> bool {
    ||| 0x40 <= byte <= 0x5a
    ||| byte == 0x5e
    ||| 0x61 <= byte <= 0x64
    ||| byte == 0x75
    ||| byte == 0x7e
}

/// Whether `frame` is a control sequence of the shape that keys have: the
/// escape byte, `[` or `O`, digits and semicolons, and a last byte that
/// ends a key; sixteen bytes at most.
pub open spec fn is_key_sequence(frame: Seq<u8>) -> bool {
    &&& 3 <= frame.len() <= MAX_KEY_SEQUENCE
    &&& frame[0] == ESC
    &&& (frame[1] == 0x5b || frame[1] == 0x4f)
    &&& is_key_end(frame.last())
    &&& forall|i: int| 2 <= i < frame.len() - 1 ==> is_key_body(#[trigger] frame[i])
}

/// Whether `frame` is one character of several bytes, by the shape of its
/// bytes.
pub open spec fn is_character(frame: Seq<u8>) -> bool {
    &&& 2 <= frame.len() <= 4
    &&& char_width(frame[0]) == frame.len()
    &&& forall|i: int| 1 <= i < frame.len() ==> is_continuation(#[trigger] frame[i])
}

/// Whether `frame` is the escape byte with one more byte behind it that
/// begins nothing longer.
pub open spec fn is_escaped_byte(frame: Seq<u8>) -> bool {
    &&& frame.len() == 2
    &&& frame[0] == ESC
    &&& frame[1] < 0x80
    &&& frame[1] != ESC
    &&& frame[1] != 0x5b
    &&& frame[1] != 0x4f
}

/// Whether `frame` has the shape of a key: a single byte below `0x80`, a
/// character, an escaped byte, or a control sequence of the shape that keys
/// have. Only such bytes are ever shown to the terminal input parser.
pub open spec fn is_key_frame(frame: Seq<u8>) -> bool {
    ||| frame.len() == 1 && frame[0] < 0x80
    ||| is_character(frame)
    ||| is_escaped_byte(frame)
    ||| is_key_sequence(frame)
}

/// What the terminal input parser makes of the bytes of one frame.
pub uninterp spec fn parsed_input(frame: Seq<u8>) -> Seq<RawInput>;

/// Runs `termwiz::input::InputParser::parse_as_vec` on `frame`, with a
/// parser of its own and the word that no more bytes follow, so that the
/// outcome depends on `frame` alone. Each event comes back as a
/// [`RawInput`]: a key under the name this library has for it, or
/// [`KeyCode::Null`] where it has none, with the bits of its modifiers.
/// What the events are is the parser's business; the contract only gives
/// them a name.
///
/// The parser is not made for any bytes whatever: text between the marks
/// of a paste that is no valid UTF-8 makes it fail, and sequences that are
/// no keys take it through code that was not read for this contract. So
/// the bytes must have the shape of one key. On such bytes the parser goes
/// through its key map, its reading of one character, and, behind the
/// escape byte, its reading of the numbers of one control sequence whose
/// last byte is none of those that it reads further.
#[verifier::external_body]
fn parse_frame(frame: &[u8]) -> (parsed: Vec<RawInput>)
    requires
        is_key_frame(frame@),
    ensures
        parsed@ == parsed_input(frame@),
{
    let mut parsed = Vec::new();
    for event in termwiz::input::InputParser::new().parse_as_vec(frame, false) {
        parsed.push(match event {
            termwiz::input::InputEvent::Key(key) => RawInput::Key(match key.key {
                Char(c) => KeyCode::Char(c), Function(n) => KeyCode::F(n),
                Backspace => KeyCode::Backspace, Enter => KeyCode::Enter,
                LeftArrow => KeyCode::Left, RightArrow => KeyCode::Right,
                UpArrow => KeyCode::Up, DownArrow => KeyCode::Down,
                Escape => KeyCode::Esc, Tab => KeyCode::Tab,
                _ => KeyCode::Null,
            }, key.modifiers.bits()),
            _ => RawInput::Other,
        });
    }
    parsed
}

/// The modifiers that the session logic sees for the parser's `bits`: one
/// of Shift, Alt and Control where exactly that one is held, and none for
/// any other combination.
pub open spec fn modifiers_of(bits: u16) -> KeyModifiers {
    KeyModifiers { shift: bits == SHIFT_BIT, control: bits == CTRL_BIT, alt: bits == ALT_BIT }
}

/// The event that a session sees for what the parser reported, if any.
pub open spec fn event_of(raw: RawInput) -> Option<InputEvent> {
    match raw {
        RawInput::Key(code, bits) => Some(
            InputEvent::Key(
                KeyEvent { code, modifiers: modifiers_of(bits), kind: KeyEventKind::Press },
            ),
        ),
        RawInput::Other => None,
    }
}

/// The events that a session sees for all that the parser reported, in
/// the same order.
pub open spec fn events_of(parsed: Seq<RawInput>) -> Seq<InputEvent>
    decreases parsed.len(),
{
    if parsed.len() == 0 {
        Seq::empty()
    } else {
        match event_of(parsed.last()) {
            Some(event) => events_of(parsed.drop_last()).push(event),
            None => events_of(parsed.drop_last()),
        }
    }
}

pub open spec fn is_digit(byte: u8) -> bool {
    0x30 <= byte <= 0x39
}

/// The index of the first byte of `s`, from `i` on, that is no digit.
pub open spec fn digits_end(s: Seq<u8>, i: nat) -> nat
    decreases s.len() - i,
{
    if i < s.len() && is_digit(s[i as int]) {
        digits_end(s, i + 1)
    } else {
        i
    }
}

/// The number that decimal digits write.
pub open spec fn decimal(digits: Seq<u8>) -> nat
    decreases digits.len(),
{
    if digits.len() == 0 {
        0
    } else {
        decimal(digits.drop_last()) * 10 + (digits.last() - 0x30) as nat
    }
}

/// The number written at index `from` of `s`, and the index behind it. A
/// number has at least one digit and is no more than `u32::MAX`.
pub open spec fn number_at(s: Seq<u8>, from: nat) -> Option<(nat, nat)> {
    let end = digits_end(s, from);
    let value = decimal(s.subrange(from as int, end as int));
    if from < end <= s.len() && value <= u32::MAX {
        Some((value, end))
    } else {
        None
    }
}

/// Reading the digits of a number gives the number back.
pub proof fn lemma_decimal_of_digits(n: nat)
    ensures
        decimal(digit_bytes(n)) == n,
    decreases n,
{
    let written = digit_bytes(n);
    if n >= 10 {
        lemma_decimal_of_digits(n / 10);
        assert(written.drop_last() =~= digit_bytes(n / 10));
    } else {
        assert(decimal(written.drop_last()) == 0);
    }
}

/// Digits from `from` up to `to`, and no digit at `to`: there the digits
/// end.
pub proof fn lemma_digits_end(s: Seq<u8>, from: nat, to: nat)
    requires
        from <= to <= s.len(),
        forall|i: int| from <= i < to ==> is_digit(#[trigger] s[i]),
        to == s.len() || !is_digit(s[to as int]),
    ensures
        digits_end(s, from) == to,
    decreases to - from,
{
    if from < to {
        lemma_digits_end(s, from + 1, to);
    }
}

/// The rows and columns that `frame` reports, if it is a size report.
pub open spec fn resize_report(frame: Seq<u8>) -> Option<(nat, nat)> {
    if frame.len() >= 4 && frame[0] == ESC && frame[1] == 0x5b && frame[2] == 0x38 && frame[3]
        == 0x3b {
        match number_at(frame, 4) {
            Some((rows, mid)) => if mid < frame.len() && frame[mid as int] == 0x3b {
                match number_at(frame, mid + 1) {
                    Some((columns, end)) => if end + 1 == frame.len() && frame[end as int]
                        == 0x74 {
                        Some((rows, columns))
                    } else {
                        None
                    },
                    None => None,
                }
            } else {
                None
            },
            None => None,
        }
    } else {
        None
    }
}

/// Whether `frame` is an escape sequence: the escape byte and more.
pub open spec fn is_escape_sequence(frame: Seq<u8>) -> bool {
    frame.len() > 1 && frame[0] == ESC
}

/// The events of one frame, given what the parser made of it. A size report
/// is one resize event, its numbers cut to sixteen bits. An escape sequence
/// counts only where the parser knew it as one event: of an unknown one
/// nothing is left. Anything else gives the keys the parser found.
pub open spec fn frame_events(frame: Seq<u8>, parsed: Seq<RawInput>) -> Seq<InputEvent> {
    match resize_report(frame) {
        Some((rows, columns)) => seq![
            InputEvent::Resized {
                columns: (columns % 0x10000) as u16,
                rows: (rows % 0x10000) as u16,
            },
        ],
        None => if is_escape_sequence(frame) && parsed.len() != 1 {
            Seq::empty()
        } else {
            events_of(parsed)
        },
    }
}

/// The events of one frame. Bytes that have not the shape of a key are
/// never shown to the parser: but for a size report they mean nothing.
pub open spec fn frame_meaning(frame: Seq<u8>) -> Seq<InputEvent> {
    frame_events(
        frame,
        if is_key_frame(frame) {
            parsed_input(frame)
        } else {
            Seq::empty()
        },
    )
}

fn ends_a_key(byte: u8) -> (ends: bool)
    ensures
        ends == is_key_end(byte),
{
    (0x40 <= byte && byte <= 0x5a) || byte == 0x5e || (0x61 <= byte && byte <= 0x64) || byte
        == 0x75 || byte == 0x7e
}

fn character_shaped(frame: &[u8]) -> (shaped: bool)
    ensures
        shaped == is_character(frame@),
{
    let len = frame.len();
    if len < 2 || len > 4 {
        return false;
    }
    let first = frame[0];
    let width: usize = if first < 0x80 {
        1
    } else if 0xc2 <= first && first <= 0xdf {
        2
    } else if 0xe0 <= first && first <= 0xef {
        3
    } else if 0xf0 <= first && first <= 0xf4 {
        4
    } else {
        0
    };
    if width != len {
        return false;
    }
    let mut i: usize = 1;
    while i < len
        invariant
            1 <= i <= len,
            len == frame@.len(),
            forall|j: int| 1 <= j < i ==> is_continuation(#[trigger] frame@[j]),
        decreases len - i,
    {
        if frame[i] < 0x80 || frame[i] > 0xbf {
            return false;
        }
        i += 1;
    }
    true
}

fn sequence_shaped(frame: &[u8]) -> (shaped: bool)
    ensures
        shaped == is_key_sequence(frame@),
{
    let len = frame.len();
    if len < 3 || len > MAX_KEY_SEQUENCE {
        return false;
    }
    if frame[0] != ESC || (frame[1] != 0x5b && frame[1] != 0x4f) || !ends_a_key(frame[len - 1]) {
        return false;
    }
    let mut i: usize = 2;
    while i < len - 1
        invariant
            2 <= i <= len - 1,
            len == frame@.len(),
            forall|j: int| 2 <= j < i ==> is_key_body(#[trigger] frame@[j]),
        decreases len - i,
    {
        let byte = frame[i];
        if !((0x30 <= byte && byte <= 0x39) || byte == 0x3b) {
            return false;
        }
        i += 1;
    }
    true
}

/// Whether `frame` has the shape of a key.
pub fn key_shaped(frame: &[u8]) -> (shaped: bool)
    ensures
        shaped == is_key_frame(frame@),
{
    let len = frame.len();
    if len == 1 {
        frame[0] < 0x80
    } else if len == 2 && frame[0] == ESC {
        let second = frame[1];
        second < 0x80 && second != ESC && second != 0x5b && second != 0x4f
    } else if len >= 3 && frame[0] == ESC {
        sequence_shaped(frame)
    } else {
        character_shaped(frame)
    }
}

fn modifiers_from_bits(bits: u16) -> (modifiers: KeyModifiers)
    ensures
        modifiers == modifiers_of(bits),
{
    KeyModifiers { shift: bits == SHIFT_BIT, control: bits == CTRL_BIT, alt: bits == ALT_BIT }
}

/// Turns what the parser reported into the events a session sees.
pub fn session_events(parsed: &Vec<RawInput>) -> (events: Vec<InputEvent>)
    ensures
        events@ == events_of(parsed@),
{
    let mut events: Vec<InputEvent> = Vec::new();
    let mut i: usize = 0;
    while i < parsed.len()
        invariant
            i <= parsed.len(),
            events@ == events_of(parsed@.subrange(0, i as int)),
        decreases parsed.len() - i,
    {
        assert(parsed@.subrange(0, i + 1).drop_last() =~= parsed@.subrange(0, i as int));
        match parsed[i] {
            RawInput::Key(code, bits) => {
                events.push(
                    InputEvent::Key(
                        KeyEvent {
                            code,
                            modifiers: modifiers_from_bits(bits),
                            kind: KeyEventKind::Press,
                        },
                    ),
                );
            },
            RawInput::Other => {},
        }
        i += 1;
    }
    assert(parsed@.subrange(0, i as int) =~= parsed@);
    events
}

fn read_number(bytes: &[u8], from: usize) -> (number: Option<(u32, usize)>)
    requires
        from <= bytes@.len(),
    ensures
        match number {
            Some((value, end)) => number_at(bytes@, from as nat) == Some((value as nat, end as nat)),
            None => number_at(bytes@, from as nat) is None,
        },
{
    let len = bytes.len();
    let mut i: usize = from;
    let mut value: u64 = 0;
    let mut fits = true;
    while i < len && 0x30 <= bytes[i] && bytes[i] <= 0x39
        invariant
            from <= i <= len,
            len == bytes@.len(),
            digits_end(bytes@, from as nat) == digits_end(bytes@, i as nat),
            fits ==> value == decimal(bytes@.subrange(from as int, i as int)) && value <= u32::MAX,
            !fits ==> decimal(bytes@.subrange(from as int, i as int)) > u32::MAX,
        decreases len - i,
    {
        assert(bytes@.subrange(from as int, i + 1).drop_last() =~= bytes@.subrange(
            from as int,
            i as int,
        ));
        if fits {
            let next = value * 10 + (bytes[i] - 0x30) as u64;
            if next > 0xffff_ffff {
                fits = false;
            } else {
                value = next;
            }
        }
        i += 1;
    }
    if i > from && fits {
        Some((value as u32, i))
    } else {
        None
    }
}

/// Reads `frame` as a size report: the rows and the columns, if it is one.
pub fn read_resize_report(frame: &[u8]) -> (report: Option<(u32, u32)>)
    ensures
        match report {
            Some((rows, columns)) => resize_report(frame@) == Some((rows as nat, columns as nat)),
            None => resize_report(frame@) is None,
        },
{
    let len = frame.len();
    if len < 4 || frame[0] != ESC || frame[1] != 0x5b || frame[2] != 0x38 || frame[3] != 0x3b {
        return None;
    }
    match read_number(frame, 4) {
        Some((rows, mid)) => {
            if mid >= len || frame[mid] != 0x3b {
                return None;
            }
            match read_number(frame, mid + 1) {
                Some((columns, end)) => {
                    if end < len && end + 1 == len && frame[end] == 0x74 {
                        Some((rows, columns))
                    } else {
                        None
                    }
                },
                None => None,
            }
        },
        None => None,
    }
}

/// The events of `frame`, given what the parser made of it.
pub fn events_from_parsed(frame: &[u8], parsed: &Vec<RawInput>) -> (events: Vec<InputEvent>)
    ensures
        events@ == frame_events(frame@, parsed@),
{
    match read_resize_report(frame) {
        Some((rows, columns)) => {
            let mut events: Vec<InputEvent> = Vec::new();
            events.push(
                InputEvent::Resized {
                    columns: (columns % 0x10000) as u16,
                    rows: (rows % 0x10000) as u16,
                },
            );
            events
        },
        None => {
            if frame.len() > 1 && frame[0] == ESC && parsed.len() != 1 {
                Vec::new()
            } else {
                session_events(parsed)
            }
        },
    }
}

/// Decodes one frame. Bytes that have not the shape of a key are not shown
/// to the parser; they give a resize event where they are a size report,
/// and nothing otherwise.
pub fn decode_frame(frame: &[u8]) -> (events: Vec<InputEvent>)
    ensures
        events@ == frame_meaning(frame@),
{
    let parsed = if key_shaped(frame) {
        parse_frame(frame)
    } else {
        Vec::new()
    };
    events_from_parsed(frame, &parsed)
}

} // verus!
