//! Where one event ends and the next begins.
//!
//! A frame is one of: a single byte below `0x80` other than the escape
//! byte; a character of two to four bytes, by its first byte; the escape
//! byte followed by one more byte below `0x80`; a control sequence, which
//! is the escape byte, `[`, any bytes from `0x20` to `0x3F` and one byte
//! from `0x40` to `0x7E`; the same with `O` in the place of `[`. An escape
//! byte before another escape byte, or before a byte from `0x80` on, is a
//! frame by itself.
//!
//! This is the framing of control sequences in general, not that of any one
//! terminal. Three things that some terminals send are cut otherwise than
//! those terminals mean them: a mouse report of the old kind, which puts
//! three raw bytes behind `ESC [ M`; text pasted between `ESC [ 200 ~` and
//! `ESC [ 201 ~`, which is read as if it had been typed; and a string
//! behind `ESC P` or `ESC ]`, whose introducer is read as a key and whose
//! text as typed.
//!
//! Whether the head of the bytes is a frame never depends on what comes
//! after the frame: that is what makes reading in pieces safe.

use vstd::prelude::*;

verus! {

/// The escape byte.
pub const ESC: u8 = 0x1b;

/// The longest control sequence that is waited for. One that has not ended
/// by then is dropped.
pub const MAX_SEQUENCE: usize = 64;

/// What stands at the head of some bytes.
#[derive(Clone, Copy, Debug, PartialEq, Eq, Structural)]
pub enum Step {
    /// A whole frame of this many bytes.
    Frame(usize),
    /// This many bytes that cannot begin any frame: they are dropped.
    Skip(usize),
    /// The beginning of a frame whose end has not arrived.
    NeedMore,
}

pub open spec fn is_sequence_body(byte: u8) -> bool {
    0x20 <= byte <= 0x3f
}

pub open spec fn is_sequence_end(byte: u8) -> bool {
    0x40 <= byte <= 0x7e
}

pub open spec fn is_continuation(byte: u8) -> bool {
    0x80 <= byte <= 0xbf
}

/// The number of bytes of the character that `byte` begins, or 0 where no
/// character begins with `byte`.
pub open spec fn char_width(byte: u8) -> nat {
    if byte < 0x80 {
        1
    } else if 0xc2 <= byte <= 0xdf {
        2
    } else if 0xe0 <= byte <= 0xef {
        3
    } else if 0xf0 <= byte <= 0xf4 {
        4
    } else {
        0
    }
}

/// The rest of a control sequence, read from index `i` on.
pub open spec fn sequence_from(s: Seq<u8>, i: nat) -> Step
    decreases s.len() - i,
{
    if i >= MAX_SEQUENCE {
        Step::Skip(i as usize)
    } else if i >= s.len() {
        Step::NeedMore
    } else if is_sequence_body(s[i as int]) {
        sequence_from(s, i + 1)
    } else if is_sequence_end(s[i as int]) {
        Step::Frame((i + 1) as usize)
    } else {
        Step::Skip(i as usize)
    }
}

/// The rest of a character of `width` bytes, read from index `i` on.
pub open spec fn char_from(s: Seq<u8>, i: nat, width: nat) -> Step
    decreases width - i,
{
    if i >= width {
        Step::Frame(width as usize)
    } else if i >= s.len() {
        Step::NeedMore
    } else if is_continuation(s[i as int]) {
        char_from(s, i + 1, width)
    } else {
        Step::Skip(i as usize)
    }
}

/// What follows an escape byte at the head of `s`.
pub open spec fn escape_head(s: Seq<u8>) -> Step {
    if s.len() < 2 {
        Step::NeedMore
    } else if s[1] == 0x5b || s[1] == 0x4f {
        sequence_from(s, 2)
    } else if s[1] == ESC || s[1] >= 0x80 {
        Step::Frame(1)
    } else {
        Step::Frame(2)
    }
}

/// What stands at the head of `s`. Of no bytes at all, more are needed.
pub open spec fn head(s: Seq<u8>) -> Step {
    if s.len() == 0 {
        Step::NeedMore
    } else if s[0] == ESC {
        escape_head(s)
    } else if char_width(s[0]) == 0 {
        Step::Skip(1)
    } else {
        char_from(s, 1, char_width(s[0]))
    }
}

/// The number of bytes that a step takes from the head.
pub open spec fn taken(step: Step) -> nat {
    match step {
        Step::Frame(n) => n as nat,
        Step::Skip(n) => n as nat,
        Step::NeedMore => 0,
    }
}

proof fn lemma_sequence_from(s: Seq<u8>, t: Seq<u8>, i: nat)
    requires
        0 < i <= s.len(),
        i <= MAX_SEQUENCE,
    ensures
        i <= taken(sequence_from(s, i)) <= s.len() || sequence_from(s, i) == Step::NeedMore,
        taken(sequence_from(s, i)) <= MAX_SEQUENCE,
        sequence_from(s, i) != Step::NeedMore ==> sequence_from(s + t, i) == sequence_from(s, i),
    decreases s.len() - i,
{
    if i < MAX_SEQUENCE && i < s.len() {
        if is_sequence_body(s[i as int]) {
            lemma_sequence_from(s, t, i + 1);
        }
    }
}

proof fn lemma_char_from(s: Seq<u8>, t: Seq<u8>, i: nat, width: nat)
    requires
        0 < i <= s.len(),
        i <= width <= 4,
    ensures
        i <= taken(char_from(s, i, width)) <= s.len() || char_from(s, i, width) == Step::NeedMore,
        taken(char_from(s, i, width)) <= 4,
        char_from(s, i, width) != Step::NeedMore ==> char_from(s + t, i, width) == char_from(
            s,
            i,
            width,
        ),
    decreases width - i,
{
    if i < width && i < s.len() {
        if is_continuation(s[i as int]) {
            lemma_char_from(s, t, i + 1, width);
        }
    }
}

/// A control sequence that is no longer than the limit is one frame: from
/// index `i` on, with only body bytes before its last byte and an end byte
/// there.
pub proof fn lemma_sequence_is_a_frame(s: Seq<u8>, i: nat)
    requires
        0 < i < s.len() <= MAX_SEQUENCE,
        forall|j: int| i <= j < s.len() - 1 ==> is_sequence_body(#[trigger] s[j]),
        is_sequence_end(s[s.len() - 1]),
    ensures
        sequence_from(s, i) == Step::Frame(s.len() as usize),
    decreases s.len() - i,
{
    if i < s.len() - 1 {
        lemma_sequence_is_a_frame(s, i + 1);
    }
}

/// A step that is not a wait takes at least one byte and no more than there
/// are, and nothing that arrives later changes it.
pub proof fn lemma_head_is_settled(s: Seq<u8>, t: Seq<u8>)
    ensures
        head(s) != Step::NeedMore ==> 0 < taken(head(s)) <= s.len(),
        taken(head(s)) <= MAX_SEQUENCE,
        head(s) != Step::NeedMore ==> head(s + t) == head(s),
{
    if s.len() > 0 {
        if s[0] == ESC {
            if s.len() >= 2 {
                if s[1] == 0x5b || s[1] == 0x4f {
                    lemma_sequence_from(s, t, 2);
                }
            }
        } else if char_width(s[0]) != 0 {
            lemma_char_from(s, t, 1, char_width(s[0]));
        }
    }
}

fn width_of(byte: u8) -> (width: usize)
    ensures
        width == char_width(byte),
{
    if byte < 0x80 {
        1
    } else if 0xc2 <= byte && byte <= 0xdf {
        2
    } else if 0xe0 <= byte && byte <= 0xef {
        3
    } else if 0xf0 <= byte && byte <= 0xf4 {
        4
    } else {
        0
    }
}

fn scan_sequence(bytes: &[u8]) -> (step: Step)
    requires
        bytes@.len() >= 2,
    ensures
        step == sequence_from(bytes@, 2),
{
    let len = bytes.len();
    let mut i: usize = 2;
    while i < MAX_SEQUENCE && i < len && 0x20 <= bytes[i] && bytes[i] <= 0x3f
        invariant
            2 <= i <= len,
            i <= MAX_SEQUENCE,
            len == bytes@.len(),
            sequence_from(bytes@, 2) == sequence_from(bytes@, i as nat),
        decreases len - i,
    {
        i += 1;
    }
    if i >= MAX_SEQUENCE {
        Step::Skip(i)
    } else if i >= len {
        Step::NeedMore
    } else if 0x40 <= bytes[i] && bytes[i] <= 0x7e {
        Step::Frame(i + 1)
    } else {
        Step::Skip(i)
    }
}

fn scan_char(bytes: &[u8], width: usize) -> (step: Step)
    requires
        bytes@.len() >= 1,
        1 <= width <= 4,
    ensures
        step == char_from(bytes@, 1, width as nat),
{
    let len = bytes.len();
    let mut i: usize = 1;
    while i < width && i < len && 0x80 <= bytes[i] && bytes[i] <= 0xbf
        invariant
            1 <= i <= len,
            i <= width <= 4,
            len == bytes@.len(),
            char_from(bytes@, 1, width as nat) == char_from(bytes@, i as nat, width as nat),
        decreases width - i,
    {
        i += 1;
    }
    if i >= width {
        Step::Frame(width)
    } else if i >= len {
        Step::NeedMore
    } else {
        Step::Skip(i)
    }
}

/// Finds what stands at the head of `bytes`.
pub fn scan(bytes: &[u8]) -> (step: Step)
    ensures
        step == head(bytes@),
{
    let len = bytes.len();
    if len == 0 {
        return Step::NeedMore;
    }
    let first = bytes[0];
    if first == ESC {
        if len < 2 {
            return Step::NeedMore;
        }
        let second = bytes[1];
        if second == 0x5b || second == 0x4f {
            scan_sequence(bytes)
        } else if second == ESC || second >= 0x80 {
            Step::Frame(1)
        } else {
            Step::Frame(2)
        }
    } else {
        let width = width_of(first);
        if width == 0 {
            Step::Skip(1)
        } else {
            scan_char(bytes, width)
        }
    }
}

} // verus!
