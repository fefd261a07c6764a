//! Decoding a stream that arrives in pieces.
//!
//! The decoder keeps the bytes at the end of a read that may still grow
//! into a frame, and puts them before the next read. So the events do not
//! depend on where the stream was cut.

use crate::decoder::events::{decode_frame, frame_meaning, InputEvent};
use crate::decoder::framing::{head, lemma_head_is_settled, scan, Step, ESC};
use vstd::prelude::*;
use vstd::slice::slice_subrange;

verus! {

/// The events of all the frames that `s` holds in full.
pub open spec fn decoded(s: Seq<u8>) -> Seq<InputEvent>
    decreases s.len(),
{
    match head(s) {
        Step::Frame(n) => if 0 < n <= s.len() {
            frame_meaning(s.take(n as int)) + decoded(s.skip(n as int))
        } else {
            Seq::empty()
        },
        Step::Skip(n) => if 0 < n <= s.len() {
            decoded(s.skip(n as int))
        } else {
            Seq::empty()
        },
        Step::NeedMore => Seq::empty(),
    }
}

/// What is left of `s` behind its last whole frame: the beginning of a
/// frame, or nothing.
pub open spec fn remainder(s: Seq<u8>) -> Seq<u8>
    decreases s.len(),
{
    match head(s) {
        Step::Frame(n) => if 0 < n <= s.len() {
            remainder(s.skip(n as int))
        } else {
            s
        },
        Step::Skip(n) => if 0 < n <= s.len() {
            remainder(s.skip(n as int))
        } else {
            s
        },
        Step::NeedMore => s,
    }
}

/// The events that are owed when no more bytes will come for now: an escape
/// byte left alone is the Escape key after all; the beginning of anything
/// else is dropped.
pub open spec fn settled(pending: Seq<u8>) -> Seq<InputEvent> {
    if pending =~= seq![ESC] {
        frame_meaning(pending)
    } else {
        Seq::empty()
    }
}

/// What is left over is the beginning of a frame: on its own it holds no
/// event and stays as it is.
pub proof fn lemma_remainder_waits(s: Seq<u8>)
    ensures
        head(remainder(s)) == Step::NeedMore,
        remainder(s).len() <= s.len(),
    decreases s.len(),
{
    lemma_head_is_settled(s, Seq::empty());
    match head(s) {
        Step::Frame(n) => lemma_remainder_waits(s.skip(n as int)),
        Step::Skip(n) => lemma_remainder_waits(s.skip(n as int)),
        Step::NeedMore => {},
    }
}

/// Reading in two pieces gives what reading at once gives: the events of
/// `s` followed by the events of what `s` left over together with `t` are
/// the events of the whole, and the same bytes are left over in the end.
pub proof fn lemma_reading_in_two(s: Seq<u8>, t: Seq<u8>)
    ensures
        decoded(s + t) == decoded(s) + decoded(remainder(s) + t),
        remainder(s + t) == remainder(remainder(s) + t),
    decreases s.len(),
{
    lemma_head_is_settled(s, t);
    match head(s) {
        Step::Frame(n) => {
            assert((s + t).take(n as int) =~= s.take(n as int));
            assert((s + t).skip(n as int) =~= s.skip(n as int) + t);
            lemma_reading_in_two(s.skip(n as int), t);
        },
        Step::Skip(n) => {
            assert((s + t).skip(n as int) =~= s.skip(n as int) + t);
            lemma_reading_in_two(s.skip(n as int), t);
        },
        Step::NeedMore => {},
    }
}

/// The reads put end to end.
pub open spec fn joined(reads: Seq<Seq<u8>>) -> Seq<u8>
    decreases reads.len(),
{
    if reads.len() == 0 {
        Seq::empty()
    } else {
        joined(reads.drop_last()) + reads.last()
    }
}

/// The events of a decoder that holds `pending` and is fed each of `reads`
/// in turn, and what it holds afterwards.
pub open spec fn fed(pending: Seq<u8>, reads: Seq<Seq<u8>>) -> (Seq<InputEvent>, Seq<u8>)
    decreases reads.len(),
{
    if reads.len() == 0 {
        (Seq::empty(), pending)
    } else {
        let (events, left) = fed(pending, reads.drop_last());
        (events + decoded(left + reads.last()), remainder(left + reads.last()))
    }
}

/// However a stream is cut into reads, the decoder gives the events, and is
/// left with the bytes, that it would have had from the whole stream in one
/// read.
pub proof fn lemma_reading_in_pieces(pending: Seq<u8>, reads: Seq<Seq<u8>>)
    requires
        head(pending) == Step::NeedMore,
    ensures
        fed(pending, reads) == (
            decoded(pending + joined(reads)),
            remainder(pending + joined(reads)),
        ),
    decreases reads.len(),
{
    if reads.len() > 0 {
        let before = reads.drop_last();
        lemma_reading_in_pieces(pending, before);
        lemma_reading_in_two(pending + joined(before), reads.last());
        assert(pending + joined(reads) =~= (pending + joined(before)) + reads.last());
    }
}

/// The number of single bytes whose meaning a decoder remembers: those
/// below `0x80`.
pub const REMEMBERED: usize = 128;

/// What a decoder remembers of the meaning of single bytes: for each byte
/// below `0x80` the events of the frame that is this byte alone, once that
/// frame has been decoded. A frame always means the same, so what was
/// decoded once need not be decoded again.
pub type Memory = Vec<Option<Vec<InputEvent>>>;

/// Whether all that `memory` holds is true.
pub open spec fn remembers_rightly(memory: Seq<Option<Vec<InputEvent>>>) -> bool {
    &&& memory.len() == REMEMBERED
    &&& forall|byte: int|
        0 <= byte < REMEMBERED ==> match #[trigger] memory[byte] {
            Some(events) => events@ == frame_meaning(seq![byte as u8]),
            None => true,
        }
}

fn empty_memory() -> (memory: Memory)
    ensures
        remembers_rightly(memory@),
{
    let mut memory: Memory = Vec::new();
    while memory.len() < REMEMBERED
        invariant
            memory@.len() <= REMEMBERED,
            forall|byte: int| 0 <= byte < memory@.len() ==> (#[trigger] memory@[byte]) is None,
        decreases REMEMBERED - memory@.len(),
    {
        memory.push(None);
    }
    memory
}

fn copy_of(events: &Vec<InputEvent>) -> (copy: Vec<InputEvent>)
    ensures
        copy@ == events@,
{
    let mut copy: Vec<InputEvent> = Vec::new();
    let mut i: usize = 0;
    while i < events.len()
        invariant
            i <= events.len(),
            copy@ == events@.subrange(0, i as int),
        decreases events.len() - i,
    {
        copy.push(events[i]);
        i += 1;
    }
    copy
}

/// `memory` with the meaning of `byte` added.
fn with_meaning(memory: &Memory, byte: u8, events: &Vec<InputEvent>) -> (updated: Memory)
    requires
        remembers_rightly(memory@),
        byte < REMEMBERED,
        events@ == frame_meaning(seq![byte]),
    ensures
        remembers_rightly(updated@),
{
    let mut updated: Memory = Vec::new();
    let mut i: usize = 0;
    while i < REMEMBERED
        invariant
            i <= REMEMBERED,
            updated@.len() == i,
            remembers_rightly(memory@),
            byte < REMEMBERED,
            events@ == frame_meaning(seq![byte]),
            forall|b: int|
                0 <= b < i ==> match #[trigger] updated@[b] {
                    Some(known) => known@ == frame_meaning(seq![b as u8]),
                    None => true,
                },
        decreases REMEMBERED - i,
    {
        let entry = if i == byte as usize {
            Some(copy_of(events))
        } else {
            match &memory[i] {
                Some(known) => Some(copy_of(known)),
                None => None,
            }
        };
        updated.push(entry);
        i += 1;
    }
    updated
}

/// Decodes the bytes of one client, read by read.
pub struct InputDecoder {
    pending: Vec<u8>,
    memory: Memory,
}

impl View for InputDecoder {
    type V = Seq<u8>;

    /// The bytes kept back from earlier reads. What the decoder remembers
    /// of single bytes is left out: it holds only what those bytes mean
    /// anyway, so nothing that a caller can see depends on it.
    closed spec fn view(&self) -> Seq<u8> {
        self.pending@
    }
}

impl InputDecoder {
    #[verifier::type_invariant]
    spec fn waits(self) -> bool {
        &&& head(self.pending@) == Step::NeedMore
        &&& remembers_rightly(self.memory@)
    }

    /// A decoder that has read nothing yet.
    pub fn new() -> (decoder: Self)
        ensures
            decoder@ == Seq::<u8>::empty(),
    {
        InputDecoder { pending: Vec::new(), memory: empty_memory() }
    }

    /// The number of bytes kept back.
    pub fn pending_len(&self) -> (n: usize)
        ensures
            n == self@.len(),
    {
        self.pending.len()
    }

    /// Decodes one frame, from memory where it is a single byte whose
    /// meaning is known, and into memory where it is one whose meaning is
    /// not known yet.
    fn frame(&mut self, frame: &[u8]) -> (events: Vec<InputEvent>)
        ensures
            events@ == frame_meaning(frame@),
    {
        proof {
            use_type_invariant(&*self);
        }
        if frame.len() == 1 && frame[0] < 0x80 {
            let byte = frame[0];
            assert(frame@ =~= seq![byte]);
            match &self.memory[byte as usize] {
                Some(known) => copy_of(known),
                None => {
                    let events = decode_frame(frame);
                    self.memory = with_meaning(&self.memory, byte, &events);
                    events
                },
            }
        } else {
            decode_frame(frame)
        }
    }

    /// Takes the next bytes of the stream and gives the events that are now
    /// complete, in their order. A frame that has begun and not ended is
    /// kept for the next call. Bytes that can begin no frame are dropped
    /// and give no event.
    pub fn feed(&mut self, bytes: &[u8]) -> (events: Vec<InputEvent>)
        ensures
            events@ == decoded(old(self)@ + bytes@),
            final(self)@ == remainder(old(self)@ + bytes@),
            head(final(self)@) == Step::NeedMore,
    {
        let mut buffer: Vec<u8> = Vec::new();
        buffer.extend_from_slice(self.pending.as_slice());
        buffer.extend_from_slice(bytes);
        let total = buffer.len();
        let mut events: Vec<InputEvent> = Vec::new();
        let mut pos: usize = 0;
        let mut waiting = false;
        proof {
            assert(buffer@.skip(0) =~= buffer@);
        }
        while pos < total && !waiting
            invariant
                pos <= total,
                buffer@ == old(self)@ + bytes@,
                total == buffer@.len(),
                decoded(buffer@) == events@ + decoded(buffer@.skip(pos as int)),
                remainder(buffer@) == remainder(buffer@.skip(pos as int)),
                waiting ==> head(buffer@.skip(pos as int)) == Step::NeedMore,
            decreases total - pos, (if waiting { 0int } else { 1int }),
        {
            let tail = slice_subrange(buffer.as_slice(), pos, total);
            proof {
                lemma_head_is_settled(tail@, Seq::empty());
            }
            match scan(tail) {
                Step::Frame(n) => {
                    let frame = slice_subrange(tail, 0, n);
                    let mut found = self.frame(frame);
                    proof {
                        assert(tail@.skip(n as int) =~= buffer@.skip(pos + n));
                    }
                    events.append(&mut found);
                    pos += n;
                },
                Step::Skip(n) => {
                    proof {
                        assert(tail@.skip(n as int) =~= buffer@.skip(pos + n));
                    }
                    pos += n;
                },
                Step::NeedMore => {
                    waiting = true;
                },
            }
        }
        proof {
            use_type_invariant(&*self);
            lemma_remainder_waits(buffer@);
        }
        let left = buffer.split_off(pos);
        self.pending = left;
        events
    }

    /// Settles what is kept back, when time has passed and no more bytes
    /// have come: an escape byte left alone is given out as the key it is,
    /// the beginning of anything else is dropped. The decoder is empty
    /// afterwards.
    pub fn finish(&mut self) -> (events: Vec<InputEvent>)
        ensures
            events@ == settled(old(self)@),
            final(self)@ == Seq::<u8>::empty(),
    {
        proof {
            use_type_invariant(&*self);
        }
        let events = if self.pending.len() == 1 && self.pending[0] == ESC {
            decode_frame(self.pending.as_slice())
        } else {
            Vec::new()
        };
        self.pending = Vec::new();
        events
    }
}

} // verus!
