//! The registry of live sessions: for each connected client the channel on
//! which its session takes input. It is the one thing that sessions share.
//! Every operation is a single step on the map and never waits, so a lock
//! around the registry is never held across anything slow.
//!
//! [`AppServer::send`] and what is built on it offer bytes to a session
//! and never wait: where the session's channel is full the bytes are
//! dropped and the answer says so. A caller that would rather wait for
//! room takes the channel with [`AppServer::lookup`], lets go of the
//! registry, and waits on the channel itself.

use crate::channel::{try_send, SendOutcome};
use crate::decimal::{digit_bytes, lemma_digit_bytes, push_digit_bytes};
use crate::decoder::events::{
    frame_meaning, is_digit, lemma_decimal_of_digits, lemma_digits_end, resize_report, InputEvent,
};
use crate::decoder::framing::{
    head, is_sequence_body, lemma_sequence_is_a_frame, Step, ESC,
};
use crate::decoder::stream::{decoded, remainder};
use std::collections::HashMap;
use tokio::sync::mpsc::Sender;
use vstd::prelude::*;
use vstd::slice::slice_to_vec;

verus! {

broadcast use vstd::std_specs::hash::group_hash_axioms;

/// The channel on which a session takes the bytes of its client.
pub type InputHandle = Sender<Vec<u8>>;

/// The byte that asks a session to stop: the interrupt character.
pub const INTERRUPT: u8 = 3;

/// Why bytes did not reach a session.
#[derive(Clone, Copy, Debug, PartialEq, Eq, Structural)]
pub enum RegistryError {
    /// No session is registered under the identifier.
    NotFound,
    /// The session has gone: its channel is closed.
    Closed,
}

/// What became of bytes that were offered to a session that lives.
#[derive(Clone, Copy, Debug, PartialEq, Eq, Structural)]
pub enum Delivery {
    /// The session's channel took them.
    Sent,
    /// The session's channel was full; the bytes are dropped.
    Dropped,
}

/// What `send` reports, by what became of the bytes it offered.
pub open spec fn send_report(outcome: SendOutcome) -> Result<Delivery, RegistryError> {
    match outcome {
        SendOutcome::Sent => Ok(Delivery::Sent),
        SendOutcome::Full => Ok(Delivery::Dropped),
        SendOutcome::Closed => Err(RegistryError::Closed),
    }
}

/// What `send` reports, by what became of the bytes it offered.
pub fn send_result(outcome: SendOutcome) -> (report: Result<Delivery, RegistryError>)
    ensures
        report == send_report(outcome),
{
    match outcome {
        SendOutcome::Sent => Ok(Delivery::Sent),
        SendOutcome::Full => Ok(Delivery::Dropped),
        SendOutcome::Closed => Err(RegistryError::Closed),
    }
}

/// The number of offers, among those with the given outcomes, that a
/// channel took.
pub open spec fn sent_among(outcomes: Seq<SendOutcome>) -> nat
    decreases outcomes.len(),
{
    if outcomes.len() == 0 {
        0
    } else if outcomes.last() == SendOutcome::Sent {
        sent_among(outcomes.drop_last()) + 1
    } else {
        sent_among(outcomes.drop_last())
    }
}

/// No more offers are taken than are made.
pub proof fn lemma_sent_among_is_bounded(outcomes: Seq<SendOutcome>)
    ensures
        sent_among(outcomes) <= outcomes.len(),
    decreases outcomes.len(),
{
    if outcomes.len() > 0 {
        lemma_sent_among_is_bounded(outcomes.drop_last());
    }
}

/// Counts the offers that a channel took.
pub fn count_sent(outcomes: &Vec<SendOutcome>) -> (taken: usize)
    ensures
        taken == sent_among(outcomes@),
{
    let mut taken: usize = 0;
    let mut i: usize = 0;
    while i < outcomes.len()
        invariant
            i <= outcomes.len(),
            taken == sent_among(outcomes@.subrange(0, i as int)),
            taken <= i,
        decreases outcomes.len() - i,
    {
        assert(outcomes@.subrange(0, i + 1).drop_last() =~= outcomes@.subrange(0, i as int));
        match outcomes[i] {
            SendOutcome::Sent => {
                taken += 1;
            },
            _ => {},
        }
        i += 1;
    }
    assert(outcomes@.subrange(0, i as int) =~= outcomes@);
    taken
}

/// The report of a new terminal size as it is written into a session's
/// input: the escape byte, `[8;`, the rows, `;`, the columns and `t`.
pub open spec fn resize_bytes(rows: u32, columns: u32) -> Seq<u8> {
    seq![ESC, 0x5bu8, 0x38u8, 0x3bu8] + digit_bytes(rows as nat) + seq![0x3bu8] + digit_bytes(
        columns as nat,
    ) + seq![0x74u8]
}

/// Writes the report of a new terminal size.
pub fn resize_sequence(rows: u32, columns: u32) -> (report: Vec<u8>)
    ensures
        report@ == resize_bytes(rows, columns),
{
    let mut report: Vec<u8> = Vec::new();
    report.push(ESC);
    report.push(0x5b);
    report.push(0x38);
    report.push(0x3b);
    push_digit_bytes(&mut report, rows as u64);
    report.push(0x3b);
    push_digit_bytes(&mut report, columns as u64);
    report.push(0x74);
    report
}

/// What the server writes, the session reads: the report of a size is one
/// frame, and a decoder that is fed it gives exactly one resize event, with
/// the columns and rows that were written, cut to sixteen bits, and keeps
/// nothing back.
pub proof fn lemma_size_report_is_read_back(rows: u32, columns: u32)
    ensures
        head(resize_bytes(rows, columns)) == Step::Frame(resize_bytes(rows, columns).len() as usize),
        resize_report(resize_bytes(rows, columns)) == Some((rows as nat, columns as nat)),
        decoded(resize_bytes(rows, columns)) == seq![
            InputEvent::Resized {
                columns: (columns % 0x10000) as u16,
                rows: (rows % 0x10000) as u16,
            },
        ],
        remainder(resize_bytes(rows, columns)) == Seq::<u8>::empty(),
{
    let s = resize_bytes(rows, columns);
    let r = digit_bytes(rows as nat);
    let c = digit_bytes(columns as nat);
    lemma_digit_bytes(rows as nat);
    lemma_digit_bytes(columns as nat);
    lemma_decimal_of_digits(rows as nat);
    lemma_decimal_of_digits(columns as nat);
    let mid = (4 + r.len()) as nat;
    let end = (mid + 1 + c.len()) as nat;
    assert forall|i: int| 4 <= i < mid implies is_digit(#[trigger] s[i]) by {}
    assert forall|i: int| mid + 1 <= i < end implies is_digit(#[trigger] s[i]) by {}
    assert(s.subrange(4, mid as int) =~= r);
    assert(s.subrange(mid as int + 1, end as int) =~= c);
    lemma_digits_end(s, 4, mid);
    lemma_digits_end(s, mid + 1, end);
    assert forall|j: int| 2 <= j < s.len() - 1 implies is_sequence_body(#[trigger] s[j]) by {}
    lemma_sequence_is_a_frame(s, 2);
    assert(s.take(s.len() as int) =~= s);
    assert(s.skip(s.len() as int) =~= Seq::<u8>::empty());
    let nothing = Seq::<u8>::empty();
    assert(remainder(nothing) =~= nothing);
    assert(decoded(s) =~= frame_meaning(s) + decoded(nothing));
}

/// The registry, and the counter that hands out identifiers.
pub struct AppServer {
    clients: HashMap<usize, InputHandle>,
    id: usize,
}

impl AppServer {
    /// The sessions that are registered, each under its identifier.
    pub closed spec fn clients(&self) -> Map<usize, InputHandle> {
        self.clients@
    }

    /// The identifier that the next client gets.
    pub closed spec fn next_id(&self) -> usize {
        self.id
    }

    /// A registry without sessions; the first client gets the identifier 0.
    pub fn new() -> (server: Self)
        ensures
            server.clients() == Map::<usize, InputHandle>::empty(),
            server.next_id() == 0,
    {
        Self { clients: HashMap::new(), id: 0 }
    }

    /// Hands out the identifier for a client that has just connected. Each
    /// call gives the number after the one before, so no identifier is
    /// given twice. `None` comes only when the numbers have run out.
    pub fn new_client(&mut self) -> (id: Option<usize>)
        ensures
            final(self).clients() == old(self).clients(),
            match id {
                Some(given) => given == old(self).next_id() && final(self).next_id() == given + 1,
                None => old(self).next_id() == usize::MAX && final(self).next_id() == usize::MAX,
            },
    {
        if self.id < usize::MAX {
            let given = self.id;
            self.id = given + 1;
            Some(given)
        } else {
            None
        }
    }

    /// The number of sessions registered.
    pub fn len(&self) -> (count: usize)
        ensures
            count == self.clients().len(),
    {
        self.clients.len()
    }

    /// Whether a session is registered under `id`.
    pub fn is_registered(&self, id: usize) -> (registered: bool)
        ensures
            registered == self.clients().dom().contains(id),
    {
        self.clients.contains_key(&id)
    }

    /// The channel of the session of client `id`, if one is registered.
    pub fn lookup(&self, id: usize) -> (handle: Option<&InputHandle>)
        ensures
            match handle {
                Some(found) => self.clients().dom().contains(id) && *found == self.clients()[id],
                None => !self.clients().dom().contains(id),
            },
    {
        self.clients.get(&id)
    }

    /// Registers the session of client `id`. A session that was registered
    /// under `id` before is replaced: an identifier never has two.
    pub fn register(&mut self, id: usize, handle: InputHandle)
        ensures
            final(self).clients() == old(self).clients().insert(id, handle),
            final(self).next_id() == old(self).next_id(),
    {
        self.clients.insert(id, handle);
    }

    /// Takes the session of client `id` out of the registry, and says
    /// whether there was one. Without one, nothing happens.
    pub fn unregister(&mut self, id: usize) -> (was_registered: bool)
        ensures
            final(self).clients() == old(self).clients().remove(id),
            final(self).next_id() == old(self).next_id(),
            was_registered == old(self).clients().dom().contains(id),
    {
        match self.clients.remove(&id) {
            Some(_) => true,
            None => false,
        }
    }

    /// Offers `bytes` to the session of client `id`, without waiting.
    /// With no session under `id` the answer is `NotFound`, and only then.
    /// With one, the answer tells what its channel did.
    pub fn send(&self, id: usize, bytes: Vec<u8>) -> (report: Result<Delivery, RegistryError>)
        ensures
            (report matches Err(RegistryError::NotFound)) <==> !self.clients().dom().contains(id),
            self.clients().dom().contains(id) ==> exists|outcome: SendOutcome|
                report == send_report(outcome),
    {
        match self.clients.get(&id) {
            Some(handle) => {
                let outcome = try_send(handle, bytes);
                send_result(outcome)
            },
            None => Err(RegistryError::NotFound),
        }
    }

    /// Passes input of client `id` on to its session. A session whose
    /// channel turns out closed is taken out of the registry; in every
    /// other case the registry stays as it is.
    pub fn forward(&mut self, id: usize, bytes: Vec<u8>) -> (report: Result<Delivery, RegistryError>)
        ensures
            final(self).next_id() == old(self).next_id(),
            (report matches Err(RegistryError::NotFound)) <==> !old(self).clients().dom().contains(
                id,
            ),
            old(self).clients().dom().contains(id) ==> exists|outcome: SendOutcome|
                report == send_report(outcome),
            final(self).clients() == if report matches Err(RegistryError::Closed) {
                old(self).clients().remove(id)
            } else {
                old(self).clients()
            },
    {
        let report = self.send(id, bytes);
        match report {
            Err(RegistryError::Closed) => {
                self.clients.remove(&id);
            },
            _ => {},
        }
        report
    }

    /// Tells the session of client `id` that the client's terminal now has
    /// `columns` columns and `rows` rows, by the report that the session's
    /// decoder reads.
    pub fn notify_resize(&self, id: usize, columns: u32, rows: u32) -> (report: Result<
        Delivery,
        RegistryError,
    >)
        ensures
            (report matches Err(RegistryError::NotFound)) <==> !self.clients().dom().contains(id),
            self.clients().dom().contains(id) ==> exists|outcome: SendOutcome|
                report == send_report(outcome),
    {
        self.send(id, resize_sequence(rows, columns))
    }

    /// Offers `bytes` to every session, once to each and without waiting
    /// for any, and says how many channels took them: the number that
    /// [`count_sent`] finds among the outcomes of the offers.
    pub fn broadcast(&self, bytes: &[u8]) -> (taken: usize)
        ensures
            exists|outcomes: Seq<SendOutcome>|
                outcomes.len() == self.clients().len() && taken == sent_among(outcomes),
            taken <= self.clients().len(),
    {
        let total = self.clients.len();
        let mut outcomes: Vec<SendOutcome> = Vec::new();
        for handle in iter: self.clients.values()
            invariant
                outcomes@.len() == iter.index(),
                iter.seq().len() == total,
                total == self.clients@.len(),
        {
            outcomes.push(try_send(handle, slice_to_vec(bytes)));
        }
        proof {
            lemma_sent_among_is_bounded(outcomes@);
        }
        count_sent(&outcomes)
    }

    /// Shuts the server down: every session is sent the interrupt
    /// character, and none is registered afterwards.
    pub fn shutdown(&mut self)
        ensures
            final(self).clients() == Map::<usize, InputHandle>::empty(),
            final(self).next_id() == old(self).next_id(),
    {
        let mut stop: Vec<u8> = Vec::new();
        stop.push(INTERRUPT);
        let _ = self.broadcast(stop.as_slice());
        self.clients.clear();
    }

    /// Ends everything: no session is registered afterwards.
    pub fn clear(&mut self)
        ensures
            final(self).clients() == Map::<usize, InputHandle>::empty(),
            final(self).next_id() == old(self).next_id(),
    {
        self.clients.clear();
    }
}

} // verus!
