//! The bounded channels that carry bytes between a session and the
//! transport, as far as the library uses them: it only ever offers a
//! message without waiting.

use russh::CryptoVec;
use tokio::sync::mpsc::error::TrySendError;
use tokio::sync::mpsc::Sender;
use vstd::prelude::*;

verus! {

/// The sending half of a bounded channel of the `tokio` crate. What is in
/// the channel, and whether its receiver lives, is not known here.
#[verifier::external_type_specification]
#[verifier::external_body]
#[verifier::reject_recursive_types(T)]
pub struct ExSender<T>(Sender<T>);

/// What became of a message that was offered to a channel.
#[derive(Clone, Copy, Debug, PartialEq, Eq, Structural)]
pub enum SendOutcome {
    /// The channel took the message.
    Sent,
    /// The channel had no room; the message is gone.
    Full,
    /// The receiver is gone; so is the message.
    Closed,
}

/// The channel that a sender of transport buffers belongs to. Two senders
/// belong to the same channel where
/// `tokio::sync::mpsc::Sender::same_channel` says so.
pub uninterp spec fn channel_of(sender: Sender<CryptoVec>) -> int;

/// Makes one more sender with `tokio::sync::mpsc::Sender::clone`. The new
/// sender belongs to the channel of the one it was made from.
#[verifier::external_body]
pub(crate) fn clone_sender(sender: &Sender<CryptoVec>) -> (copy: Sender<CryptoVec>)
    ensures
        channel_of(copy) == channel_of(*sender),
{
    sender.clone()
}

/// Offers `message` to the channel with `tokio::sync::mpsc::Sender::try_send`,
/// which never waits, and says which of its three outcomes came about.
/// Which one does depends on the receiver's side, so nothing is promised
/// of it.
#[verifier::external_body]
pub(crate) fn try_send<T>(sender: &Sender<T>, message: T) -> (outcome: SendOutcome) {
    match sender.try_send(message) {
        Ok(()) => SendOutcome::Sent,
        Err(TrySendError::Full(_)) => SendOutcome::Full,
        Err(TrySendError::Closed(_)) => SendOutcome::Closed,
    }
}

} // verus!
