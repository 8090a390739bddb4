//! The broadcast channel of `tokio`, as far as the board uses it.

use crate::domain::value_objects::mission_chat_model::MissionChatModel;
use crate::infrastructure::notifications::event::Event;
use tokio::sync::broadcast::{Receiver, Sender};
use vstd::prelude::*;

verus! {

/// The sending half of a `tokio` broadcast channel.
#[verifier::external_type_specification]
#[verifier::external_body]
#[verifier::reject_recursive_types(T)]
pub struct ExBroadcastSender<T>(Sender<T>);

/// The receiving half of a `tokio` broadcast channel.
#[verifier::external_type_specification]
#[verifier::external_body]
#[verifier::reject_recursive_types(T)]
pub struct ExBroadcastReceiver<T>(Receiver<T>);

/// `tokio::sync::broadcast::channel`, of which the sending half is kept.
/// The call panics for a capacity of zero or above `usize::MAX / 2`, which
/// the precondition leaves out. Nothing is claimed of the channel.
#[verifier::external_body]
pub(crate) fn open_channel<T: Clone>(capacity: usize) -> (tx: Sender<T>)
    requires
        0 < capacity <= usize::MAX / 2,
{
    let (tx, _) = tokio::sync::broadcast::channel(capacity);
    tx
}

/// `Sender::send` of `tokio::sync::broadcast`. Whether anybody receives the
/// value depends on who is subscribed at the time: nothing is claimed.
#[verifier::external_body]
pub(crate) fn send<T>(tx: &Sender<T>, value: T) {
    let _ = tx.send(value);
}

/// `Sender::subscribe` of `tokio::sync::broadcast`: a receiver for what is
/// sent from now on. Nothing is claimed of it.
#[verifier::external_body]
pub(crate) fn subscribe<T>(tx: &Sender<T>) -> (rx: Receiver<T>) {
    tx.subscribe()
}

/// Whether two senders of events belong to one channel, in the sense of
/// `Sender::same_channel`.
pub uninterp spec fn same_channel(a: Sender<Event>, b: Sender<Event>) -> bool;

/// `Sender::same_channel` of `tokio::sync::broadcast`. The contract only
/// gives its answer the name [`same_channel`].
#[verifier::external_body]
pub(crate) fn on_one_channel(a: &Sender<Event>, b: &Sender<Event>) -> (same: bool)
    ensures
        same == same_channel(*a, *b),
{
    a.same_channel(b)
}

/// Whether two senders of chat messages belong to one channel, in the
/// sense of `Sender::same_channel`.
pub uninterp spec fn same_chat_channel(
    a: Sender<MissionChatModel>,
    b: Sender<MissionChatModel>,
) -> bool;

/// `Sender::same_channel` of `tokio::sync::broadcast`, on senders of chat
/// messages. The contract only gives its answer the name
/// [`same_chat_channel`].
#[verifier::external_body]
pub(crate) fn on_one_chat_channel(
    a: &Sender<MissionChatModel>,
    b: &Sender<MissionChatModel>,
) -> (same: bool)
    ensures
        same == same_chat_channel(*a, *b),
{
    a.same_channel(b)
}

/// `Sender::clone` of `tokio::sync::broadcast`: another handle, which
/// belongs to the channel of the one it was made from.
#[verifier::external_body]
pub(crate) fn another(tx: &Sender<Event>) -> (copy: Sender<Event>)
    ensures
        same_channel(copy, *tx),
{
    tx.clone()
}

} // verus!
