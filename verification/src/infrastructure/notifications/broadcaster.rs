//! The bus itself: one broadcast channel that every live reader subscribes
//! to.

use crate::infrastructure::notifications::channel::{
    another,
    on_one_channel,
    open_channel,
    same_channel,
    send,
    subscribe,
};
use crate::infrastructure::notifications::event::{Event, EventView};
use tokio::sync::broadcast::{Receiver, Sender};
use vstd::prelude::*;

verus! {

/// How many events the bus keeps for a reader that falls behind; older ones
/// are dropped.
pub const GLOBAL_CAPACITY: usize = 1024;

/// A handle on the bus. Publishing never blocks and never fails: an event
/// that nobody is subscribed for is dropped, and a reader that falls more
/// than [`GLOBAL_CAPACITY`] events behind loses the oldest.
pub struct GlobalBroadcaster {
    tx: Sender<Event>,
    sent: Ghost<Seq<EventView>>,
}

impl GlobalBroadcaster {
    /// The events that were published through this handle, oldest first.
    pub closed spec fn published(&self) -> Seq<EventView> {
        self.sent@
    }

    /// Whether this handle and `other` are on one bus: whether their
    /// senders belong to one channel.
    pub closed spec fn shares_bus(&self, other: &GlobalBroadcaster) -> bool {
        same_channel(self.tx, other.tx)
    }

    /// A new bus, with nothing published yet.
    pub fn new() -> (bus: GlobalBroadcaster)
        ensures
            bus.published() == Seq::<EventView>::empty(),
    {
        GlobalBroadcaster { tx: open_channel(GLOBAL_CAPACITY), sent: Ghost(Seq::empty()) }
    }

    /// Publishes an event to whoever is subscribed.
    pub fn broadcast(&mut self, msg: Event)
        ensures
            final(self).published() == old(self).published().push(msg@),
    {
        let ghost view = msg@;
        send(&self.tx, msg);
        self.sent = Ghost(self.sent@.push(view));
    }

    /// A receiver for the events that are published from now on, through
    /// any handle on this bus.
    pub fn subscribe(&self) -> (rx: Receiver<Event>) {
        subscribe(&self.tx)
    }

    /// Another handle on the same bus, through which nothing was published
    /// yet.
    pub fn handle(&self) -> (bus: GlobalBroadcaster)
        ensures
            bus.published() == Seq::<EventView>::empty(),
            bus.shares_bus(self),
    {
        GlobalBroadcaster { tx: another(&self.tx), sent: Ghost(Seq::empty()) }
    }

    /// Whether this handle and `other` are on one bus.
    pub fn same_bus(&self, other: &GlobalBroadcaster) -> (same: bool)
        ensures
            same == self.shares_bus(other),
    {
        on_one_channel(&self.tx, &other.tx)
    }
}

} // verus!
