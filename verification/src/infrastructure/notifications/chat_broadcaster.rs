//! The chat channels: one broadcast channel for each mission that somebody
//! listens to or speaks in.

use crate::application::use_cases::mission_chat::MissionChatUseCase;
use crate::domain::repositories::mission_chat::{say_guarantee, MissionChatRepository};
use crate::domain::value_objects::mission_chat_model::{
    AddMissionChatModel,
    MissionChatModel,
    MissionChatModelView,
};
use crate::domain::value_objects::mission_error::MissionError;
use crate::infrastructure::notifications::channel::{
    on_one_chat_channel,
    open_channel,
    same_chat_channel,
    send,
    subscribe,
};
use dashmap::DashMap;
use tokio::sync::broadcast::{Receiver, Sender};
use vstd::prelude::*;

verus! {

/// The concurrent map of `dashmap`.
#[verifier::external_type_specification]
#[verifier::external_body]
#[verifier::reject_recursive_types(K)]
#[verifier::reject_recursive_types(V)]
#[verifier::reject_recursive_types(S)]
pub struct ExDashMap<K, V, S>(DashMap<K, V, S>);

/// How many messages a chat channel keeps for a reader that falls behind.
pub const CHAT_CAPACITY: usize = 100;

/// The missions that have a channel in the map.
pub uninterp spec fn channel_keys(channels: DashMap<i32, Sender<MissionChatModel>>) -> Set<i32>;

/// The sender that the map keeps under `mission_id`, for a mission that has
/// a channel in the map.
pub uninterp spec fn channel_kept(
    channels: DashMap<i32, Sender<MissionChatModel>>,
    mission_id: i32,
) -> Sender<MissionChatModel>;

/// `DashMap::new`: a map that holds nothing.
#[verifier::external_body]
fn no_channels() -> (channels: DashMap<i32, Sender<MissionChatModel>>)
    ensures
        channel_keys(channels) == Set::<i32>::empty(),
{
    DashMap::new()
}

/// A new channel for the chat of one mission.
fn fresh_chat_channel() -> (tx: Sender<MissionChatModel>) {
    open_channel(CHAT_CAPACITY)
}

/// `DashMap::entry` followed by `Entry::or_insert_with`, and a clone of the
/// sender that the entry then holds. The map has a channel under
/// `mission_id` afterwards, made by [`fresh_chat_channel`] where there was
/// none; every sender that the map kept before, it keeps; and the sender
/// that is answered belongs to the channel of the one kept under
/// `mission_id`, as a clone does.
#[verifier::external_body]
fn sender_in(channels: &mut DashMap<i32, Sender<MissionChatModel>>, mission_id: i32) -> (tx: Sender<
    MissionChatModel,
>)
    ensures
        channel_keys(*final(channels)) == channel_keys(*old(channels)).insert(mission_id),
        same_chat_channel(tx, channel_kept(*final(channels), mission_id)),
        forall|other: i32|
            channel_keys(*old(channels)).contains(other) ==> #[trigger] channel_kept(
                *final(channels),
                other,
            ) == channel_kept(*old(channels), other),
{
    channels.entry(mission_id).or_insert_with(|| fresh_chat_channel()).clone()
}

/// The channels of all chats, by mission. A channel is made when somebody
/// first listens to or speaks in a mission's chat, and is kept from then on.
pub struct ChatBroadcaster {
    channels: DashMap<i32, Sender<MissionChatModel>>,
    sent: Ghost<Seq<MissionChatModelView>>,
}

impl ChatBroadcaster {
    /// The missions that have a channel.
    pub closed spec fn open_channels(&self) -> Set<i32> {
        channel_keys(self.channels)
    }

    /// The sender that is kept for a mission that has a channel.
    pub closed spec fn channel_of(&self, mission_id: i32) -> Sender<MissionChatModel> {
        channel_kept(self.channels, mission_id)
    }

    /// Whether every mission that had a channel `before` still has the
    /// same one.
    pub open spec fn keeps_channels_of(&self, before: &ChatBroadcaster) -> bool {
        forall|mission_id: i32|
            before.open_channels().contains(mission_id) ==> #[trigger] self.channel_of(mission_id)
                == before.channel_of(mission_id)
    }

    /// The messages that were published, oldest first. Each went to the
    /// channel of the mission that it names.
    pub closed spec fn published(&self) -> Seq<MissionChatModelView> {
        self.sent@
    }

    /// No channels yet, and nothing published.
    pub fn new() -> (chats: ChatBroadcaster)
        ensures
            chats.open_channels() == Set::<i32>::empty(),
            chats.published() == Seq::<MissionChatModelView>::empty(),
    {
        ChatBroadcaster { channels: no_channels(), sent: Ghost(Seq::empty()) }
    }

    /// A sender on the channel of `mission_id`. The channel is made if the
    /// mission has none yet, and kept from then on; the channels of all
    /// other missions stay as they are.
    pub fn get_sender(&mut self, mission_id: i32) -> (tx: Sender<MissionChatModel>)
        ensures
            final(self).open_channels() == old(self).open_channels().insert(mission_id),
            final(self).keeps_channels_of(old(self)),
            same_chat_channel(tx, final(self).channel_of(mission_id)),
            final(self).published() == old(self).published(),
    {
        sender_in(&mut self.channels, mission_id)
    }

    /// Whether two senders are on one channel.
    pub fn same_channel(a: &Sender<MissionChatModel>, b: &Sender<MissionChatModel>) -> (same: bool)
        ensures
            same == same_chat_channel(*a, *b),
    {
        on_one_chat_channel(a, b)
    }

    /// A receiver for the messages that are published in the chat of
    /// `mission_id` from now on.
    pub fn subscribe(&mut self, mission_id: i32) -> (rx: Receiver<MissionChatModel>)
        ensures
            final(self).open_channels() == old(self).open_channels().insert(mission_id),
            final(self).keeps_channels_of(old(self)),
            final(self).published() == old(self).published(),
    {
        let tx = self.get_sender(mission_id);
        subscribe(&tx)
    }

    /// Publishes a message to whoever listens to the chat of its mission.
    pub fn publish(&mut self, chat: MissionChatModel)
        ensures
            final(self).open_channels() == old(self).open_channels().insert(chat.mission_id),
            final(self).keeps_channels_of(old(self)),
            final(self).published() == old(self).published().push(chat@),
    {
        let ghost view = chat@;
        let tx = self.get_sender(chat.mission_id);
        let ghost opened = *self;
        send(&tx, chat);
        self.sent = Ghost(self.sent@.push(view));
        proof {
            assert forall|mission_id: i32|
                old(self).open_channels().contains(mission_id) implies #[trigger] self.channel_of(
                mission_id,
            ) == old(self).channel_of(mission_id) by {
                assert(opened.channel_of(mission_id) == old(self).channel_of(mission_id));
            }
        }
    }
}

/// The chat of the board with its live channels: what is said is stored,
/// and then published to those who listen.
pub struct MissionChatState<T> where T: MissionChatRepository {
    pub use_case: MissionChatUseCase<T>,
    pub broadcaster: ChatBroadcaster,
}

impl<T> MissionChatState<T> where T: MissionChatRepository {
    pub fn new(use_case: MissionChatUseCase<T>, broadcaster: ChatBroadcaster) -> (state: Self)
        ensures
            state.use_case == use_case,
            state.broadcaster == broadcaster,
    {
        Self { use_case, broadcaster }
    }

    /// Stores what `brawler_id` says in the chat of `mission_id` and
    /// publishes it on the mission's channel. What cannot be stored is not
    /// published.
    pub fn add_message(&mut self, mission_id: i32, brawler_id: i32, payload: &AddMissionChatModel)
        -> (r: Result<MissionChatModel, MissionError>)
        ensures
            say_guarantee(
                &old(self).use_case.repo,
                &final(self).use_case.repo,
                r,
                mission_id,
                brawler_id,
                payload.message@,
            ),
            final(self).broadcaster.published() == match r {
                Ok(chat) => old(self).broadcaster.published().push(chat@),
                Err(_) => old(self).broadcaster.published(),
            },
            final(self).broadcaster.open_channels() == match r {
                Ok(_) => old(self).broadcaster.open_channels().insert(mission_id),
                Err(_) => old(self).broadcaster.open_channels(),
            },
            final(self).broadcaster.keeps_channels_of(&old(self).broadcaster),
    {
        let said = self.use_case.add_message(mission_id, brawler_id, payload.message.as_str());
        let chat = match said {
            Ok(chat) => chat,
            Err(e) => {
                return Err(e);
            },
        };
        self.broadcaster.publish(chat.clone());
        Ok(chat)
    }
}

/// What a reader hands over when opening a live chat connection.
#[derive(Clone, Debug, PartialEq, Eq)]
pub struct WsParams {
    pub token: Option<String>,
}

} // verus!
