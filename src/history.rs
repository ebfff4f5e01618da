use vstd::prelude::*;
use vstd::slice::slice_to_vec;
use vstd::string::StringSliceAdditionalSpecFns;

use crate::channel::{
    contains_id, find_channel, names_of, pairs_view, position_of, renamed, with_channel, Channel,
    ChannelId, ChannelRegistry, ChannelView,
};
use crate::message::{messages_view, ChatPrune, Message, MessageView};

verus! {

/// What a chat history holds: its channels in registration order, the
/// archive of evicted messages, the visible log, and the eviction policy.
pub struct ChatHistoryView<C> {
    pub channels: Seq<ChannelView<C>>,
    pub archive: Seq<MessageView>,
    pub log: Seq<MessageView>,
    pub prune: ChatPrune,
}

impl<C> ChatHistoryView<C> {
    /// Every message ever appended, oldest first: the archive, then the log.
    pub open spec fn full_history(self) -> Seq<MessageView> {
        self.archive + self.log
    }

    /// How many of the oldest visible messages pruning evicts.
    pub open spec fn excess(self) -> int {
        if self.prune.enabled && self.log.len() > self.prune.length {
            self.log.len() - self.prune.length
        } else {
            0
        }
    }

    /// The state after pruning: the excess moves from the front of the log
    /// to the end of the archive.
    pub open spec fn pruned(self) -> ChatHistoryView<C> {
        let k = self.excess();
        ChatHistoryView {
            channels: self.channels,
            archive: self.archive + self.log.take(k),
            log: self.log.skip(k),
            prune: self.prune,
        }
    }

    /// The state after restoring: the archive goes back in front of the log.
    pub open spec fn restored(self) -> ChatHistoryView<C> {
        ChatHistoryView {
            channels: self.channels,
            archive: Seq::empty(),
            log: self.archive + self.log,
            prune: self.prune,
        }
    }

    /// The state after `m` is sent.
    pub open spec fn sent(self, m: MessageView) -> ChatHistoryView<C> {
        ChatHistoryView {
            channels: self.channels,
            archive: self.archive,
            log: self.log.push(m),
            prune: self.prune,
        }
    }

    /// The state with `prune` as its policy.
    pub open spec fn with_prune(self, prune: ChatPrune) -> ChatHistoryView<C> {
        ChatHistoryView {
            channels: self.channels,
            archive: self.archive,
            log: self.log,
            prune,
        }
    }

    /// The state after `id` is registered under `name` and `text_color`.
    pub open spec fn with_channel(self, id: ChannelId, name: Seq<char>, text_color: C) -> ChatHistoryView<C> {
        ChatHistoryView {
            channels: with_channel(self.channels, id, name, text_color),
            archive: self.archive,
            log: self.log,
            prune: self.prune,
        }
    }

    /// The state after the channel `id` is renamed to `name`.
    pub open spec fn renamed(self, id: ChannelId, name: Seq<char>) -> ChatHistoryView<C> {
        ChatHistoryView {
            channels: renamed(self.channels, id, name),
            archive: self.archive,
            log: self.log,
            prune: self.prune,
        }
    }

    pub open spec fn has_channel(self, id: ChannelId) -> bool {
        contains_id(self.channels, id)
    }
}

/// The channels that `from_existing` seeds: the given pairs, with ids 0, 1, ...
pub open spec fn seeded_channels<C>(channels: Seq<(String, C)>) -> Seq<ChannelView<C>> {
    Seq::new(
        channels.len(),
        |i: int| ChannelView { id: ChannelId { index: i as usize }, name: channels[i].0@, text_color: channels[i].1 },
    )
}

/// The messages that `from_existing` seeds: each text's UTF-8 bytes, sent to its channel.
pub open spec fn seeded_messages(messages: Seq<(&str, ChannelId)>) -> Seq<MessageView> {
    Seq::new(
        messages.len(),
        |i: int| MessageView { channel_id: messages[i].1, payload: messages[i].0.spec_bytes() },
    )
}

/// A multi-channel chat: a channel registry and a message log whose oldest
/// messages can be moved to an archive (pruned) and back (restored).
pub struct ChatHistory<C> {
    registry: ChannelRegistry<C>,
    archive: Vec<Message>,
    log: Vec<Message>,
    prune: ChatPrune,
}

impl<C> View for ChatHistory<C> {
    type V = ChatHistoryView<C>;

    closed spec fn view(&self) -> ChatHistoryView<C> {
        ChatHistoryView {
            channels: self.registry@,
            archive: messages_view(self.archive@),
            log: messages_view(self.log@),
            prune: self.prune,
        }
    }
}

impl<C> ChatHistory<C> {
    /// Registers `id` under `name` and `text_color`; an id that is registered
    /// already keeps its name and colour.
    pub fn add_channel(&mut self, id: ChannelId, name: &str, text_color: C)
        ensures
            final(self)@ == old(self)@.with_channel(id, name@, text_color),
    {
        self.registry.add(id, name, text_color);
    }

    /// The channel that `id` addresses, if any.
    pub fn lookup_channel(&self, id: ChannelId) -> (r: Option<&Channel<C>>)
        ensures
            match r {
                Some(c) => find_channel(self@.channels, id) == Some(c@),
                None => find_channel(self@.channels, id) is None,
            },
    {
        self.registry.lookup(id)
    }

    /// A handle through which the channel that `id` addresses can be changed, if any.
    pub fn lookup_channel_mut(&mut self, id: ChannelId) -> (r: Option<&mut Channel<C>>)
        ensures
            match r {
                Some(c) => {
                    &&& find_channel(old(self)@.channels, id) == Some(c@)
                    &&& final(self)@ == (ChatHistoryView {
                        channels: old(self)@.channels.update(
                            position_of(old(self)@.channels, id),
                            final(c)@,
                        ),
                        ..old(self)@
                    })
                },
                None => {
                    &&& find_channel(old(self)@.channels, id) is None
                    &&& final(self)@ == old(self)@
                },
            },
    {
        self.registry.lookup_mut(id)
    }

    /// Renames the channel that `id` addresses; false, with nothing changed,
    /// where `id` is unknown.
    pub fn rename_channel(&mut self, id: ChannelId, name: &str) -> (r: bool)
        ensures
            r == old(self)@.has_channel(id),
            final(self)@ == old(self)@.renamed(id, name@),
    {
        self.registry.rename(id, name)
    }

    /// Appends a message with `payload` for `channel_id` to the log. The id
    /// is not checked against the registry.
    pub fn send_message(&mut self, channel_id: ChannelId, payload: &[u8])
        ensures
            final(self)@ == old(self)@.sent(MessageView { channel_id, payload: payload@ }),
    {
        let m = Message { channel_id, payload: slice_to_vec(payload) };
        self.log.push(m);
        assert(messages_view(self.log@) =~= messages_view(old(self).log@).push(m@));
    }

    /// The visible messages, oldest first.
    pub fn iter_history(&self) -> (r: &[Message])
        ensures
            messages_view(r@) == self@.log,
    {
        self.log.as_slice()
    }

    /// The archived messages, oldest first.
    pub fn iter_backup(&self) -> (r: &[Message])
        ensures
            messages_view(r@) == self@.archive,
    {
        self.archive.as_slice()
    }

    /// Replaces the eviction policy; no message moves.
    pub fn set_prune(&mut self, enabled: bool, length: usize)
        ensures
            final(self)@ == old(self)@.with_prune(ChatPrune { enabled, length }),
    {
        self.prune = ChatPrune { enabled, length };
    }

    /// The eviction policy.
    pub fn get_prune(&self) -> (r: ChatPrune)
        ensures
            r == self@.prune,
    {
        self.prune
    }

    /// Where the policy is enabled and the log is longer than its length,
    /// moves the oldest visible messages to the end of the archive until the
    /// log has that length; otherwise does nothing.
    pub fn prune(&mut self)
        ensures
            final(self)@ == old(self)@.pruned(),
    {
        if self.prune.enabled && self.log.len() > self.prune.length {
            let k = self.log.len() - self.prune.length;
            let kept = self.log.split_off(k);
            self.archive.append(&mut self.log);
            self.log = kept;
            proof {
                let old_log = old(self).log@;
                assert(messages_view(old_log.take(k as int)) =~= messages_view(old_log).take(k as int));
                assert(messages_view(self.archive@) =~= messages_view(old(self).archive@) + messages_view(old_log).take(k as int));
                assert(messages_view(self.log@) =~= messages_view(old_log).skip(k as int));
            }
        } else {
            assert(old(self)@.log.take(0) =~= Seq::<MessageView>::empty());
            assert(old(self)@.archive + Seq::<MessageView>::empty() =~= old(self)@.archive);
            assert(old(self)@.log.skip(0) =~= old(self)@.log);
        }
    }

    /// Puts every archived message back in front of the log, in order, and
    /// empties the archive.
    pub fn restore(&mut self)
        ensures
            final(self)@ == old(self)@.restored(),
    {
        self.archive.append(&mut self.log);
        std::mem::swap(&mut self.archive, &mut self.log);
        assert(messages_view(self.log@) =~= messages_view(old(self).archive@) + messages_view(old(self).log@));
        assert(messages_view(self.archive@) =~= Seq::<MessageView>::empty());
    }
}

impl<C: Copy> ChatHistory<C> {
    /// A history whose channels are `channels`, with ids 0, 1, ... in list
    /// order, whose log holds `messages` in the order given, whose archive is
    /// empty and whose policy is `prune`. Nothing is pruned here.
    pub fn from_existing(channels: &[(String, C)], messages: &[(&str, ChannelId)], prune: ChatPrune) -> (r: ChatHistory<C>)
        ensures
            r@.channels == seeded_channels(channels@),
            r@.archive == Seq::<MessageView>::empty(),
            r@.log == seeded_messages(messages@),
            r@.prune == prune,
    {
        let mut registry: ChannelRegistry<C> = ChannelRegistry::new();
        let mut i: usize = 0;
        while i < channels.len()
            invariant
                0 <= i <= channels@.len(),
                registry@ =~= seeded_channels(channels@).take(i as int),
            decreases channels@.len() - i,
        {
            let id = ChannelId::new(i);
            proof {
                assert forall|j: int| 0 <= j < registry@.len() implies registry@[j].id != id by {
                    assert(registry@[j] == seeded_channels(channels@)[j]);
                }
            }
            registry.add(id, channels[i].0.as_str(), channels[i].1);
            i = i + 1;
        }
        let mut log: Vec<Message> = Vec::new();
        let mut i: usize = 0;
        while i < messages.len()
            invariant
                0 <= i <= messages@.len(),
                messages_view(log@) =~= seeded_messages(messages@).take(i as int),
            decreases messages@.len() - i,
        {
            let m = Message { channel_id: messages[i].1, payload: slice_to_vec(messages[i].0.as_bytes()) };
            let ghost before = log@;
            log.push(m);
            assert(messages_view(log@) =~= messages_view(before).push(m@));
            i = i + 1;
        }
        let r = ChatHistory { registry, archive: Vec::new(), log, prune };
        assert(messages_view(r.archive@) =~= Seq::<MessageView>::empty());
        r
    }

    /// The (name, colour) pairs of the channels, in registration order.
    pub fn channel_names(&self) -> (r: Vec<(String, C)>)
        ensures
            pairs_view(r@) == names_of(self@.channels),
    {
        self.registry.names()
    }
}

} // verus!
