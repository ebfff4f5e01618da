use vstd::prelude::*;

use crate::channel::ChannelId;

verus! {

/// One chat message: the channel it was sent to and its raw bytes.
///
/// The bytes are stored as given; decoding them is up to whoever displays them.
#[derive(Debug)]
pub struct Message {
    pub channel_id: ChannelId,
    pub payload: Vec<u8>,
}

/// What a message holds, with its payload as a sequence of bytes.
pub struct MessageView {
    pub channel_id: ChannelId,
    pub payload: Seq<u8>,
}

impl View for Message {
    type V = MessageView;

    open spec fn view(&self) -> MessageView {
        MessageView { channel_id: self.channel_id, payload: self.payload@ }
    }
}

/// The views of a sequence of messages, in the same order.
pub open spec fn messages_view(ms: Seq<Message>) -> Seq<MessageView> {
    ms.map_values(|m: Message| m@)
}

/// The eviction policy of the visible window: when `enabled`, pruning keeps
/// the `length` most recent messages visible.
#[derive(Clone, Copy, Debug, PartialEq, Eq, Structural)]
pub struct ChatPrune {
    pub enabled: bool,
    pub length: usize,
}

} // verus!
