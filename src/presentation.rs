use vstd::prelude::*;
use vstd::slice::slice_to_vec;

use crate::channel::{find_channel, ChannelId, ChannelView};
use crate::history::ChatHistory;
use crate::message::{messages_view, ChatPrune, Message, MessageView};

verus! {

/// Which editing popup the chat window has open, with what that popup needs.
#[derive(Clone, Debug)]
pub enum EditingFieldOption {
    NotEditing,
    ChatHistoryMaximumLength,
    ChannelName(ChannelId, String),
    ChannelColorText(ChannelId),
    ChatHistoryViewAll,
}

/// The tab of channel 0 shows every channel; any other tab shows its own.
pub open spec fn tab_shows(selected: ChannelId, channel_id: ChannelId) -> bool {
    selected.index == 0 || channel_id == selected
}

/// Whether the tab `selected` of the chat window shows a message of `channel_id`.
pub fn shows_in_tab(selected: ChannelId, channel_id: ChannelId) -> (r: bool)
    ensures
        r == tab_shows(selected, channel_id),
{
    selected.index == 0 || channel_id == selected
}

/// A message as the window draws it: its bytes in its channel's colour.
pub open spec fn line_of<C>(m: MessageView, chs: Seq<ChannelView<C>>) -> Option<(Seq<u8>, C)> {
    match find_channel(chs, m.channel_id) {
        Some(c) => Some((m.payload, c.text_color)),
        None => None,
    }
}

/// The lines drawn for `msgs`, oldest first: a message is drawn where `tab`
/// is none or shows its channel, and its channel is registered.
pub open spec fn lines_of<C>(
    msgs: Seq<MessageView>,
    chs: Seq<ChannelView<C>>,
    tab: Option<ChannelId>,
) -> Seq<(Seq<u8>, C)>
    decreases msgs.len(),
{
    if msgs.len() == 0 {
        Seq::empty()
    } else {
        let rest = lines_of(msgs.drop_last(), chs, tab);
        let m = msgs.last();
        let shown = match tab {
            Some(sel) => tab_shows(sel, m.channel_id),
            None => true,
        };
        match line_of(m, chs) {
            Some(line) => if shown {
                rest.push(line)
            } else {
                rest
            },
            None => rest,
        }
    }
}

/// The views of drawn lines.
pub open spec fn lines_view<C>(r: Seq<(Vec<u8>, C)>) -> Seq<(Seq<u8>, C)> {
    r.map_values(|l: (Vec<u8>, C)| (l.0@, l.1))
}

/// Appends to `out` the lines drawn for `msgs`.
fn push_lines<C: Copy>(
    history: &ChatHistory<C>,
    msgs: &[Message],
    tab: Option<ChannelId>,
    out: &mut Vec<(Vec<u8>, C)>,
)
    ensures
        lines_view(final(out)@) == lines_view(old(out)@) + lines_of(
            messages_view(msgs@),
            history@.channels,
            tab,
        ),
{
    let ghost start = lines_view(out@);
    let ghost views = messages_view(msgs@);
    let mut i: usize = 0;
    while i < msgs.len()
        invariant
            0 <= i <= msgs@.len(),
            views == messages_view(msgs@),
            lines_view(out@) == start + lines_of(views.take(i as int), history@.channels, tab),
        decreases msgs@.len() - i,
    {
        let m = &msgs[i];
        let ghost before = out@;
        assert(views.take(i as int + 1).drop_last() =~= views.take(i as int));
        assert(views.take(i as int + 1).last() == m@);
        let shown = match tab {
            Some(sel) => shows_in_tab(sel, m.channel_id),
            None => true,
        };
        match history.lookup_channel(m.channel_id) {
            Some(channel) => {
                if shown {
                    out.push((slice_to_vec(m.payload.as_slice()), channel.text_color));
                    assert(lines_view(out@) =~= lines_view(before).push((m.payload@, channel.text_color)));
                }
            },
            None => {},
        }
        i = i + 1;
    }
    assert(views.take(i as int) =~= views);
}

/// The lines that the chat window draws under the tab `selected`: the
/// visible messages that the tab shows and whose channel is registered, each
/// in its channel's colour, oldest first.
pub fn tab_lines<C: Copy>(history: &ChatHistory<C>, selected: ChannelId) -> (r: Vec<(Vec<u8>, C)>)
    ensures
        lines_view(r@) == lines_of(history@.log, history@.channels, Some(selected)),
{
    let mut r: Vec<(Vec<u8>, C)> = Vec::new();
    push_lines(history, history.iter_history(), Some(selected), &mut r);
    assert(lines_view(Seq::<(Vec<u8>, C)>::empty()) + lines_of(history@.log, history@.channels, Some(selected))
        =~= lines_of(history@.log, history@.channels, Some(selected)));
    r
}

/// The lines of the full history: the archived messages, then the visible
/// ones, each whose channel is registered, in its channel's colour.
pub fn all_lines<C: Copy>(history: &ChatHistory<C>) -> (r: Vec<(Vec<u8>, C)>)
    ensures
        lines_view(r@) == lines_of(history@.archive, history@.channels, None) + lines_of(
            history@.log,
            history@.channels,
            None,
        ),
{
    let mut r: Vec<(Vec<u8>, C)> = Vec::new();
    push_lines(history, history.iter_backup(), None, &mut r);
    push_lines(history, history.iter_history(), None, &mut r);
    assert(lines_view(Seq::<(Vec<u8>, C)>::empty()) + lines_of(history@.archive, history@.channels, None)
        =~= lines_of(history@.archive, history@.channels, None));
    r
}

/// A length typed into the history-length field, with negatives read as 0.
pub open spec fn clamped_length_spec(typed: i32) -> usize {
    if typed < 0 {
        0
    } else {
        typed as usize
    }
}

/// A length typed into the history-length field, with negatives read as 0.
pub fn clamped_length(typed: i32) -> (r: usize)
    ensures
        r == clamped_length_spec(typed),
        r as int == if typed < 0 { 0 } else { typed as int },
{
    if typed < 0 {
        0
    } else {
        typed as usize
    }
}

/// Applies a new history-length setting: stores the policy, puts the whole
/// history back in view, then prunes to the new length where it is enabled.
/// A negative length counts as 0.
pub fn apply_prune_setting<C>(history: &mut ChatHistory<C>, enabled: bool, length: i32)
    ensures
        final(history)@ == old(history)@.with_prune(
            ChatPrune { enabled, length: clamped_length_spec(length) },
        ).restored().pruned(),
{
    history.set_prune(enabled, clamped_length(length));
    history.restore();
    if enabled {
        history.prune();
    } else {
        proof {
            crate::laws::lemma_prune_bound(history@);
        }
    }
}

/// The bytes put in front of what the user sends: "You: " in ASCII.
pub open spec fn own_prefix() -> Seq<u8> {
    seq![89u8, 111u8, 117u8, 58u8, 32u8]
}

/// What the user typed, marked as theirs: `You: ` followed by the input.
pub fn own_message(input: &[u8]) -> (r: Vec<u8>)
    ensures
        r@ == own_prefix() + input@,
{
    // the ASCII bytes of "You: "
    let mut r: Vec<u8> = vec![89u8, 111u8, 117u8, 58u8, 32u8];
    let mut i: usize = 0;
    while i < input.len()
        invariant
            0 <= i <= input@.len(),
            r@ == own_prefix() + input@.take(i as int),
        decreases input@.len() - i,
    {
        r.push(input[i]);
        assert(input@.take(i as int + 1) =~= input@.take(i as int).push(input@[i as int]));
        assert(own_prefix() + input@.take(i as int + 1) =~= (own_prefix() + input@.take(i as int)).push(input@[i as int]));
        i = i + 1;
    }
    assert(input@.take(i as int) =~= input@);
    r
}

} // verus!
