use vstd::prelude::*;

use crate::channel::{ids_distinct, names_of, with_channel, renamed, ChannelId};
use crate::history::seeded_channels;
use crate::history::ChatHistoryView;
use crate::message::{ChatPrune, MessageView};

verus! {

/// One mutating call on a chat history, as its effect on the view.
pub enum Step<C> {
    Send(MessageView),
    Prune,
    Restore,
    SetPrune(ChatPrune),
    AddChannel(ChannelId, Seq<char>, C),
    Rename(ChannelId, Seq<char>),
}

/// The state after `s`, as the contract of the matching method states it.
pub open spec fn apply_step<C>(v: ChatHistoryView<C>, s: Step<C>) -> ChatHistoryView<C> {
    match s {
        Step::Send(m) => v.sent(m),
        Step::Prune => v.pruned(),
        Step::Restore => v.restored(),
        Step::SetPrune(p) => v.with_prune(p),
        Step::AddChannel(id, name, color) => v.with_channel(id, name, color),
        Step::Rename(id, name) => v.renamed(id, name),
    }
}

/// The state after the steps, in order.
pub open spec fn run<C>(v: ChatHistoryView<C>, steps: Seq<Step<C>>) -> ChatHistoryView<C>
    decreases steps.len(),
{
    if steps.len() == 0 {
        v
    } else {
        apply_step(run(v, steps.drop_last()), steps.last())
    }
}

/// The messages that the steps send, in order.
pub open spec fn sent_by<C>(steps: Seq<Step<C>>) -> Seq<MessageView>
    decreases steps.len(),
{
    if steps.len() == 0 {
        Seq::empty()
    } else {
        match steps.last() {
            Step::Send(m) => sent_by(steps.drop_last()).push(m),
            _ => sent_by(steps.drop_last()),
        }
    }
}

/// Whatever sequence of sends, prunes, restores and other calls is made, the
/// archive followed by the log is the history that was there before,
/// followed by the sent messages in send order.
pub proof fn lemma_chronology_preserved<C>(v: ChatHistoryView<C>, steps: Seq<Step<C>>)
    ensures
        run(v, steps).full_history() == v.full_history() + sent_by(steps),
    decreases steps.len(),
{
    if steps.len() == 0 {
        assert(v.full_history() + Seq::<MessageView>::empty() =~= v.full_history());
    } else {
        let prev = run(v, steps.drop_last());
        lemma_chronology_preserved(v, steps.drop_last());
        match steps.last() {
            Step::Send(m) => {
                assert(prev.sent(m).full_history() =~= prev.full_history().push(m));
                assert(v.full_history() + sent_by(steps.drop_last()).push(m)
                    =~= (v.full_history() + sent_by(steps.drop_last())).push(m));
            },
            Step::Prune => {
                lemma_prune_keeps_history(prev);
            },
            Step::Restore => {
                lemma_restore_keeps_history(prev);
            },
            _ => {},
        }
    }
}

/// Pruning moves messages between the log and the archive and loses none.
pub proof fn lemma_prune_keeps_history<C>(v: ChatHistoryView<C>)
    ensures
        v.pruned().full_history() == v.full_history(),
{
    let k = v.excess();
    assert(v.log.take(k) + v.log.skip(k) =~= v.log);
    assert(v.pruned().full_history() =~= v.archive + (v.log.take(k) + v.log.skip(k)));
}

/// Restoring moves messages between the log and the archive and loses none.
pub proof fn lemma_restore_keeps_history<C>(v: ChatHistoryView<C>)
    ensures
        v.restored().full_history() == v.full_history(),
{
    assert(v.restored().full_history() =~= v.full_history());
}

/// Restoring twice in a row leaves the same state as restoring once.
pub proof fn lemma_restore_idempotent<C>(v: ChatHistoryView<C>)
    ensures
        v.restored().restored() == v.restored(),
{
    assert(v.restored().restored().log =~= v.restored().log);
}

/// After pruning under an enabled policy the log holds at most the policy's
/// length; under a disabled policy pruning changes nothing.
pub proof fn lemma_prune_bound<C>(v: ChatHistoryView<C>)
    ensures
        v.prune.enabled ==> v.pruned().log.len() <= v.prune.length,
        !v.prune.enabled ==> v.pruned() == v,
{
    if !v.prune.enabled {
        assert(v.log.take(0) =~= Seq::<MessageView>::empty());
        assert(v.archive + v.log.take(0) =~= v.archive);
        assert(v.log.skip(0) =~= v.log);
    }
}

/// Renaming an id that no channel carries returns false and leaves the
/// registry, and so the listed names and colours, exactly as they were.
pub proof fn lemma_rename_unknown<C>(v: ChatHistoryView<C>, id: ChannelId, name: Seq<char>)
    requires
        !v.has_channel(id),
    ensures
        v.renamed(id, name) == v,
        names_of(v.renamed(id, name).channels) == names_of(v.channels),
{
}

/// Registering an id a second time, under any name and colour, leaves the
/// registry as the first registration left it.
pub proof fn lemma_register_idempotent<C>(
    v: ChatHistoryView<C>,
    id: ChannelId,
    name: Seq<char>,
    text_color: C,
    other_name: Seq<char>,
    other_color: C,
)
    ensures
        v.with_channel(id, name, text_color).with_channel(id, other_name, other_color)
            == v.with_channel(id, name, text_color),
{
    let once = v.with_channel(id, name, text_color);
    if !v.has_channel(id) {
        assert(once.channels[v.channels.len() as int].id == id);
    }
    assert(once.has_channel(id));
}

/// Ids are never reused: the channels that `from_existing` seeds carry
/// distinct ids, and registering or renaming keeps them distinct.
pub proof fn lemma_ids_stay_distinct<C>(
    seed: Seq<(String, C)>,
    v: ChatHistoryView<C>,
    id: ChannelId,
    name: Seq<char>,
    text_color: C,
)
    requires
        seed.len() <= usize::MAX,
    ensures
        ids_distinct(seeded_channels(seed)),
        ids_distinct(v.channels) ==> ids_distinct(with_channel(v.channels, id, name, text_color)),
        ids_distinct(v.channels) ==> ids_distinct(renamed(v.channels, id, name)),
{
    let seeded = seeded_channels(seed);
    assert forall|i: int, j: int| 0 <= i < j < seeded.len() implies seeded[i].id != seeded[j].id by {
        assert(seeded[i].id.index == i && seeded[j].id.index == j);
    }
    if ids_distinct(v.channels) && v.has_channel(id) {
        crate::channel::lemma_position_of(v.channels, id);
    }
}

} // verus!
