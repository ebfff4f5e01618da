use vstd::prelude::*;

verus! {

/// Stable handle of a channel: its index in registration order.
#[derive(Clone, Copy, Debug, PartialEq, Eq, Structural)]
pub struct ChannelId {
    pub index: usize,
}

impl ChannelId {
    pub fn new(index: usize) -> (r: ChannelId)
        ensures
            r.index == index,
    {
        ChannelId { index }
    }
}

/// A named category of messages, drawn in its own text colour.
///
/// The registry never reads a colour: `C` is whatever colour value the
/// presentation layer works with.
#[derive(Debug)]
pub struct Channel<C> {
    pub id: ChannelId,
    pub name: String,
    pub text_color: C,
}

/// What a channel holds, with its name as a sequence of characters.
pub struct ChannelView<C> {
    pub id: ChannelId,
    pub name: Seq<char>,
    pub text_color: C,
}

impl<C> View for Channel<C> {
    type V = ChannelView<C>;

    open spec fn view(&self) -> ChannelView<C> {
        ChannelView { id: self.id, name: self.name@, text_color: self.text_color }
    }
}

/// Some channel of `chs` carries `id`.
pub open spec fn contains_id<C>(chs: Seq<ChannelView<C>>, id: ChannelId) -> bool {
    exists|i: int| 0 <= i < chs.len() && chs[i].id == id
}

/// `i` is the first position of `chs` whose channel carries `id`.
pub open spec fn is_first_with_id<C>(chs: Seq<ChannelView<C>>, id: ChannelId, i: int) -> bool {
    &&& 0 <= i < chs.len()
    &&& chs[i].id == id
    &&& forall|j: int| 0 <= j < i ==> chs[j].id != id
}

/// The position of the channel that `id` addresses (meaningful where `contains_id`).
pub open spec fn position_of<C>(chs: Seq<ChannelView<C>>, id: ChannelId) -> int {
    choose|i: int| is_first_with_id(chs, id, i)
}

/// The channel that `id` addresses, if any.
pub open spec fn find_channel<C>(chs: Seq<ChannelView<C>>, id: ChannelId) -> Option<ChannelView<C>> {
    if contains_id(chs, id) {
        Some(chs[position_of(chs, id)])
    } else {
        None
    }
}

/// Registration: a new id is appended; a known id leaves the registry as it is.
pub open spec fn with_channel<C>(
    chs: Seq<ChannelView<C>>,
    id: ChannelId,
    name: Seq<char>,
    text_color: C,
) -> Seq<ChannelView<C>> {
    if contains_id(chs, id) {
        chs
    } else {
        chs.push(ChannelView { id, name, text_color })
    }
}

/// Renaming: the addressed channel gets `name` and keeps its id, colour and
/// position; an unknown id leaves the registry as it is.
pub open spec fn renamed<C>(chs: Seq<ChannelView<C>>, id: ChannelId, name: Seq<char>) -> Seq<
    ChannelView<C>,
> {
    if contains_id(chs, id) {
        let p = position_of(chs, id);
        chs.update(p, ChannelView { id: chs[p].id, name, text_color: chs[p].text_color })
    } else {
        chs
    }
}

/// The (name, colour) pairs of `chs`, in registration order.
pub open spec fn names_of<C>(chs: Seq<ChannelView<C>>) -> Seq<(Seq<char>, C)> {
    chs.map_values(|c: ChannelView<C>| (c.name, c.text_color))
}

/// No two channels of `chs` carry the same id.
pub open spec fn ids_distinct<C>(chs: Seq<ChannelView<C>>) -> bool {
    forall|i: int, j: int| 0 <= i < j < chs.len() ==> chs[i].id != chs[j].id
}

/// The (name, colour) pairs of `r`, with each name as a sequence of characters.
pub open spec fn pairs_view<C>(r: Seq<(String, C)>) -> Seq<(Seq<char>, C)> {
    r.map_values(|p: (String, C)| (p.0@, p.1))
}

/// Where some channel carries `id`, a first such position exists, and
/// `position_of` is that position.
pub proof fn lemma_position_of<C>(chs: Seq<ChannelView<C>>, id: ChannelId)
    requires
        contains_id(chs, id),
    ensures
        is_first_with_id(chs, id, position_of(chs, id)),
{
    let i = choose|i: int| 0 <= i < chs.len() && chs[i].id == id;
    lemma_first_below(chs, id, i);
}

proof fn lemma_first_below<C>(chs: Seq<ChannelView<C>>, id: ChannelId, i: int)
    requires
        0 <= i < chs.len(),
        chs[i].id == id,
    ensures
        exists|k: int| is_first_with_id(chs, id, k),
    decreases i,
{
    if exists|j: int| 0 <= j < i && chs[j].id == id {
        let j = choose|j: int| 0 <= j < i && chs[j].id == id;
        lemma_first_below(chs, id, j);
    } else {
        assert(is_first_with_id(chs, id, i));
    }
}

/// The first position of an id is the only one.
pub proof fn lemma_first_unique<C>(chs: Seq<ChannelView<C>>, id: ChannelId, i: int, k: int)
    requires
        is_first_with_id(chs, id, i),
        is_first_with_id(chs, id, k),
    ensures
        i == k,
{
    if i < k {
        assert(chs[i].id != id);
    } else if k < i {
        assert(chs[k].id != id);
    }
}

/// The channels of a chat, in registration order.
pub struct ChannelRegistry<C> {
    channels: Vec<Channel<C>>,
}

impl<C> View for ChannelRegistry<C> {
    type V = Seq<ChannelView<C>>;

    closed spec fn view(&self) -> Seq<ChannelView<C>> {
        self.channels@.map_values(|c: Channel<C>| c@)
    }
}

impl<C> ChannelRegistry<C> {
    pub fn new() -> (r: ChannelRegistry<C>)
        ensures
            r@ == Seq::<ChannelView<C>>::empty(),
    {
        let r = ChannelRegistry { channels: Vec::new() };
        assert(r@ =~= Seq::<ChannelView<C>>::empty());
        r
    }

    /// The position of the channel that `id` addresses.
    fn find_index(&self, id: ChannelId) -> (r: Option<usize>)
        ensures
            match r {
                Some(i) => {
                    &&& contains_id(self@, id)
                    &&& i == position_of(self@, id)
                    &&& is_first_with_id(self@, id, i as int)
                    &&& i < self.channels@.len()
                },
                None => !contains_id(self@, id),
            },
    {
        let mut i: usize = 0;
        while i < self.channels.len()
            invariant
                0 <= i <= self.channels@.len(),
                self@.len() == self.channels@.len(),
                forall|j: int| 0 <= j < i ==> self@[j].id != id,
            decreases self.channels@.len() - i,
        {
            if self.channels[i].id == id {
                proof {
                    assert(is_first_with_id(self@, id, i as int));
                    lemma_position_of(self@, id);
                    lemma_first_unique(self@, id, i as int, position_of(self@, id));
                }
                return Some(i);
            }
            i = i + 1;
        }
        None
    }

    /// Registers `id` under `name` and `text_color`, unless it is registered already.
    pub fn add(&mut self, id: ChannelId, name: &str, text_color: C)
        ensures
            final(self)@ == with_channel(old(self)@, id, name@, text_color),
    {
        match self.find_index(id) {
            Some(_) => {},
            None => {
                let channel = Channel { id, name: name.to_owned(), text_color };
                self.channels.push(channel);
                assert(self@ =~= old(self)@.push(channel@));
            },
        }
    }

    /// The channel that `id` addresses, if any.
    pub fn lookup(&self, id: ChannelId) -> (r: Option<&Channel<C>>)
        ensures
            match r {
                Some(c) => find_channel(self@, id) == Some(c@),
                None => find_channel(self@, id) is None,
            },
    {
        match self.find_index(id) {
            Some(i) => Some(&self.channels[i]),
            None => None,
        }
    }

    /// A handle through which the channel that `id` addresses can be changed.
    pub fn lookup_mut(&mut self, id: ChannelId) -> (r: Option<&mut Channel<C>>)
        ensures
            match r {
                Some(c) => {
                    &&& find_channel(old(self)@, id) == Some(c@)
                    &&& final(self)@ == old(self)@.update(
                        position_of(old(self)@, id),
                        final(c)@,
                    )
                },
                None => {
                    &&& find_channel(old(self)@, id) is None
                    &&& final(self)@ == old(self)@
                },
            },
    {
        match self.find_index(id) {
            Some(i) => Some(&mut self.channels[i]),
            None => None,
        }
    }

    /// Gives the channel that `id` addresses the name `name`; false where `id` is unknown.
    pub fn rename(&mut self, id: ChannelId, name: &str) -> (r: bool)
        ensures
            r == contains_id(old(self)@, id),
            final(self)@ == renamed(old(self)@, id, name@),
    {
        match self.find_index(id) {
            Some(i) => {
                let channel = &mut self.channels[i];
                channel.name = name.to_owned();
                assert(self@ =~= renamed(old(self)@, id, name@));
                true
            },
            None => false,
        }
    }
}

impl<C: Copy> ChannelRegistry<C> {
    /// The (name, colour) pairs of the channels, in registration order.
    pub fn names(&self) -> (r: Vec<(String, C)>)
        ensures
            pairs_view(r@) == names_of(self@),
    {
        let mut r: Vec<(String, C)> = Vec::new();
        let mut i: usize = 0;
        while i < self.channels.len()
            invariant
                0 <= i <= self.channels@.len(),
                self@.len() == self.channels@.len(),
                r@.len() == i,
                pairs_view(r@) =~= names_of(self@).take(i as int),
            decreases self.channels@.len() - i,
        {
            let channel = &self.channels[i];
            r.push((channel.name.clone(), channel.text_color));
            proof {
                assert(self@[i as int] == self.channels@[i as int]@);
                assert(pairs_view(r@)[i as int] == names_of(self@)[i as int]);
            }
            i = i + 1;
        }
        assert(names_of(self@).take(i as int) =~= names_of(self@));
        r
    }
}

} // verus!
