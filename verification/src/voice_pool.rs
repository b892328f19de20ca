//! The slots of the synthesizer's voices: which voices sound, the channel, key and
//! exclusive class each plays, which slot a new note takes, and how a finished voice
//! leaves. The sound of a voice, and the priority by which a busy slot is stolen, are
//! floating point and stay with the renderer, which keeps its voices in the same slots.

use vstd::prelude::*;

verus! {

broadcast use {vstd::seq_lib::group_to_multiset_ensures, vstd::multiset::group_multiset_axioms};

/// What a sounding voice is known by.
#[derive(Clone, Copy, Debug, PartialEq, Eq, Structural)]
pub struct VoiceTag {
    pub channel: i32,
    pub key: i32,
    /// The exclusive class of the voice's region (0 for none).
    pub exclusive_class: i32,
}

/// The slot a new note takes.
#[derive(Clone, Copy, Debug, PartialEq, Eq, Structural)]
pub enum SlotChoice {
    /// The sounding voice of the same exclusive class on the same channel gives up its
    /// slot.
    Reused(usize),
    /// A free slot.
    Fresh(usize),
    /// Every slot is busy: the renderer picks one to steal by priority (see `steal`).
    Busy,
}

/// `t` sounds in the exclusive class that `tag` asks for, on `tag`'s channel.
pub open spec fn spec_same_exclusive(t: VoiceTag, tag: VoiceTag) -> bool {
    tag.exclusive_class != 0 && t.exclusive_class == tag.exclusive_class && t.channel
        == tag.channel
}

/// No voice of `s` sounds in the exclusive class that `tag` asks for.
pub open spec fn spec_no_exclusive_match(s: Seq<VoiceTag>, tag: VoiceTag) -> bool {
    forall|j: int| 0 <= j < s.len() ==> !#[trigger] spec_same_exclusive(s[j], tag)
}

/// At most one voice of each exclusive class sounds on a channel.
pub open spec fn spec_exclusive_unique(s: Seq<VoiceTag>) -> bool {
    forall|i: int, j: int|
        0 <= i < j < s.len() ==> !spec_same_exclusive(#[trigger] s[j], #[trigger] s[i])
}

/// `t` plays on `channel`, and plays `key` where one is given.
pub open spec fn spec_plays(t: VoiceTag, channel: i32, key: Option<i32>) -> bool {
    t.channel == channel && match key {
        Some(k) => t.key == k,
        None => true,
    }
}

/// The slots among the first `n` of `s` that play on `channel` (and `key`), in order.
pub open spec fn spec_matching_slots(s: Seq<VoiceTag>, channel: i32, key: Option<i32>, n: int) -> Seq<
    usize,
>
    decreases n,
{
    if n <= 0 {
        Seq::empty()
    } else {
        let before = spec_matching_slots(s, channel, key, n - 1);
        if spec_plays(s[n - 1], channel, key) {
            before.push((n - 1) as usize)
        } else {
            before
        }
    }
}

/// The first of the first `n` slots of `s` whose voice sounds in `tag`'s exclusive class
/// on its channel.
pub open spec fn spec_first_exclusive(s: Seq<VoiceTag>, tag: VoiceTag, n: int) -> Option<int>
    decreases n,
{
    if n <= 0 {
        None
    } else {
        match spec_first_exclusive(s, tag, n - 1) {
            Some(i) => Some(i),
            None => if spec_same_exclusive(s[n - 1], tag) {
                Some(n - 1)
            } else {
                None
            },
        }
    }
}

/// The slot a voice tagged `tag` takes among the sounding voices `s` of a pool of
/// `capacity` slots, and the sounding voices after it.
pub open spec fn spec_request(s: Seq<VoiceTag>, capacity: nat, tag: VoiceTag) -> (
    SlotChoice,
    Seq<VoiceTag>,
) {
    match spec_first_exclusive(s, tag, s.len() as int) {
        Some(i) => (SlotChoice::Reused(i as usize), s.update(i, tag)),
        None => if s.len() < capacity {
            (SlotChoice::Fresh(s.len() as usize), s.push(tag))
        } else {
            (SlotChoice::Busy, s)
        },
    }
}

/// The slots that voices tagged `tags` take in turn, and the sounding voices after them.
pub open spec fn spec_requests(s: Seq<VoiceTag>, capacity: nat, tags: Seq<VoiceTag>) -> (
    Seq<SlotChoice>,
    Seq<VoiceTag>,
)
    decreases tags.len(),
{
    if tags.len() == 0 {
        (Seq::empty(), s)
    } else {
        let before = spec_requests(s, capacity, tags.drop_last());
        let next = spec_request(before.1, capacity, tags.last());
        (before.0.push(next.0), next.1)
    }
}

/// `spec_first_exclusive` finds the least matching slot.
proof fn lemma_first_exclusive(s: Seq<VoiceTag>, tag: VoiceTag, n: int)
    ensures
        match spec_first_exclusive(s, tag, n) {
            Some(i) => 0 <= i < n && spec_same_exclusive(s[i], tag) && forall|j: int|
                0 <= j < i ==> !#[trigger] spec_same_exclusive(s[j], tag),
            None => forall|j: int| 0 <= j < n ==> !#[trigger] spec_same_exclusive(s[j], tag),
        },
    decreases n,
{
    if n > 0 {
        lemma_first_exclusive(s, tag, n - 1);
    }
}

/// The voice slots of a synthesizer. The first `active` slots hold the sounding voices.
pub struct VoicePool {
    tags: Vec<VoiceTag>,
    active: usize,
}

impl View for VoicePool {
    /// The tags of the sounding voices, slot by slot.
    type V = Seq<VoiceTag>;

    closed spec fn view(&self) -> Seq<VoiceTag> {
        self.tags@.subrange(0, self.active as int)
    }
}

impl VoicePool {
    /// How many voices can sound at a time.
    pub closed spec fn capacity(&self) -> nat {
        self.tags@.len()
    }

    pub closed spec fn wf(&self) -> bool {
        self.active <= self.tags@.len()
    }

    /// A pool of `maximum_polyphony` slots, none sounding.
    pub fn new(maximum_polyphony: usize) -> (pool: Self)
        ensures
            pool.wf(),
            pool@ == Seq::<VoiceTag>::empty(),
            pool.capacity() == maximum_polyphony,
    {
        let mut tags: Vec<VoiceTag> = Vec::new();
        let mut i: usize = 0;
        while i < maximum_polyphony
            invariant
                i <= maximum_polyphony,
                tags@.len() == i,
            decreases maximum_polyphony - i,
        {
            tags.push(VoiceTag { channel: 0, key: 0, exclusive_class: 0 });
            i = i + 1;
        }
        let pool = VoicePool { tags, active: 0 };
        assert(pool@ =~= Seq::<VoiceTag>::empty());
        pool
    }

    /// How many voices sound.
    pub fn active_count(&self) -> (n: usize)
        requires
            self.wf(),
        ensures
            n == self@.len(),
    {
        self.active
    }

    /// How many voices can sound at a time.
    pub fn maximum_polyphony(&self) -> (n: usize)
        ensures
            n == self.capacity(),
    {
        self.tags.len()
    }

    /// The tag of the voice in slot `index`.
    pub fn tag(&self, index: usize) -> (t: VoiceTag)
        requires
            self.wf(),
            index < self@.len(),
        ensures
            t == self@[index as int],
    {
        self.tags[index]
    }

    /// The slot for a new voice tagged `tag`: a sounding voice of the same exclusive class
    /// on the same channel (the first one) is replaced, else a free slot is taken, else
    /// every slot is busy and nothing changes.
    pub fn request(&mut self, tag: VoiceTag) -> (choice: SlotChoice)
        requires
            old(self).wf(),
        ensures
            final(self).wf(),
            final(self).capacity() == old(self).capacity(),
            match choice {
                SlotChoice::Reused(i) => {
                    &&& i < old(self)@.len()
                    &&& spec_same_exclusive(old(self)@[i as int], tag)
                    &&& forall|j: int|
                        0 <= j < i ==> !#[trigger] spec_same_exclusive(old(self)@[j], tag)
                    &&& final(self)@ == old(self)@.update(i as int, tag)
                },
                SlotChoice::Fresh(i) => {
                    &&& spec_no_exclusive_match(old(self)@, tag)
                    &&& i == old(self)@.len()
                    &&& old(self)@.len() < old(self).capacity()
                    &&& final(self)@ == old(self)@.push(tag)
                },
                SlotChoice::Busy => {
                    &&& spec_no_exclusive_match(old(self)@, tag)
                    &&& old(self)@.len() == old(self).capacity()
                    &&& final(self)@ == old(self)@
                },
            },
            (choice, final(self)@) == spec_request(old(self)@, old(self).capacity(), tag),
            spec_exclusive_unique(old(self)@) ==> spec_exclusive_unique(final(self)@),
    {
        let ghost before = self@;
        proof {
            lemma_first_exclusive(before, tag, before.len() as int);
        }
        if tag.exclusive_class != 0 {
            let mut i: usize = 0;
            while i < self.active
                invariant
                    self.wf(),
                    self.tags@ == old(self).tags@,
                    self.active == old(self).active,
                    self@ == before,
                    tag.exclusive_class != 0,
                    i <= self.active,
                    forall|j: int| 0 <= j < i ==> !#[trigger] spec_same_exclusive(before[j], tag),
                decreases self.active - i,
            {
                let t = self.tags[i];
                proof {
                    assert(t == before[i as int]);
                }
                if t.exclusive_class == tag.exclusive_class && t.channel == tag.channel {
                    self.tags.set(i, tag);
                    proof {
                        assert(self@ =~= before.update(i as int, tag));
                        lemma_unique_after_reuse(before, tag, i as int);
                        lemma_first_exclusive(before, tag, before.len() as int);
                    }
                    return SlotChoice::Reused(i);
                }
                i = i + 1;
            }
        }
        assert(spec_no_exclusive_match(before, tag));
        if self.active < self.tags.len() {
            let i = self.active;
            self.tags.set(i, tag);
            self.active = i + 1;
            proof {
                assert(self@ =~= before.push(tag));
                lemma_unique_after_push(before, tag);
            }
            SlotChoice::Fresh(i)
        } else {
            SlotChoice::Busy
        }
    }

    /// Gives slot `index`, whose voice the renderer chose to steal, to a new voice tagged
    /// `tag`.
    pub fn steal(&mut self, index: usize, tag: VoiceTag)
        requires
            old(self).wf(),
            index < old(self)@.len(),
        ensures
            final(self).wf(),
            final(self).capacity() == old(self).capacity(),
            final(self)@ == old(self)@.update(index as int, tag),
            spec_exclusive_unique(old(self)@) && spec_no_exclusive_match(old(self)@, tag)
                ==> spec_exclusive_unique(final(self)@),
    {
        let ghost before = self@;
        self.tags.set(index, tag);
        proof {
            assert(self@ =~= before.update(index as int, tag));
            lemma_unique_after_steal(before, tag, index as int);
        }
    }

    /// The voice in slot `index` has finished: the last sounding voice moves into its slot.
    /// Returns the slot it came from, which the renderer's voices swap with `index` too.
    pub fn retire(&mut self, index: usize) -> (last: usize)
        requires
            old(self).wf(),
            index < old(self)@.len(),
        ensures
            final(self).wf(),
            final(self).capacity() == old(self).capacity(),
            last + 1 == old(self)@.len(),
            final(self)@ == old(self)@.update(index as int, old(self)@.last()).drop_last(),
            final(self)@.to_multiset() == old(self)@.to_multiset().remove(old(self)@[index as int]),
            spec_exclusive_unique(old(self)@) ==> spec_exclusive_unique(final(self)@),
    {
        let ghost before = self@;
        let last = self.active - 1;
        let moved = self.tags[last];
        self.tags.set(index, moved);
        self.active = last;
        proof {
            assert(self@ =~= before.update(index as int, before.last()).drop_last());
            lemma_retire_multiset(before, index as int);
            lemma_unique_after_retire(before, index as int);
        }
        last
    }

    /// Every voice stops at once.
    pub fn clear(&mut self)
        requires
            old(self).wf(),
        ensures
            final(self).wf(),
            final(self).capacity() == old(self).capacity(),
            final(self)@ == Seq::<VoiceTag>::empty(),
    {
        self.active = 0;
        assert(self@ =~= Seq::<VoiceTag>::empty());
    }

    /// The slots of the voices that play on `channel` (and `key`, where one is given), in
    /// order.
    fn matching_slots(&self, channel: i32, key: Option<i32>) -> (slots: Vec<usize>)
        requires
            self.wf(),
        ensures
            slots@ == spec_matching_slots(self@, channel, key, self@.len() as int),
    {
        let mut slots: Vec<usize> = Vec::new();
        let mut i: usize = 0;
        while i < self.active
            invariant
                self.wf(),
                i <= self.active,
                slots@ == spec_matching_slots(self@, channel, key, i as int),
            decreases self.active - i,
        {
            let t = self.tags[i];
            assert(t == self@[i as int]);
            let plays = t.channel == channel && match key {
                Some(k) => t.key == k,
                None => true,
            };
            if plays {
                slots.push(i);
            }
            i = i + 1;
        }
        slots
    }

    /// The slots of the voices that play on `channel`, in order: those that All Notes Off,
    /// All Sound Off and the sostenuto pedal act on.
    pub fn slots_of_channel(&self, channel: i32) -> (slots: Vec<usize>)
        requires
            self.wf(),
        ensures
            slots@ == spec_matching_slots(self@, channel, None, self@.len() as int),
    {
        self.matching_slots(channel, None)
    }

    /// The slots of the voices that play `key` on `channel`, in order: those that a note
    /// off releases.
    pub fn slots_of_key(&self, channel: i32, key: i32) -> (slots: Vec<usize>)
        requires
            self.wf(),
        ensures
            slots@ == spec_matching_slots(self@, channel, Some(key), self@.len() as int),
    {
        self.matching_slots(channel, Some(key))
    }
}

/// Replacing the one voice of `tag`'s exclusive class on its channel keeps the classes
/// unique.
proof fn lemma_unique_after_reuse(before: Seq<VoiceTag>, tag: VoiceTag, i: int)
    requires
        0 <= i < before.len(),
        spec_same_exclusive(before[i], tag),
    ensures
        spec_exclusive_unique(before) ==> spec_exclusive_unique(before.update(i, tag)),
{
    let after = before.update(i, tag);
    if spec_exclusive_unique(before) {
        assert forall|a: int, b: int| 0 <= a < b < after.len() implies !spec_same_exclusive(
            #[trigger] after[b],
            #[trigger] after[a],
        ) by {
            if a == i {
                assert(!spec_same_exclusive(before[b], before[i]));
            } else if b == i {
                assert(!spec_same_exclusive(before[i], before[a]));
            } else {
                assert(!spec_same_exclusive(before[b], before[a]));
            }
        }
    }
}

/// A voice of a class that nothing sounds in keeps the classes unique where it is added.
proof fn lemma_unique_after_push(before: Seq<VoiceTag>, tag: VoiceTag)
    requires
        spec_no_exclusive_match(before, tag),
    ensures
        spec_exclusive_unique(before) ==> spec_exclusive_unique(before.push(tag)),
{
    let after = before.push(tag);
    if spec_exclusive_unique(before) {
        assert forall|a: int, b: int| 0 <= a < b < after.len() implies !spec_same_exclusive(
            #[trigger] after[b],
            #[trigger] after[a],
        ) by {
            if b == before.len() {
                assert(!spec_same_exclusive(before[a], tag));
            } else {
                assert(!spec_same_exclusive(before[b], before[a]));
            }
        }
    }
}

/// A voice of a class that nothing sounds in keeps the classes unique in any slot.
proof fn lemma_unique_after_steal(before: Seq<VoiceTag>, tag: VoiceTag, i: int)
    requires
        0 <= i < before.len(),
    ensures
        spec_exclusive_unique(before) && spec_no_exclusive_match(before, tag)
            ==> spec_exclusive_unique(before.update(i, tag)),
{
    let after = before.update(i, tag);
    if spec_exclusive_unique(before) && spec_no_exclusive_match(before, tag) {
        assert forall|a: int, b: int| 0 <= a < b < after.len() implies !spec_same_exclusive(
            #[trigger] after[b],
            #[trigger] after[a],
        ) by {
            if a == i {
                assert(!spec_same_exclusive(before[b], tag));
            } else if b == i {
                assert(!spec_same_exclusive(before[a], tag));
            } else {
                assert(!spec_same_exclusive(before[b], before[a]));
            }
        }
    }
}

/// Moving the last voice into a finished voice's slot keeps the classes unique.
proof fn lemma_unique_after_retire(before: Seq<VoiceTag>, i: int)
    requires
        0 <= i < before.len(),
    ensures
        spec_exclusive_unique(before) ==> spec_exclusive_unique(
            before.update(i, before.last()).drop_last(),
        ),
{
    let n = before.len() - 1;
    let after = before.update(i, before.last()).drop_last();
    if spec_exclusive_unique(before) {
        assert forall|a: int, b: int| 0 <= a < b < after.len() implies !spec_same_exclusive(
            #[trigger] after[b],
            #[trigger] after[a],
        ) by {
            let pa = if a == i { n } else { a };
            let pb = if b == i { n } else { b };
            assert(after[a] == before[pa]);
            assert(after[b] == before[pb]);
            if pa < pb {
                assert(!spec_same_exclusive(before[pb], before[pa]));
            } else {
                assert(!spec_same_exclusive(before[pa], before[pb]));
            }
        }
    }
}

/// Moving the last voice into slot `i` and dropping the last slot removes the voice of
/// slot `i`.
proof fn lemma_retire_multiset(before: Seq<VoiceTag>, i: int)
    requires
        0 <= i < before.len(),
    ensures
        before.update(i, before.last()).drop_last().to_multiset() == before.to_multiset().remove(
            before[i],
        ),
{
    let n = before.len() - 1;
    let moved = before.update(i, before.last());
    assert(moved.drop_last() =~= moved.remove(n));
    assert(moved[n] == before.last());
    assert(moved.to_multiset() == before.to_multiset().insert(before.last()).remove(before[i]));
    assert(moved.remove(n).to_multiset() == moved.to_multiset().remove(moved[n]));
    assert(before.to_multiset().insert(before.last()).remove(before[i]).remove(before.last())
        =~= before.to_multiset().remove(before[i]));
}

} // verus!
