//! Texts that are stored once and referred to by an ID.
use vstd::prelude::*;

verus! {

/// Refers to a stored text.
#[derive(Clone, Copy, Debug, PartialEq, Eq)]
pub struct TextId {
    index: usize,
}

impl TextId {
    /// How many IDs were handed out before this one.
    pub closed spec fn number(self) -> nat {
        self.index as nat
    }
}

/// The stored texts.
///
/// Its view is the map from IDs to texts. A text that was deleted leaves an empty slot behind, so
/// that no ID is ever handed out twice.
pub struct TextCache {
    slots: Vec<Option<String>>,
}

impl View for TextCache {
    type V = Map<TextId, Seq<char>>;

    closed spec fn view(&self) -> Map<TextId, Seq<char>> {
        Map::new(
            |id: TextId| id.index < self.slots@.len() && self.slots@[id.index as int] is Some,
            |id: TextId| self.slots@[id.index as int]->0@,
        )
    }
}

impl TextCache {
    /// How many IDs were handed out so far.
    pub closed spec fn issued(self) -> nat {
        self.slots@.len()
    }

    /// A cache without texts.
    pub fn new() -> (cache: Self)
        ensures
            cache@ == Map::<TextId, Seq<char>>::empty(),
            cache.issued() == 0,
    {
        let cache = TextCache { slots: Vec::new() };
        assert(cache@ =~= Map::<TextId, Seq<char>>::empty());
        cache
    }

    /// Stores a text under a new ID.
    pub fn add_text(&mut self, text: String) -> (id: TextId)
        ensures
            id.number() == old(self).issued(),
            final(self).issued() == old(self).issued() + 1,
            final(self)@ == old(self)@.insert(id, text@),
    {
        let id = TextId { index: self.slots.len() };
        self.slots.push(Some(text));
        assert(self@ =~= old(self)@.insert(id, text@));
        id
    }

    /// Deletes the text with an ID, if there is one.
    pub fn delete_text(&mut self, id: TextId)
        ensures
            final(self).issued() == old(self).issued(),
            final(self)@ == old(self)@.remove(id),
    {
        if id.index < self.slots.len() {
            self.slots[id.index] = None;
        }
        assert(self@ =~= old(self)@.remove(id));
    }

    /// Deletes all texts.
    pub fn clear_all_texts(&mut self)
        ensures
            final(self).issued() == old(self).issued(),
            final(self)@ == Map::<TextId, Seq<char>>::empty(),
    {
        let mut i: usize = 0;
        while i < self.slots.len()
            invariant
                i <= self.slots@.len(),
                self.slots@.len() == old(self).slots@.len(),
                forall|j: int| 0 <= j < i ==> self.slots@[j] is None,
            decreases self.slots@.len() - i,
        {
            self.slots[i] = None;
            i = i + 1;
        }
        assert(self@ =~= Map::<TextId, Seq<char>>::empty());
    }

    /// The text with an ID.
    pub fn get(&self, id: TextId) -> (text: Option<&String>)
        ensures
            match text {
                Some(t) => self@.contains_key(id) && t@ == self@[id],
                None => !self@.contains_key(id),
            },
    {
        if id.index < self.slots.len() {
            self.slots[id.index].as_ref()
        } else {
            None
        }
    }
}

/// Every stored text has an ID that was handed out.
pub proof fn law_texts_have_issued_ids(cache: TextCache, id: TextId)
    requires
        cache@.contains_key(id),
    ensures
        id.number() < cache.issued(),
{
}

/// IDs with the same number are the same ID.
pub proof fn law_ids_are_told_apart_by_number(a: TextId, b: TextId)
    ensures
        a == b <==> a.number() == b.number(),
{
}

} // verus!
