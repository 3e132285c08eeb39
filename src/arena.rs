use vstd::prelude::*;

use crate::tokens::TokenWith;

verus! {

/// A position in the arena of tag `ID`, as a capability: an index of one
/// arena has another type than an index of an arena of another tag.
pub type Index<const ID: usize> = TokenWith<usize, ID>;

/// An append-only arena of tag `ID`. Elements are never removed or moved
/// in order, so an index it handed out stays valid for its whole life.
pub struct Arena<T, const ID: usize> {
    items: Vec<T>,
}

impl<T, const ID: usize> View for Arena<T, ID> {
    type V = Seq<T>;

    /// The elements pushed so far, in order.
    closed spec fn view(&self) -> Seq<T> {
        self.items@
    }
}

impl<T, const ID: usize> Arena<T, ID> {
    /// An empty arena. It consumes a token or index of tag `ID`, which only
    /// serves to fix the tag; its payload is dropped.
    pub fn from<U>(_token: TokenWith<U, ID>) -> (r: Self)
        ensures
            r@ == Seq::<T>::empty(),
    {
        Arena { items: Vec::new() }
    }

    /// The number of elements pushed so far.
    pub fn len(&self) -> (r: usize)
        ensures
            r == self@.len(),
    {
        self.items.len()
    }

    /// Appends `item` and returns its index, distinct from every index
    /// handed out before.
    pub fn push(&mut self, item: T) -> (r: Index<ID>)
        ensures
            final(self)@ == old(self)@.push(item),
            r@ == old(self)@.len(),
    {
        let pos = self.items.len();
        self.items.push(item);
        TokenWith::new(pos)
    }

    /// Shared access to the element at `index`.
    pub fn get(&self, index: &Index<ID>) -> (r: &T)
        requires
            index@ < self@.len(),
        ensures
            *r == self@[index@ as int],
    {
        let i = *index.get_payload();
        &self.items[i]
    }

    /// Exclusive access to the element at `index`; the index is held
    /// exclusively while the result lives.
    pub fn get_mut<'a>(&'a mut self, index: &'a mut Index<ID>) -> (r: &'a mut T)
        requires
            old(index)@ < old(self)@.len(),
        ensures
            *r == old(self)@[old(index)@ as int],
            final(self)@ == old(self)@.update(old(index)@ as int, *final(r)),
            *final(index) == *old(index),
    {
        let i = *index.get_payload();
        &mut self.items[i]
    }
}

/// A push keeps every element already in the arena where it was.
pub proof fn lemma_push_extends<T>(before: Seq<T>, item: T)
    ensures
        before.is_prefix_of(before.push(item)),
{
    assert(before.push(item).subrange(0, before.len() as int) =~= before);
}

/// An index handed out by a push still reaches the value pushed there after
/// any number of later pushes, whatever they did to the storage.
pub proof fn lemma_index_survives_pushes<T>(before: Seq<T>, pushed: Seq<T>, i: nat)
    requires
        i < before.len(),
    ensures
        i < (before + pushed).len(),
        (before + pushed)[i as int] == before[i as int],
{
}

} // verus!
