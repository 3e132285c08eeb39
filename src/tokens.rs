use vstd::prelude::*;

use crate::cells::Cell;

verus! {

/// A capability for the identity tag `ID`, carrying a payload of type `T`.
///
/// Only the builder chain (and an arena, for its indices) can create one, so
/// holding a token proves the right to access storage of the same tag.
pub struct TokenWith<T, const ID: usize> {
    payload: T,
}

/// A capability without a payload.
pub type Token<const ID: usize> = TokenWith<(), ID>;

impl<T, const ID: usize> View for TokenWith<T, ID> {
    type V = T;

    /// The payload held by the token.
    closed spec fn view(&self) -> T {
        self.payload
    }
}

impl<T, const ID: usize> TokenWith<T, ID> {
    /// Creates a token of tag `ID`; kept inside the crate so that tokens
    /// cannot be forged.
    pub(crate) fn new(t: T) -> (r: Self)
        ensures
            r@ == t,
    {
        TokenWith { payload: t }
    }

    /// The identity tag of this token.
    pub fn tag(&self) -> (r: usize)
        ensures
            r == ID,
    {
        ID
    }

    /// Shared access to the payload, which the token owns outright.
    pub fn get_payload(&self) -> (r: &T)
        ensures
            *r == self@,
    {
        &self.payload
    }

    /// Exclusive access to the payload.
    pub fn get_payload_mut(&mut self) -> (r: &mut T)
        ensures
            *r == old(self)@,
            final(self)@ == *final(r),
    {
        &mut self.payload
    }

    /// Creates a cell bound to this token's tag. Creating a cell needs no
    /// access proof, so a shared reference to the token is enough.
    pub fn cell<V>(&self, v: V) -> (r: Cell<V, ID>)
        ensures
            r == Cell::<V, ID>::spec_new(v),
            r@ == v,
    {
        Cell::new(v)
    }
}

} // verus!
