use vstd::prelude::*;

use crate::tokens::TokenWith;

verus! {

/// A value whose access is tied to tokens of tag `ID`.
///
/// - shared access comes from `&self` and a `&TokenWith<_, ID>`;
/// - exclusive access comes from `&mut self` and a `&mut TokenWith<_, ID>`,
///   or from `&mut self` alone (see [`Cell::get_mut`]).
///
/// A token of another tag has another type, so it cannot open the cell.
pub struct Cell<T, const ID: usize> {
    inner: T,
}

impl<T, const ID: usize> View for Cell<T, ID> {
    type V = T;

    /// The value held by the cell.
    closed spec fn view(&self) -> T {
        self.inner
    }
}

impl<T, const ID: usize> Cell<T, ID> {
    /// The cell that [`Cell::new`] makes from `t`.
    pub closed spec fn spec_new(t: T) -> Self {
        Cell { inner: t }
    }

    /// Creates a new cell that only tokens of tag `ID` can borrow.
    pub fn new(t: T) -> (r: Self)
        ensures
            r == Self::spec_new(t),
            r@ == t,
    {
        Cell { inner: t }
    }

    /// Gives the value back, consuming the cell.
    pub fn into_inner(self) -> (r: T)
        ensures
            r == self@,
    {
        self.inner
    }

    /// Shared access without a token. Rust's borrow rules still forbid it
    /// while an exclusive borrow of the cell is live.
    pub fn get(&self) -> (r: &T)
        ensures
            *r == self@,
    {
        &self.inner
    }

    /// Exclusive access through exclusive ownership of the cell itself.
    pub fn get_mut(&mut self) -> (r: &mut T)
        ensures
            *r == old(self)@,
            final(self)@ == *final(r),
    {
        &mut self.inner
    }

    /// Uses a token of the same tag to receive shared access.
    pub fn borrow<'a, U>(&'a self, _token: &'a TokenWith<U, ID>) -> (r: &'a T)
        ensures
            *r == self@,
    {
        &self.inner
    }

    /// Uses an exclusively held token of the same tag to receive exclusive
    /// access. The token stays borrowed for as long as the result lives.
    pub fn borrow_mut<'a, U>(&'a mut self, token: &'a mut TokenWith<U, ID>) -> (r: &'a mut T)
        ensures
            *r == old(self)@,
            final(self)@ == *final(r),
            *final(token) == *old(token),
    {
        &mut self.inner
    }
}

/// Borrowing a freshly made cell, with any token of its tag, yields the
/// value it was made from.
pub proof fn lemma_cell_round_trip<T, const ID: usize>(v: T)
    ensures
        Cell::<T, ID>::spec_new(v)@ == v,
{
}

} // verus!
