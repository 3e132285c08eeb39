use vstd::prelude::*;

use crate::tokens::{Token, TokenWith};

verus! {

/// The one link of the tag chain that may still claim tag `ID`.
///
/// It is not `Clone` and has no public constructor: only the issuer and the
/// builder of tag `ID - 1` make one, and each builder is consumed by the one
/// call that turns it into a token and the next builder.
pub struct TokenBuilder<const ID: usize> {
    sealed: (),
}

impl<const ID: usize> TokenBuilder<ID> {
    /// Creates the builder of tag `ID`; kept inside the crate, since two
    /// builders of one tag could hand out two exclusive tokens of it.
    pub(crate) fn new() -> (r: Self) {
        TokenBuilder { sealed: () }
    }

    /// The identity tag that this builder will claim.
    pub fn tag(&self) -> (r: usize)
        ensures
            r == ID,
    {
        ID
    }

    /// Turns this builder into a token of tag `ID` and the builder of the
    /// next tag, `ID + 1`.
    pub fn token<const NEXT: usize>(self) -> (r: (Token<ID>, TokenBuilder<NEXT>))
        requires
            NEXT == ID + 1,
        ensures
            r.0@ == (),
    {
        (TokenWith::new(()), TokenBuilder::new())
    }

    /// Like [`TokenBuilder::token`], with a payload of the caller's choosing
    /// attached to the token.
    pub fn token_with<U, const NEXT: usize>(self, u: U) -> (r: (TokenWith<U, ID>, TokenBuilder<NEXT>))
        requires
            NEXT == ID + 1,
        ensures
            r.0@ == u,
    {
        (TokenWith::new(u), TokenBuilder::new())
    }
}

/// The tags of `n` tokens derived in turn from the builder of tag `start`.
pub open spec fn chain_tags(start: nat, n: nat) -> Seq<nat>
    decreases n,
{
    if n == 0 {
        Seq::empty()
    } else {
        seq![start].add(chain_tags(start + 1, (n - 1) as nat))
    }
}

/// Deriving `n` tokens from a builder chain that starts at tag `start`
/// yields `n` pairwise distinct tags, the first being `start` and each one
/// more than the one before.
pub proof fn lemma_chain_tags(start: nat, n: nat)
    ensures
        chain_tags(start, n).len() == n,
        forall|i: int| 0 <= i < n ==> #[trigger] chain_tags(start, n)[i] == start + i,
        n > 0 ==> chain_tags(start, n)[0] == start,
        forall|i: int| 0 < i < n ==> #[trigger] chain_tags(start, n)[i] == chain_tags(start, n)[i - 1] + 1,
        forall|i: int, j: int|
            0 <= i < j < n ==> #[trigger] chain_tags(start, n)[i] != #[trigger] chain_tags(start, n)[j],
    decreases n,
{
    if n > 0 {
        lemma_chain_tags(start + 1, (n - 1) as nat);
        let rest = chain_tags(start + 1, (n - 1) as nat);
        assert forall|i: int| 0 <= i < n implies #[trigger] chain_tags(start, n)[i] == start + i by {
            if i > 0 {
                assert(chain_tags(start, n)[i] == rest[i - 1]);
            }
        }
    }
}

} // verus!
