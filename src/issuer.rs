use vstd::prelude::*;

use crate::builder::TokenBuilder;

verus! {

/// Owner of the root builder, of tag 0, which it gives away at most once.
///
/// A program keeps a single issuer for its whole run, so that tag 0 is
/// claimed a single time.
pub struct Issuer {
    issued: bool,
}

impl View for Issuer {
    type V = bool;

    /// Whether the root builder has already been handed out.
    closed spec fn view(&self) -> bool {
        self.issued
    }
}

impl Issuer {
    /// A fresh issuer, which has not handed out the root builder yet.
    pub fn new() -> (r: Self)
        ensures
            r@ == false,
    {
        Issuer { issued: false }
    }

    /// Whether the root builder has already been handed out.
    pub fn is_issued(&self) -> (r: bool)
        ensures
            r == self@,
    {
        self.issued
    }
}

/// Hands out the builder of tag 0 on the first call and `None` on every
/// later one. "Already issued" is an expected outcome, not an error.
pub fn first(issuer: &mut Issuer) -> (r: Option<TokenBuilder<0>>)
    ensures
        r is Some <==> old(issuer)@ == false,
        final(issuer)@ == true,
{
    if issuer.issued {
        None
    } else {
        issuer.issued = true;
        Some(TokenBuilder::new())
    }
}

/// Which of `n` successive calls of [`first`] return `Some`, starting from an
/// issuer whose state is `issued`.
pub open spec fn first_results(issued: bool, n: nat) -> Seq<bool>
    decreases n,
{
    if n == 0 {
        Seq::empty()
    } else {
        seq![!issued].add(first_results(true, (n - 1) as nat))
    }
}

/// Of any number of calls of [`first`] on a fresh issuer, exactly the first
/// one returns `Some`.
pub proof fn lemma_first_once(n: nat)
    ensures
        first_results(false, n).len() == n,
        forall|i: int| 0 <= i < n ==> #[trigger] first_results(false, n)[i] == (i == 0),
{
    lemma_first_results_issued((n - 1) as nat);
    if n > 0 {
        assert forall|i: int| 0 <= i < n implies #[trigger] first_results(false, n)[i] == (i == 0) by {
            if i > 0 {
                assert(first_results(false, n)[i] == first_results(true, (n - 1) as nat)[i - 1]);
            }
        }
    }
}

proof fn lemma_first_results_issued(n: nat)
    ensures
        first_results(true, n).len() == n,
        forall|i: int| 0 <= i < n ==> !#[trigger] first_results(true, n)[i],
    decreases n,
{
    if n > 0 {
        lemma_first_results_issued((n - 1) as nat);
        assert forall|i: int| 0 <= i < n implies !#[trigger] first_results(true, n)[i] by {
            if i > 0 {
                assert(first_results(true, n)[i] == first_results(true, (n - 1) as nat)[i - 1]);
            }
        }
    }
}

} // verus!
