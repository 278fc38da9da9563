use vstd::prelude::*;

verus! {

/// Confidence level recorded when a validator accepts an input. A union
/// resolver uses it to pick the most specific of several successful matches:
/// `Exact` outranks `Strict`, which outranks `Lax`.
#[derive(Debug, Clone, Copy, PartialEq, Eq)]
pub enum Exactness {
    Lax,
    Strict,
    Exact,
}

/// Numeric rank of an exactness level: `Lax` is the lowest.
pub open spec fn exactness_rank(e: Exactness) -> int {
    match e {
        Exactness::Lax => 0,
        Exactness::Strict => 1,
        Exactness::Exact => 2,
    }
}

/// The level after lowering `cur` to at most `floor`: an untracked level
/// stays untracked, and a tracked one is replaced only where `floor` ranks
/// strictly below it.
pub open spec fn spec_floor(cur: Option<Exactness>, floor: Exactness) -> Option<Exactness> {
    match cur {
        Option::None => Option::None,
        Option::Some(c) => if exactness_rank(floor) < exactness_rank(c) {
            Option::Some(floor)
        } else {
            Option::Some(c)
        },
    }
}

/// Lowering to a floor never raises the level: the result is tracked exactly
/// when the input was, and its rank is at most both the old rank and the
/// floor's rank.
pub proof fn lemma_floor_never_raises(cur: Option<Exactness>, floor: Exactness)
    ensures
        (spec_floor(cur, floor) matches Option::Some(_)) <==> (cur matches Option::Some(_)),
        cur matches Option::Some(c) ==> (spec_floor(cur, floor) matches Option::Some(n)
            && exactness_rank(n) <= exactness_rank(c)
            && exactness_rank(n) <= exactness_rank(floor)),
{
}

/// Lowering to `Lax` pins a tracked level to exactly `Lax`, whatever it was
/// before, and leaves an untracked level untracked.
pub proof fn lemma_floor_lax_pins(cur: Option<Exactness>)
    ensures
        cur matches Option::Some(_) ==> spec_floor(cur, Exactness::Lax)
            == Option::Some(Exactness::Lax),
        cur matches Option::None ==> spec_floor(cur, Exactness::Lax) == Option::<Exactness>::None,
{
}

/// Mutable per-call validation state: an optional override of the
/// validator's own strictness, and the accumulated exactness of the match so
/// far (`None` where exactness is not being tracked).
#[derive(Debug, Clone, PartialEq, Eq)]
pub struct ValidationState {
    pub strict_override: Option<bool>,
    pub exactness: Option<Exactness>,
}

impl ValidationState {
    /// A fresh state: no strictness override, exactness not tracked.
    pub fn new() -> (s: ValidationState)
        ensures
            s.strict_override matches Option::None,
            s.exactness matches Option::None,
    {
        ValidationState { strict_override: Option::None, exactness: Option::None }
    }

    /// The effective strictness of a call: the per-call override wins over
    /// the validator's own `default`.
    pub open spec fn spec_strict_or(self, default: bool) -> bool {
        match self.strict_override {
            Option::Some(b) => b,
            Option::None => default,
        }
    }

    /// The effective strictness of a call, as `spec_strict_or` states it.
    pub fn strict_or(&self, default: bool) -> (r: bool)
        ensures
            r == self.spec_strict_or(default),
    {
        match self.strict_override {
            Option::Some(b) => b,
            Option::None => default,
        }
    }

    /// Lower the accumulated exactness to at most `floor`; never raise it.
    pub fn floor_exactness(&mut self, floor: Exactness)
        ensures
            final(self).strict_override == old(self).strict_override,
            final(self).exactness == spec_floor(old(self).exactness, floor),
    {
        match self.exactness {
            Option::Some(c) => {
                if exactness_rank_exec(floor) < exactness_rank_exec(c) {
                    self.exactness = Option::Some(floor);
                }
            }
            Option::None => {}
        }
    }
}

/// Numeric rank of an exactness level, as `exactness_rank` states it.
fn exactness_rank_exec(e: Exactness) -> (n: u8)
    ensures
        n as int == exactness_rank(e),
{
    match e {
        Exactness::Lax => 0,
        Exactness::Strict => 1,
        Exactness::Exact => 2,
    }
}

} // verus!
