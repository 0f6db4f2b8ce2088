//! Serving ratios and their ceiling-rounded pick counts.
//!
//! A ratio is a non-negative fraction held exactly as numerator and
//! denominator. Each recipe item carries at most one ratio per serving tier
//! (tiers 1 through 6); a missing tier means no ratio is known there and
//! always yields zero picks.

use vstd::prelude::*;

verus! {

use vstd::arithmetic::div_mod::lemma_div_is_strictly_smaller;
use vstd::arithmetic::div_mod::lemma_div_pos_is_pos;
use vstd::arithmetic::div_mod::lemma_fundamental_div_mod;

/// A non-negative fractional serving ratio, held exactly as the fraction
/// `num / den`. Well-formed values have `den >= 1`.
#[derive(Clone, Copy, Debug)]
pub struct Ratio {
    pub num: u64,
    pub den: u64,
}

/// The least integer that is at least `num / den`.
pub open spec fn ceil_div(num: int, den: int) -> int
    recommends
        0 <= num,
        1 <= den,
{
    if num % den == 0 {
        num / den
    } else {
        num / den + 1
    }
}

impl Ratio {
    /// A ratio is well formed when its denominator is positive.
    pub open spec fn wf(self) -> bool {
        self.den >= 1
    }

    /// The pick count this ratio demands: its ceiling.
    pub open spec fn picks_spec(self) -> int {
        ceil_div(self.num as int, self.den as int)
    }

    /// Builds the ratio `num / den`; a zero denominator is rejected.
    pub fn new(num: u64, den: u64) -> (r: Option<Ratio>)
        ensures
            den >= 1 ==> (r matches Some(q) && q.num == num && q.den == den && q.wf()),
            den == 0 ==> r is None,
    {
        if den == 0 {
            None
        } else {
            Some(Ratio { num, den })
        }
    }

    /// Ceiling-rounds the ratio to a whole number of picks. A partial unit
    /// still requires a full pick.
    pub fn picks(&self) -> (r: u64)
        requires
            self.wf(),
        ensures
            r == self.picks_spec(),
    {
        let q = self.num / self.den;
        let rem = self.num % self.den;
        if rem == 0 {
            q
        } else {
            proof {
                // A remainder rules out den == 1, so the quotient sits
                // strictly below num and adding one cannot overflow.
                assert(self.den >= 2);
                assert(self.num > 0) by {
                    vstd::arithmetic::div_mod::lemma_small_mod(0, self.den as nat);
                };
                lemma_div_is_strictly_smaller(self.num as int, self.den as int);
            }
            q + 1
        }
    }
}

/// `ceil_div` is the mathematical ceiling: the least integer whose product
/// with the denominator reaches the numerator, and it is never negative.
pub proof fn lemma_ceil_div_is_ceiling(num: int, den: int)
    requires
        0 <= num,
        1 <= den,
    ensures
        0 <= ceil_div(num, den),
        num <= ceil_div(num, den) * den,
        (ceil_div(num, den) - 1) * den < num,
{
    let q = num / den;
    let r = num % den;
    lemma_fundamental_div_mod(num, den);
    lemma_div_pos_is_pos(num, den);
    assert(0 <= r < den);
    if r == 0 {
        assert(q * den == den * q) by (nonlinear_arith);
        assert((q - 1) * den == q * den - den) by (nonlinear_arith);
    } else {
        assert((q + 1) * den == den * q + den) by (nonlinear_arith);
        assert(q * den == den * q) by (nonlinear_arith);
    }
}

/// The ratios a recipe item carries for the six serving tiers; a `None`
/// entry means no ratio is known for that tier.
#[derive(Clone, Copy, Debug)]
pub struct RatioTable {
    pub tier1: Option<Ratio>,
    pub tier2: Option<Ratio>,
    pub tier3: Option<Ratio>,
    pub tier4: Option<Ratio>,
    pub tier5: Option<Ratio>,
    pub tier6: Option<Ratio>,
}

impl RatioTable {
    /// The entry for a tier; tiers outside 1 through 6 never have one.
    pub open spec fn entry(self, tier: int) -> Option<Ratio> {
        if tier == 1 {
            self.tier1
        } else if tier == 2 {
            self.tier2
        } else if tier == 3 {
            self.tier3
        } else if tier == 4 {
            self.tier4
        } else if tier == 5 {
            self.tier5
        } else if tier == 6 {
            self.tier6
        } else {
            None
        }
    }

    /// Every ratio present in the table is well formed.
    pub open spec fn wf(self) -> bool {
        &&& (self.tier1 matches Some(r) ==> r.wf())
        &&& (self.tier2 matches Some(r) ==> r.wf())
        &&& (self.tier3 matches Some(r) ==> r.wf())
        &&& (self.tier4 matches Some(r) ==> r.wf())
        &&& (self.tier5 matches Some(r) ==> r.wf())
        &&& (self.tier6 matches Some(r) ==> r.wf())
    }

    /// A table with no ratio for any tier.
    pub fn empty() -> (r: RatioTable)
        ensures
            forall|t: int| r.entry(t) is None,
            r.wf(),
    {
        RatioTable { tier1: None, tier2: None, tier3: None, tier4: None, tier5: None, tier6: None }
    }

    /// The same table with the entry for `tier` replaced by `ratio`.
    pub fn with_tier(self, tier: u32, ratio: Ratio) -> (r: RatioTable)
        requires
            1 <= tier <= 6,
        ensures
            r.entry(tier as int) == Some(ratio),
            forall|t: int| t != tier as int ==> r.entry(t) == self.entry(t),
            self.wf() && ratio.wf() ==> r.wf(),
    {
        let mut r = self;
        if tier == 1 {
            r.tier1 = Some(ratio);
        } else if tier == 2 {
            r.tier2 = Some(ratio);
        } else if tier == 3 {
            r.tier3 = Some(ratio);
        } else if tier == 4 {
            r.tier4 = Some(ratio);
        } else if tier == 5 {
            r.tier5 = Some(ratio);
        } else {
            r.tier6 = Some(ratio);
        }
        r
    }

    /// Looks a tier up; any tier without an entry has none.
    pub fn get(&self, tier: u32) -> (r: Option<Ratio>)
        ensures
            r == self.entry(tier as int),
    {
        match tier {
            1 => self.tier1,
            2 => self.tier2,
            3 => self.tier3,
            4 => self.tier4,
            5 => self.tier5,
            6 => self.tier6,
            _ => None,
        }
    }
}

/// The pick count for one tier of a table: the ceiling of its ratio, or
/// zero when the tier has no entry.
pub open spec fn pick_count(table: RatioTable, tier: int) -> int {
    match table.entry(tier) {
        Some(r) => r.picks_spec(),
        None => 0,
    }
}

/// A tier with no ratio entry yields exactly zero picks, never an error.
pub proof fn lemma_missing_tier_is_zero(table: RatioTable, tier: int)
    requires
        table.entry(tier) is None,
    ensures
        pick_count(table, tier) == 0,
{
}

/// For every tier of a well-formed table, the pick count is a non-negative
/// integer; where a ratio is present it is exactly the ratio's ceiling, and
/// where none is it is zero.
pub proof fn lemma_pick_count_is_ceiling(table: RatioTable, tier: int)
    requires
        table.wf(),
    ensures
        0 <= pick_count(table, tier),
        table.entry(tier) matches Some(r) ==> {
            &&& r.num <= pick_count(table, tier) * r.den
            &&& (pick_count(table, tier) - 1) * r.den < r.num
        },
        table.entry(tier) is None ==> pick_count(table, tier) == 0,
{
    match table.entry(tier) {
        Some(r) => {
            assert(r.wf());
            lemma_ceil_div_is_ceiling(r.num as int, r.den as int);
        },
        None => {},
    }
}

} // verus!
