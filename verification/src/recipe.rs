//! Recipes and their component items, as the planning service returns them:
//! a recipe is a title and an ordered list of items, and each item carries a
//! code, a display name, and a serving-ratio table.

use vstd::prelude::*;

verus! {

use crate::decimal::decimal_digits;
use crate::decimal::decimal_string;
use crate::ratio::pick_count;
use crate::ratio::RatioTable;

/// One component item of a recipe.
#[derive(Clone, Debug)]
pub struct Sku {
    pub code: String,
    pub name: String,
    pub servings_ratio: RatioTable,
}

impl Sku {
    /// Every ratio the item carries is well formed.
    pub open spec fn wf(self) -> bool {
        self.servings_ratio.wf()
    }

    /// The pick count this item demands at one serving tier.
    pub open spec fn pick_spec(self, tier: int) -> int {
        pick_count(self.servings_ratio, tier)
    }

    /// The pick count for `servings` servings, rendered in base ten: the
    /// ceiling of the tier's ratio, or zero when no ratio is known there.
    pub fn picklist(&self, servings: u32) -> (r: String)
        requires
            self.wf(),
        ensures
            r@ == decimal_digits(self.pick_spec(servings as int) as nat),
    {
        match self.servings_ratio.get(servings) {
            Some(ratio) => decimal_string(ratio.picks()),
            None => decimal_string(0),
        }
    }
}

/// One recipe: a title and its ordered component items.
#[derive(Clone, Debug)]
pub struct Recipe {
    pub title: String,
    pub skus: Vec<Sku>,
}

impl Recipe {
    /// Every item of the recipe is well formed.
    pub open spec fn wf(self) -> bool {
        forall|i: int| 0 <= i < self.skus@.len() ==> (#[trigger] self.skus@[i]).wf()
    }
}

} // verus!
