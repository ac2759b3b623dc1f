//! Coins a character carries: copper, silver and gold, with no conversion
//! between the tiers.

use vstd::prelude::*;

verus! {

/// The coin denominations.
#[derive(Clone, Copy, Debug, PartialEq, Eq, Structural)]
pub enum MoneyType {
    Copper,
    Silver,
    Gold,
}

/// An amount of one coin denomination.
#[derive(Clone, Copy, Debug, PartialEq, Eq, Structural)]
pub struct Money {
    pub coin_type: MoneyType,
    pub amount: u32,
}

} // verus!
