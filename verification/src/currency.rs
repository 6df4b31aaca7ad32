//! Exact fixed-point currency: one logical quantity of copper-equivalent
//! value, constructed through five named denominations whose scale factors
//! are integer multiples of the base unit.

use vstd::prelude::*;

verus! {

/// The five denominations money is expressed in.
#[derive(Copy, Clone, Debug, PartialEq, Eq, Structural)]
pub enum Denomination {
    Copper,
    Silver,
    Electrum,
    Gold,
    Platinum,
}

/// How many base units (copper) one unit of the denomination is worth.
pub open spec fn scale_factor(d: Denomination) -> int {
    match d {
        Denomination::Copper => 1,
        Denomination::Silver => 10,
        Denomination::Electrum => 50,
        Denomination::Gold => 100,
        Denomination::Platinum => 1000,
    }
}

impl Denomination {
    /// The scale factor of this denomination, as runnable code.
    pub fn scale(self) -> (s: u64)
        ensures
            s as int == scale_factor(self),
    {
        match self {
            Denomination::Copper => 1,
            Denomination::Silver => 10,
            Denomination::Electrum => 50,
            Denomination::Gold => 100,
            Denomination::Platinum => 1000,
        }
    }
}

/// An exact quantity of money, stored in the base unit (copper). All
/// arithmetic happens on the base value; denominations only scale values on
/// the way in and out.
#[derive(Copy, Clone, Debug, PartialEq, Eq, Structural)]
pub struct Coin {
    base: u64,
}

impl Coin {
    /// The stored amount of base units.
    pub closed spec fn base_value(self) -> int {
        self.base as int
    }

    /// A quantity of zero base units.
    pub fn zero() -> (c: Coin)
        ensures
            c.base_value() == 0,
    {
        Coin { base: 0 }
    }

    /// Builds a quantity of `amount` units of a denomination. Conversion to
    /// the base unit is exact: the stored value is `amount` times the scale
    /// factor.
    pub fn new(amount: u64, denomination: Denomination) -> (c: Coin)
        requires
            amount * scale_factor(denomination) <= u64::MAX,
        ensures
            c.base_value() == amount * scale_factor(denomination),
    {
        Coin { base: amount * denomination.scale() }
    }

    /// The stored base-unit value, as runnable code.
    pub fn base_units(self) -> (n: u64)
        ensures
            n as int == self.base_value(),
    {
        self.base
    }

    /// Adds two quantities exactly, in the base unit.
    pub fn plus(self, other: Coin) -> (c: Coin)
        requires
            self.base_value() + other.base_value() <= u64::MAX,
        ensures
            c.base_value() == self.base_value() + other.base_value(),
    {
        Coin { base: self.base + other.base }
    }

    /// Subtracts a quantity exactly, in the base unit. The base unit cannot
    /// go negative, so the subtrahend may not exceed the stored value.
    pub fn minus(self, other: Coin) -> (c: Coin)
        requires
            other.base_value() <= self.base_value(),
        ensures
            c.base_value() == self.base_value() - other.base_value(),
    {
        Coin { base: self.base - other.base }
    }

    /// Expresses the stored value in a target denomination, rounding down.
    /// This is presentation only: the stored value is untouched.
    pub fn amount_in_denomination(self, denomination: Denomination) -> (n: u64)
        ensures
            n as int == self.base_value() / scale_factor(denomination),
    {
        self.base / denomination.scale()
    }
}

/// A character's money, held per denomination.
#[derive(Copy, Clone, Debug, PartialEq, Eq, Structural)]
pub struct Wealth {
    pub copper: Coin,
    pub silver: Coin,
    pub electrum: Coin,
    pub gold: Coin,
    pub platinum: Coin,
}

/// Adding and removing money, in base units of copper.
pub trait WealthManagement {
    /// Adds `amount` base units to the copper holding.
    fn add_copper(&mut self, amount: u64)
        requires
            old(self).wealth_view().copper.base_value() + amount <= u64::MAX,
        ensures
            final(self).wealth_view().copper.base_value() == old(self).wealth_view().copper.base_value()
                + amount,
            final(self).wealth_view().silver == old(self).wealth_view().silver,
            final(self).wealth_view().electrum == old(self).wealth_view().electrum,
            final(self).wealth_view().gold == old(self).wealth_view().gold,
            final(self).wealth_view().platinum == old(self).wealth_view().platinum,
    ;

    /// Removes `amount` base units from the copper holding.
    fn remove_copper(&mut self, amount: u64)
        requires
            amount <= old(self).wealth_view().copper.base_value(),
        ensures
            final(self).wealth_view().copper.base_value() == old(self).wealth_view().copper.base_value()
                - amount,
            final(self).wealth_view().silver == old(self).wealth_view().silver,
            final(self).wealth_view().electrum == old(self).wealth_view().electrum,
            final(self).wealth_view().gold == old(self).wealth_view().gold,
            final(self).wealth_view().platinum == old(self).wealth_view().platinum,
    ;

    /// The holdings the contract speaks of.
    spec fn wealth_view(&self) -> Wealth;
}

impl WealthManagement for Wealth {
    open spec fn wealth_view(&self) -> Wealth {
        *self
    }

    fn add_copper(&mut self, amount: u64) {
        self.copper = self.copper.plus(Coin::new(amount, Denomination::Copper));
    }

    fn remove_copper(&mut self, amount: u64) {
        self.copper = self.copper.minus(Coin::new(amount, Denomination::Copper));
    }
}

} // verus!
