//! Amounts that were taken out of, or put into, circulation and are still to be accounted for.
use crate::primitives::Balance;
use vstd::prelude::*;

verus! {

/// Funds that have been withdrawn without any equal and opposite accounting.
#[must_use]
#[derive(Debug)]
pub struct NegativeImbalance {
    amount: Balance,
}

/// Funds that have been deposited without any equal and opposite accounting.
#[must_use]
#[derive(Debug)]
pub struct PositiveImbalance {
    amount: Balance,
}

/// One of two items of opposite sign, or neither.
#[derive(Debug)]
pub enum SameOrOther<A, B> {
    /// No item.
    Neither,
    /// An item of the sign of the primary one.
    Same(A),
    /// An item of the opposite sign.
    Other(B),
}

impl View for NegativeImbalance {
    type V = Balance;

    closed spec fn view(&self) -> Balance {
        self.amount
    }
}

impl View for PositiveImbalance {
    type V = Balance;

    closed spec fn view(&self) -> Balance {
        self.amount
    }
}

impl PositiveImbalance {
    /// A positive imbalance of `amount`.
    pub fn new(amount: Balance) -> (imbalance: Self)
        ensures
            imbalance@ == amount,
    {
        PositiveImbalance { amount }
    }

    /// The imbalance of nothing.
    pub fn zero() -> (imbalance: Self)
        ensures
            imbalance@ == 0,
    {
        PositiveImbalance { amount: 0 }
    }

    /// The amount.
    pub fn peek(&self) -> (amount: Balance)
        ensures
            amount == self@,
    {
        self.amount
    }
}

impl NegativeImbalance {
    /// A negative imbalance of `amount`.
    pub fn new(amount: Balance) -> (imbalance: Self)
        ensures
            imbalance@ == amount,
    {
        NegativeImbalance { amount }
    }

    /// The imbalance of nothing.
    pub fn zero() -> (imbalance: Self)
        ensures
            imbalance@ == 0,
    {
        NegativeImbalance { amount: 0 }
    }

    /// The amount.
    pub fn peek(&self) -> (amount: Balance)
        ensures
            amount == self@,
    {
        self.amount
    }

    /// Sets the imbalance off against an opposite one; what is left has the sign of the larger.
    pub fn offset(self, other: PositiveImbalance) -> (left: SameOrOther<
        NegativeImbalance,
        PositiveImbalance,
    >)
        ensures
            match left {
                SameOrOther::Same(same) => self@ > other@ && same@ == self@ - other@,
                SameOrOther::Other(opposite) => other@ > self@ && opposite@ == other@ - self@,
                SameOrOther::Neither => self@ == other@,
            },
    {
        if self.amount > other.amount {
            SameOrOther::Same(NegativeImbalance::new(self.amount - other.amount))
        } else if other.amount > self.amount {
            SameOrOther::Other(PositiveImbalance::new(other.amount - self.amount))
        } else {
            SameOrOther::Neither
        }
    }

    /// Parts the imbalance in two: up to `amount` in the first, the rest in the second.
    pub fn split(self, amount: Balance) -> (parts: (NegativeImbalance, NegativeImbalance))
        ensures
            parts.0@ == if self@ <= amount {
                self@
            } else {
                amount
            },
            parts.0@ + parts.1@ == self@,
    {
        let first: Balance = if self.amount <= amount {
            self.amount
        } else {
            amount
        };
        (NegativeImbalance::new(first), NegativeImbalance::new(self.amount - first))
    }
}

impl SameOrOther<NegativeImbalance, PositiveImbalance> {
    /// The item of the primary sign, nothing counting as zero; or else the opposite one.
    pub fn same(self) -> (item: Result<NegativeImbalance, PositiveImbalance>)
        ensures
            match self {
                SameOrOther::Same(same) => item == Ok::<NegativeImbalance, PositiveImbalance>(same),
                SameOrOther::Neither => item matches Ok(zero) && zero@ == 0,
                SameOrOther::Other(opposite) => item == Err::<NegativeImbalance, PositiveImbalance>(
                    opposite,
                ),
            },
    {
        match self {
            SameOrOther::Same(same) => Ok(same),
            SameOrOther::Neither => Ok(NegativeImbalance::zero()),
            SameOrOther::Other(opposite) => Err(opposite),
        }
    }
}

} // verus!
