//! The gas meter: a bounded counter of fuel that frames draw on.

use crate::contract_info::Balance;
use vstd::prelude::*;

verus! {

/// Units of fuel.
pub type Gas = u64;

/// Whether a charge went through.
#[derive(Clone, Copy, Debug, PartialEq, Eq, Structural)]
pub enum GasMeterResult {
    Proceed,
    OutOfGas,
}

/// Fuel left of a limit, at a fixed price per unit. Once a charge has failed
/// every later charge fails too.
#[derive(Debug)]
pub struct GasMeter {
    limit: Gas,
    gas_left: Gas,
    gas_price: Balance,
    exhausted: bool,
}

impl GasMeter {
    /// The limit the meter was made with.
    pub closed spec fn limit_spec(&self) -> nat {
        self.limit as nat
    }

    /// The fuel not yet charged.
    pub closed spec fn left_spec(&self) -> nat {
        self.gas_left as nat
    }

    /// The price of one unit.
    pub closed spec fn price_spec(&self) -> nat {
        self.gas_price as nat
    }

    /// Whether a charge has failed.
    pub closed spec fn exhausted_spec(&self) -> bool {
        self.exhausted
    }

    /// The meter never holds more than its limit.
    pub closed spec fn wf(&self) -> bool {
        self.gas_left <= self.limit
    }

    /// A fresh meter with all of `limit` left.
    pub fn with_limit(limit: Gas, gas_price: Balance) -> (r: GasMeter)
        ensures
            r.wf(),
            r.limit_spec() == limit,
            r.left_spec() == limit,
            r.price_spec() == gas_price,
            !r.exhausted_spec(),
    {
        GasMeter { limit, gas_left: limit, gas_price, exhausted: false }
    }

    /// Takes `amount` from what is left. When less is left, or a charge failed
    /// before, nothing is left afterwards and the charge fails.
    pub fn charge(&mut self, amount: Gas) -> (r: GasMeterResult)
        requires
            old(self).wf(),
        ensures
            final(self).wf(),
            final(self).limit_spec() == old(self).limit_spec(),
            final(self).price_spec() == old(self).price_spec(),
            !old(self).exhausted_spec() && amount <= old(self).left_spec() ==> r == GasMeterResult::Proceed
                && final(self).left_spec() == old(self).left_spec() - amount
                && !final(self).exhausted_spec(),
            old(self).exhausted_spec() || amount > old(self).left_spec() ==> r == GasMeterResult::OutOfGas
                && final(self).left_spec() == 0 && final(self).exhausted_spec(),
    {
        if self.exhausted || amount > self.gas_left {
            self.gas_left = 0;
            self.exhausted = true;
            GasMeterResult::OutOfGas
        } else {
            self.gas_left = self.gas_left - amount;
            GasMeterResult::Proceed
        }
    }

    /// Charges a cost that may not fit in gas; one that does not fit runs
    /// the meter out.
    pub fn charge_cost(&mut self, cost: Option<Gas>) -> (r: GasMeterResult)
        requires
            old(self).wf(),
        ensures
            final(self).wf(),
            final(self).limit_spec() == old(self).limit_spec(),
            final(self).price_spec() == old(self).price_spec(),
            cost is Some && !old(self).exhausted_spec() && cost->Some_0 <= old(self).left_spec() ==> r
                == GasMeterResult::Proceed && final(self).left_spec() == old(self).left_spec()
                - cost->Some_0 && !final(self).exhausted_spec(),
            !(cost is Some && !old(self).exhausted_spec() && cost->Some_0 <= old(self).left_spec()) ==> r
                == GasMeterResult::OutOfGas && final(self).left_spec() == 0 && final(self).exhausted_spec(),
    {
        match cost {
            Some(c) => self.charge(c),
            None => {
                self.gas_left = 0;
                self.exhausted = true;
                GasMeterResult::OutOfGas
            },
        }
    }

    /// Fuel charged so far.
    pub fn spent(&self) -> (r: Gas)
        requires
            self.wf(),
        ensures
            r == self.limit_spec() - self.left_spec(),
    {
        self.limit - self.gas_left
    }

    /// Fuel not yet charged.
    pub fn gas_left(&self) -> (r: Gas)
        ensures
            r == self.left_spec(),
    {
        self.gas_left
    }

    /// The price of one unit.
    pub fn gas_price(&self) -> (r: Balance)
        ensures
            r == self.price_spec(),
    {
        self.gas_price
    }

    /// Sets aside up to `sub_limit` of what is left for a nested frame and
    /// returns the meter of that frame.
    pub fn nested(&mut self, sub_limit: Gas) -> (r: GasMeter)
        requires
            old(self).wf(),
        ensures
            final(self).wf(),
            r.wf(),
            !r.exhausted_spec(),
            r.limit_spec() == if sub_limit <= old(self).left_spec() {
                sub_limit as nat
            } else {
                old(self).left_spec()
            },
            r.left_spec() == r.limit_spec(),
            r.price_spec() == old(self).price_spec(),
            final(self).left_spec() == old(self).left_spec() - r.limit_spec(),
            final(self).limit_spec() == old(self).limit_spec(),
            final(self).price_spec() == old(self).price_spec(),
            final(self).exhausted_spec() == old(self).exhausted_spec(),
    {
        let granted = if sub_limit <= self.gas_left {
            sub_limit
        } else {
            self.gas_left
        };
        self.gas_left = self.gas_left - granted;
        GasMeter { limit: granted, gas_left: granted, gas_price: self.gas_price, exhausted: false }
    }

    /// Returns to this meter what a nested frame's meter has left.
    pub fn absorb_nested(&mut self, child: GasMeter) -> (r: Gas)
        requires
            old(self).wf(),
            child.wf(),
            old(self).left_spec() + child.limit_spec() <= old(self).limit_spec(),
        ensures
            final(self).wf(),
            r == child.limit_spec() - child.left_spec(),
            final(self).left_spec() == old(self).left_spec() + child.left_spec(),
            final(self).limit_spec() == old(self).limit_spec(),
            final(self).price_spec() == old(self).price_spec(),
            final(self).exhausted_spec() == old(self).exhausted_spec(),
    {
        self.gas_left = self.gas_left + child.gas_left;
        child.limit - child.gas_left
    }
}

/// Lending gas to a nested frame and taking back what it left costs the
/// parent exactly what the nested frame spent.
pub proof fn lemma_nested_spend_is_charged_to_parent(
    before: GasMeter,
    lent: GasMeter,
    child: GasMeter,
    after: GasMeter,
)
    requires
        before.wf(),
        child.wf(),
        child.limit_spec() == lent.limit_spec(),
        lent.left_spec() == lent.limit_spec(),
        after.left_spec() == (before.left_spec() - lent.limit_spec()) + child.left_spec(),
        after.limit_spec() == before.limit_spec(),
        lent.limit_spec() <= before.left_spec(),
    ensures
        after.limit_spec() - after.left_spec() == (before.limit_spec() - before.left_spec()) + (
        child.limit_spec() - child.left_spec()),
{
}

} // verus!
