//! The price of an operation on a content record.
//!
//! An operation costs its base price plus 1.07 units for each access the
//! record has already seen, rounded down to a whole unit. The price is
//! computed in whole hundredths, so that it is the same on every machine.

use vstd::prelude::*;

verus! {

/// The kind of a chargeable operation on a content record.
#[derive(Clone, Copy, Debug, PartialEq, Eq, Structural)]
pub enum TxOp {
    Create,
    Read,
    Write,
}

/// The price of an operation on a record that was never accessed.
pub open spec fn base_cost(op: TxOp) -> nat {
    match op {
        TxOp::Create => 3,
        TxOp::Read => 2,
        TxOp::Write => 3,
    }
}

/// The price of an operation on a record with `accesses` earlier accesses:
/// `base_cost(op) + 1.07 * accesses`, rounded down.
pub open spec fn cost_of(op: TxOp, accesses: nat) -> nat {
    base_cost(op) + (107 * accesses) / 100
}

/// The price of `op` on a record with `accesses` earlier accesses.
pub fn cost(op: TxOp, accesses: u64) -> (price: u128)
    ensures
        price == cost_of(op, accesses as nat),
{
    let base: u128 = match op {
        TxOp::Create => 3,
        TxOp::Read => 2,
        TxOp::Write => 3,
    };
    let surcharge: u128 = (107 * (accesses as u128)) / 100;
    base + surcharge
}

/// The price is the largest whole number that is at most
/// `base_cost(op) + 1.07 * accesses`: in hundredths, it is not above that
/// amount, and one unit more would be.
pub proof fn lemma_cost_rounds_down(op: TxOp, accesses: nat)
    ensures
        100 * cost_of(op, accesses) <= 100 * base_cost(op) + 107 * accesses,
        100 * base_cost(op) + 107 * accesses < 100 * (cost_of(op, accesses) + 1),
{
}

/// No operation is free: every price is at least two units.
pub proof fn lemma_cost_at_least_two(op: TxOp, accesses: nat)
    ensures
        cost_of(op, accesses) >= 2,
{
}

/// A record that was accessed more often is not cheaper to use.
pub proof fn lemma_cost_grows_with_use(op: TxOp, fewer: nat, more: nat)
    requires
        fewer <= more,
    ensures
        cost_of(op, fewer) <= cost_of(op, more),
{
}

} // verus!
