//! Laws of the aggregate over whole operation histories.
//!
//! The handlers perform three state-changing operations — recording an
//! expenditure, replacing the budget, and resetting — whose effects the
//! contracts in `state` pin as `spend_model`, `budget_model` and
//! `initial_model`. This module states what holds after any sequence of such
//! operations applied to a fresh aggregate.

use vstd::prelude::*;

use crate::category::Category;
use crate::state::AggregateModel;
use crate::state::budget_model;
use crate::state::initial_model;
use crate::state::spend_model;

verus! {

/// One state-changing operation on the aggregate, as a handler performs it.
pub enum AggregateOp {
    /// Record an expenditure of the given cents, filed under the category.
    Spend(int, Category),
    /// Replace the budget with the given cents.
    SetBudget(int),
    /// Restore the defaults.
    Reset,
}

/// The state after one operation.
pub open spec fn apply_op(m: AggregateModel, op: AggregateOp) -> AggregateModel {
    match op {
        AggregateOp::Spend(cents, cat) => spend_model(m, cents, cat),
        AggregateOp::SetBudget(cents) => budget_model(m, cents),
        AggregateOp::Reset => initial_model(),
    }
}

/// The state after a sequence of operations, applied left to right.
pub open spec fn apply_ops(m: AggregateModel, ops: Seq<AggregateOp>) -> AggregateModel
    decreases ops.len(),
{
    if ops.len() == 0 {
        m
    } else {
        apply_op(apply_ops(m, ops.drop_last()), ops.last())
    }
}

/// The cents of the expenditures recorded since the last reset in `ops`
/// (since the start, if `ops` holds no reset), in submission order.
pub open spec fn spends_since_reset(ops: Seq<AggregateOp>) -> Seq<int>
    decreases ops.len(),
{
    if ops.len() == 0 {
        Seq::empty()
    } else {
        match ops.last() {
            AggregateOp::Spend(cents, _) => spends_since_reset(ops.drop_last()).push(cents),
            AggregateOp::SetBudget(_) => spends_since_reset(ops.drop_last()),
            AggregateOp::Reset => Seq::empty(),
        }
    }
}

/// The algebraic sum of a sequence of cent amounts.
pub open spec fn sum_cents(s: Seq<int>) -> int
    decreases s.len(),
{
    if s.len() == 0 {
        0
    } else {
        sum_cents(s.drop_last()) + s.last()
    }
}

/// After any sequence of operations on a fresh aggregate, the total is the
/// algebraic sum of the expenditures recorded since the last reset (or since
/// the start), and the transaction log holds exactly one entry per such
/// expenditure.
pub proof fn lemma_total_is_sum_of_spends(ops: Seq<AggregateOp>)
    ensures
        apply_ops(initial_model(), ops).total == sum_cents(spends_since_reset(ops)),
        apply_ops(initial_model(), ops).transactions.len() == spends_since_reset(ops).len(),
    decreases ops.len(),
{
    if ops.len() > 0 {
        lemma_total_is_sum_of_spends(ops.drop_last());
        match ops.last() {
            AggregateOp::Spend(cents, _) => {
                assert(spends_since_reset(ops).drop_last() =~= spends_since_reset(
                    ops.drop_last(),
                ));
            },
            AggregateOp::SetBudget(_) => {},
            AggregateOp::Reset => {},
        }
    }
}

/// Reset is idempotent: a second reset leaves the aggregate exactly as the
/// first did, so two successive resets produce identical snapshots.
pub proof fn lemma_reset_idempotent(m: AggregateModel)
    ensures
        apply_op(apply_op(m, AggregateOp::Reset), AggregateOp::Reset) == apply_op(
            m,
            AggregateOp::Reset,
        ),
{
}

/// Replacing the budget changes only the budget: the following snapshot
/// reports the new amount, and neither the total nor the transaction log
/// moves.
pub proof fn lemma_set_budget_touches_only_budget(m: AggregateModel, cents: int)
    ensures
        apply_op(m, AggregateOp::SetBudget(cents)).budget == cents,
        apply_op(m, AggregateOp::SetBudget(cents)).total == m.total,
        apply_op(m, AggregateOp::SetBudget(cents)).transactions == m.transactions,
{
}

} // verus!
