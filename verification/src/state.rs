//! The process-wide aggregate: budget, running total, and transaction log.
//!
//! Amounts are integer cents. Each operation's contract pins the whole state
//! transition, so the handlers built on top of it need no further knowledge of
//! the record.

use vstd::prelude::*;

use crate::category::Category;
use crate::money::format_cents;
use crate::money::money_display;

verus! {

/// The budget a fresh aggregate starts with, in cents ($500.00).
pub const INITIAL_BUDGET_CENTS: i64 = 50000;

/// Mathematical model of the aggregate: integer cents, and the transaction
/// log as (display string, category) pairs in submission order.
pub struct AggregateModel {
    pub budget: int,
    pub total: int,
    pub transactions: Seq<(Seq<char>, Category)>,
}

/// The fresh aggregate: a $500.00 budget, nothing spent, an empty log.
pub open spec fn initial_model() -> AggregateModel {
    AggregateModel { budget: 50000, total: 0, transactions: Seq::empty() }
}

/// The views of a transaction vector's entries.
pub open spec fn trans_views(v: Seq<(String, Category)>) -> Seq<(Seq<char>, Category)> {
    v.map_values(|t: (String, Category)| (t.0@, t.1))
}

/// The category an expenditure is filed under: the one the request carries,
/// or `Other` when it carries none.
pub open spec fn resolve_category(c: Option<Category>) -> Category {
    match c {
        Some(cat) => cat,
        None => Category::Other,
    }
}

/// Effect of recording an expenditure of `cents` filed under `cat`: the total
/// grows by `cents` and the log gains one entry in display form; the budget
/// is untouched.
pub open spec fn spend_model(m: AggregateModel, cents: int, cat: Category) -> AggregateModel {
    AggregateModel {
        budget: m.budget,
        total: m.total + cents,
        transactions: m.transactions.push((money_display(cents), cat)),
    }
}

/// Effect of replacing the budget: the total and the log are untouched.
pub open spec fn budget_model(m: AggregateModel, cents: int) -> AggregateModel {
    AggregateModel { budget: cents, total: m.total, transactions: m.transactions }
}

/// Reply to a successful expenditure: the remaining balance
/// (budget − total) in display form.
pub struct SpentResponse {
    pub total: String,
}

/// An owned snapshot of the aggregate: budget and total in display form, and
/// a copy of the transaction log.
pub struct SpentTotalResponse {
    pub budget: String,
    pub total: String,
    pub transactions: Vec<(String, Category)>,
}

/// The record of budget, running total, and transaction log, in integer
/// cents. One such record serves the whole process.
pub struct StateTotal {
    pub budget: i64,
    pub total: i64,
    pub transactions: Vec<(String, Category)>,
}

impl View for StateTotal {
    type V = AggregateModel;

    open spec fn view(&self) -> AggregateModel {
        AggregateModel {
            budget: self.budget as int,
            total: self.total as int,
            transactions: trans_views(self.transactions@),
        }
    }
}

/// A copy of a transaction vector, entry for entry.
fn clone_transactions(v: &Vec<(String, Category)>) -> (r: Vec<(String, Category)>)
    ensures
        r@ == v@,
{
    let mut r: Vec<(String, Category)> = Vec::new();
    let mut i: usize = 0;
    while i < v.len()
        invariant
            i <= v.len(),
            r@ == v@.subrange(0, i as int),
        decreases v.len() - i,
    {
        let entry = (v[i].0.clone(), v[i].1);
        r.push(entry);
        proof {
            assert(r@ =~= v@.subrange(0, i as int + 1));
        }
        i = i + 1;
    }
    proof {
        assert(r@ =~= v@);
    }
    r
}

impl StateTotal {
    /// A fresh aggregate.
    pub fn new() -> (s: Self)
        ensures
            s@ == initial_model(),
    {
        let s = StateTotal { budget: INITIAL_BUDGET_CENTS, total: 0, transactions: Vec::new() };
        proof {
            assert(s@.transactions =~= initial_model().transactions);
        }
        s
    }

    /// Record one expenditure: add `cents` to the total, append the entry to
    /// the log, and reply with the remaining balance (budget − total after
    /// the update) in display form. The two updates happen together: callers
    /// never observe one without the other.
    pub fn apply_expenditure(&mut self, cents: i64, category: Option<Category>) -> (r:
        SpentResponse)
        requires
            i64::MIN < cents,
            i64::MIN < old(self)@.total + cents <= i64::MAX,
            i64::MIN < old(self)@.budget - (old(self)@.total + cents) <= i64::MAX,
        ensures
            final(self)@ == spend_model(old(self)@, cents as int, resolve_category(category)),
            r.total@ == money_display(final(self)@.budget - final(self)@.total),
    {
        let cat = match category {
            Some(c) => c,
            None => Category::Other,
        };
        let display = format_cents(cents);
        self.total = self.total + cents;
        self.transactions.push((display, cat));
        let remaining = format_cents(self.budget - self.total);
        proof {
            assert(final(self)@.transactions =~= spend_model(
                old(self)@,
                cents as int,
                resolve_category(category),
            ).transactions);
        }
        SpentResponse { total: remaining }
    }

    /// An owned snapshot: budget and total in display form and a copy of the
    /// log, consistent because they are read together.
    pub fn snapshot(&self) -> (r: SpentTotalResponse)
        requires
            i64::MIN < self@.budget,
            i64::MIN < self@.total,
        ensures
            r.budget@ == money_display(self@.budget),
            r.total@ == money_display(self@.total),
            trans_views(r.transactions@) == self@.transactions,
    {
        SpentTotalResponse {
            budget: format_cents(self.budget),
            total: format_cents(self.total),
            transactions: clone_transactions(&self.transactions),
        }
    }

    /// Restore the defaults in place and reply with the fresh snapshot.
    pub fn reset(&mut self) -> (r: SpentTotalResponse)
        ensures
            final(self)@ == initial_model(),
            r.budget@ == money_display(initial_model().budget),
            r.total@ == money_display(0),
            trans_views(r.transactions@) == Seq::<(Seq<char>, Category)>::empty(),
    {
        self.budget = INITIAL_BUDGET_CENTS;
        self.total = 0;
        self.transactions = Vec::new();
        proof {
            assert(self@.transactions =~= initial_model().transactions);
        }
        self.snapshot()
    }

    /// Replace the budget; the total and the log are untouched. Reply with
    /// the snapshot after the change.
    pub fn set_budget(&mut self, cents: i64) -> (r: SpentTotalResponse)
        requires
            i64::MIN < cents,
            i64::MIN < old(self)@.total,
        ensures
            final(self)@ == budget_model(old(self)@, cents as int),
            r.budget@ == money_display(cents as int),
            r.total@ == money_display(old(self)@.total),
            trans_views(r.transactions@) == old(self)@.transactions,
    {
        self.budget = cents;
        self.snapshot()
    }
}

} // verus!
