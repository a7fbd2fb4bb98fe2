//! The budget ledger: one charge against a sponsor's budget.
//!
//! A debit takes the price from what remains and switches the budget off as
//! soon as what remains cannot pay for one more call at the same price. The
//! store applies a debit as a conditional update, keyed on the remainder
//! that was read before; the laws below show that such updates, in whatever
//! order they arrive, never spend more than the budget holds.

use crate::types::{Campaign, CampaignView, SponsoredApi, SponsoredApiView};
use vstd::prelude::*;

verus! {

/// The budget of a campaign or of a sponsored API, in cents.
#[derive(Clone, Copy, Debug, PartialEq, Eq, Structural)]
pub struct Budget {
    pub total_cents: u64,
    pub remaining_cents: u64,
    pub active: bool,
}

/// A conditional update for the store: set the remainder and the active
/// flag of `entity_id`, provided that the entity is still active and its
/// remainder is still `expected_remaining_cents`.
#[derive(Clone, Copy, Debug, PartialEq, Eq, Structural)]
pub struct BudgetUpdate {
    pub entity_id: u128,
    pub expected_remaining_cents: u64,
    pub new_remaining_cents: u64,
    pub still_active: bool,
}

impl BudgetUpdate {
    /// Whether the update lowers the remainder, or leaves it: every
    /// update that is planned from a budget does.
    pub open spec fn lowers(self) -> bool {
        self.new_remaining_cents <= self.expected_remaining_cents
    }

    /// What the update charges: the difference between the remainder that
    /// it expects and the remainder that it sets.
    pub fn charged_cents(&self) -> (cents: u64)
        ensures
            cents == if self.lowers() {
                (self.expected_remaining_cents - self.new_remaining_cents) as u64
            } else {
                0
            },
    {
        self.expected_remaining_cents.saturating_sub(self.new_remaining_cents)
    }
}

/// The smaller of two numbers.
pub open spec fn min_nat(a: nat, b: nat) -> nat {
    if a <= b {
        a
    } else {
        b
    }
}

impl Budget {
    /// The invariant of every budget: what remains is at most the total.
    pub open spec fn wf(self) -> bool {
        self.remaining_cents <= self.total_cents
    }

    /// Whether a charge of `price` may be made.
    pub open spec fn can_debit(self, price: u64) -> bool {
        self.active && self.remaining_cents >= price
    }

    /// The budget after a charge of `price`. The remainder is floored at
    /// zero; the budget stays active only while the remainder is positive
    /// and pays for one more charge.
    pub open spec fn debited(self, price: u64) -> Budget {
        let rest: u64 = if self.remaining_cents >= price {
            (self.remaining_cents - price) as u64
        } else {
            0
        };
        Budget {
            total_cents: self.total_cents,
            remaining_cents: rest,
            active: rest >= price && rest > 0,
        }
    }

    /// The budget after one attempt to charge `price`: debited where the
    /// charge may be made, unchanged where it may not.
    pub open spec fn attempt(self, price: u64) -> Budget {
        if self.can_debit(price) {
            self.debited(price)
        } else {
            self
        }
    }

    /// The budget after `n` attempts to charge `price`, one after another.
    pub open spec fn after_attempts(self, price: u64, n: nat) -> Budget
        decreases n,
    {
        if n == 0 {
            self
        } else {
            self.attempt(price).after_attempts(price, (n - 1) as nat)
        }
    }

    /// How many of `n` attempts to charge `price` succeed.
    pub open spec fn successes(self, price: u64, n: nat) -> nat
        decreases n,
    {
        if n == 0 {
            0
        } else {
            let first: nat = if self.can_debit(price) {
                1
            } else {
                0
            };
            first + self.attempt(price).successes(price, (n - 1) as nat)
        }
    }

    /// The conditional update that charges `price` to the entity, as
    /// planned from this reading of its budget.
    pub open spec fn update_for(self, entity_id: u128, price: u64) -> BudgetUpdate {
        BudgetUpdate {
            entity_id,
            expected_remaining_cents: self.remaining_cents,
            new_remaining_cents: self.debited(price).remaining_cents,
            still_active: self.debited(price).active,
        }
    }

    /// What the store holds after it was asked to apply `update` to a
    /// budget: the update's values where the condition holds, the budget
    /// unchanged where it does not.
    pub open spec fn after_update(self, update: BudgetUpdate) -> Budget {
        if self.update_applies(update) {
            Budget {
                total_cents: self.total_cents,
                remaining_cents: update.new_remaining_cents,
                active: update.still_active,
            }
        } else {
            self
        }
    }

    /// Whether the store applies `update` to this budget.
    pub open spec fn update_applies(self, update: BudgetUpdate) -> bool {
        self.active && self.remaining_cents == update.expected_remaining_cents
    }

    /// A fresh budget: all of it remains, and it is active.
    pub fn new(total_cents: u64) -> (b: Budget)
        ensures
            b == (Budget { total_cents, remaining_cents: total_cents, active: true }),
            b.wf(),
    {
        Budget { total_cents, remaining_cents: total_cents, active: true }
    }

    /// Whether a charge of `price` may be made.
    pub fn is_chargeable(&self, price: u64) -> (r: bool)
        ensures
            r == self.can_debit(price),
    {
        self.active && self.remaining_cents >= price
    }

    /// Charges `price`. The total stays, the remainder falls by the price,
    /// and the budget is active afterwards only if the new remainder is
    /// positive and at least the price.
    pub fn debit(self, price: u64) -> (b: Budget)
        requires
            self.can_debit(price),
        ensures
            b == self.debited(price),
            b.total_cents == self.total_cents,
            b.remaining_cents == self.remaining_cents - price,
            b.active == (b.remaining_cents >= price && b.remaining_cents > 0),
            self.wf() ==> b.wf(),
    {
        let rest: u64 = self.remaining_cents.saturating_sub(price);
        Budget {
            total_cents: self.total_cents,
            remaining_cents: rest,
            active: rest >= price && rest > 0,
        }
    }

    /// Attempts to charge `price` in place. Returns whether the charge was
    /// made; where it was not, the budget is unchanged.
    pub fn try_debit(&mut self, price: u64) -> (done: bool)
        ensures
            done == old(self).can_debit(price),
            *final(self) == old(self).attempt(price),
            final(self).remaining_cents <= old(self).remaining_cents,
            old(self).wf() ==> final(self).wf(),
    {
        if self.is_chargeable(price) {
            *self = self.debit(price);
            true
        } else {
            false
        }
    }

    /// The conditional update that charges `price` to `entity_id`, as
    /// planned from this reading of the budget.
    pub fn debit_update(&self, entity_id: u128, price: u64) -> (update: BudgetUpdate)
        requires
            self.can_debit(price),
        ensures
            update == self.update_for(entity_id, price),
            update.lowers(),
            update.expected_remaining_cents - update.new_remaining_cents == price,
    {
        let next = self.debit(price);
        BudgetUpdate {
            entity_id,
            expected_remaining_cents: self.remaining_cents,
            new_remaining_cents: next.remaining_cents,
            still_active: next.active,
        }
    }

    /// Plans the conditional update that charges `price` to `entity_id`,
    /// or nothing where this reading of the budget allows no charge.
    pub fn plan_debit(&self, entity_id: u128, price: u64) -> (plan: Option<BudgetUpdate>)
        ensures
            plan == if self.can_debit(price) {
                Some(self.update_for(entity_id, price))
            } else {
                None::<BudgetUpdate>
            },
    {
        if self.is_chargeable(price) {
            Some(self.debit_update(entity_id, price))
        } else {
            None
        }
    }
}

impl Budget {
    /// Applies a conditional update as the store does: the update's values
    /// are taken where the budget is active and its remainder is the one
    /// that the update expects, and the budget is left alone where not.
    /// Returns whether the update was applied.
    pub fn apply_update(&mut self, update: &BudgetUpdate) -> (applied: bool)
        ensures
            applied == old(self).update_applies(*update),
            *final(self) == old(self).after_update(*update),
            old(self).wf() && update.lowers() ==> final(self).wf(),
    {
        if self.active && self.remaining_cents == update.expected_remaining_cents {
            self.remaining_cents = update.new_remaining_cents;
            self.active = update.still_active;
            true
        } else {
            false
        }
    }
}

impl CampaignView {
    /// The budget of the campaign.
    pub open spec fn budget(self) -> Budget {
        Budget {
            total_cents: self.budget_total_cents,
            remaining_cents: self.budget_remaining_cents,
            active: self.active,
        }
    }

    /// The campaign with another remainder and active flag.
    pub open spec fn with_budget(self, budget: Budget) -> CampaignView {
        CampaignView {
            budget_remaining_cents: budget.remaining_cents,
            active: budget.active,
            ..self
        }
    }
}

impl SponsoredApiView {
    /// The budget of the sponsored API.
    pub open spec fn budget(self) -> Budget {
        Budget {
            total_cents: self.budget_total_cents,
            remaining_cents: self.budget_remaining_cents,
            active: self.active,
        }
    }

    /// The sponsored API with another remainder and active flag.
    pub open spec fn with_budget(self, budget: Budget) -> SponsoredApiView {
        SponsoredApiView {
            budget_remaining_cents: budget.remaining_cents,
            active: budget.active,
            ..self
        }
    }
}

impl Campaign {
    /// The budget of the campaign.
    pub fn budget(&self) -> (b: Budget)
        ensures
            b == self@.budget(),
    {
        Budget {
            total_cents: self.budget_total_cents,
            remaining_cents: self.budget_remaining_cents,
            active: self.active,
        }
    }

    /// Charges `price` to the campaign. Nothing but the remainder and the
    /// active flag changes, and the budget invariant is kept.
    pub fn debit(self, price: u64) -> (c: Campaign)
        requires
            self@.budget().can_debit(price),
        ensures
            c@ == self@.with_budget(self@.budget().debited(price)),
            c@.budget_remaining_cents == self@.budget_remaining_cents - price,
            self@.wf() ==> c@.wf(),
    {
        let next = self.budget().debit(price);
        Campaign { budget_remaining_cents: next.remaining_cents, active: next.active, ..self }
    }

    /// Applies a conditional update to the campaign as the store does.
    /// Returns whether the update was applied.
    pub fn apply_update(&mut self, update: &BudgetUpdate) -> (applied: bool)
        ensures
            applied == old(self)@.budget().update_applies(*update),
            final(self)@ == old(self)@.with_budget(old(self)@.budget().after_update(*update)),
            old(self)@.wf() && update.lowers() ==> final(self)@.wf(),
    {
        let mut budget = self.budget();
        let applied = budget.apply_update(update);
        self.budget_remaining_cents = budget.remaining_cents;
        self.active = budget.active;
        applied
    }
}

impl SponsoredApi {
    /// The budget of the sponsored API.
    pub fn budget(&self) -> (b: Budget)
        ensures
            b == self@.budget(),
    {
        Budget {
            total_cents: self.budget_total_cents,
            remaining_cents: self.budget_remaining_cents,
            active: self.active,
        }
    }

    /// Charges `price` to the sponsored API. Nothing but the remainder and
    /// the active flag changes, and the budget invariant is kept.
    pub fn debit(self, price: u64) -> (a: SponsoredApi)
        requires
            self@.budget().can_debit(price),
        ensures
            a@ == self@.with_budget(self@.budget().debited(price)),
            a@.budget_remaining_cents == self@.budget_remaining_cents - price,
            self@.wf() ==> a@.wf(),
    {
        let next = self.budget().debit(price);
        SponsoredApi { budget_remaining_cents: next.remaining_cents, active: next.active, ..self }
    }

    /// Applies a conditional update to the sponsored API as the store
    /// does. Returns whether the update was applied.
    pub fn apply_update(&mut self, update: &BudgetUpdate) -> (applied: bool)
        ensures
            applied == old(self)@.budget().update_applies(*update),
            final(self)@ == old(self)@.with_budget(old(self)@.budget().after_update(*update)),
            old(self)@.wf() && update.lowers() ==> final(self)@.wf(),
    {
        let mut budget = self.budget();
        let applied = budget.apply_update(update);
        self.budget_remaining_cents = budget.remaining_cents;
        self.active = budget.active;
        applied
    }
}

/// Every attempt keeps the invariant, leaves the total alone and never
/// raises the remainder; a budget that is off stays off.
pub proof fn lemma_attempts_keep_invariant(b: Budget, price: u64, n: nat)
    ensures
        b.after_attempts(price, n).total_cents == b.total_cents,
        b.after_attempts(price, n).remaining_cents <= b.remaining_cents,
        b.wf() ==> b.after_attempts(price, n).wf(),
        !b.active ==> !b.after_attempts(price, n).active,
    decreases n,
{
    if n > 0 {
        lemma_attempts_keep_invariant(b.attempt(price), price, (n - 1) as nat);
    }
}

/// No double spending. Of `n` attempts to charge a positive `price` to a
/// budget that is active, or that cannot pay for one charge anyway, exactly
/// as many succeed as the remainder pays for, and the others find the
/// budget insufficient; the remainder falls by the price of those that
/// succeed. The attempts may come from any number of callers: each is one
/// atomic step on the budget, so the order in which they arrive is a
/// sequence of `n` attempts.
pub proof fn lemma_no_double_spend(b: Budget, price: u64, n: nat)
    requires
        price > 0,
        b.active || b.remaining_cents < price,
    ensures
        b.successes(price, n) == min_nat(n, (b.remaining_cents / price) as nat),
        b.after_attempts(price, n).remaining_cents == b.remaining_cents - b.successes(price, n)
            * price,
        n > (b.remaining_cents / price) ==> !b.after_attempts(price, n).can_debit(price),
    decreases n,
{
    let r = b.remaining_cents as int;
    let p = price as int;
    let count = b.successes(price, n) as int;
    if n == 0 {
        assert(count * p == 0) by (nonlinear_arith)
            requires
                count == 0,
        ;
    } else {
        let next = b.attempt(price);
        lemma_no_double_spend(next, price, (n - 1) as nat);
        let rest = next.successes(price, (n - 1) as nat);
        if b.can_debit(price) {
            assert((r - p) / p == r / p - 1) by (nonlinear_arith)
                requires
                    p > 0,
                    r >= p,
            ;
            assert(count * p == p + rest * p) by (nonlinear_arith)
                requires
                    count == 1 + rest,
            ;
        } else {
            assert(r / p == 0) by (nonlinear_arith)
                requires
                    p > 0,
                    0 <= r < p,
            ;
            assert(count * p == 0) by (nonlinear_arith)
                requires
                    count == 0,
            ;
        }
    }
}

/// A conditional update that the store applies is one debit of what the
/// store holds. An update is planned from a reading of the budget that may
/// be stale; where its condition holds, the stored budget has the
/// remainder that was read, and the update leaves the store as a debit of
/// `price` would. Where the condition fails the store is unchanged.
pub proof fn lemma_conditional_update_is_debit(
    stored: Budget,
    read: Budget,
    entity_id: u128,
    price: u64,
)
    requires
        read.can_debit(price),
    ensures
        stored.update_applies(read.update_for(entity_id, price)) ==> stored.can_debit(price)
            && stored.after_update(read.update_for(entity_id, price)) == stored.debited(price),
        !stored.update_applies(read.update_for(entity_id, price)) ==> stored.after_update(
            read.update_for(entity_id, price),
        ) == stored,
        stored.wf() ==> stored.after_update(read.update_for(entity_id, price)).wf(),
        !stored.active ==> !stored.after_update(read.update_for(entity_id, price)).active,
        stored.after_update(read.update_for(entity_id, price)).remaining_cents
            <= stored.remaining_cents,
{
}

} // verus!
