use payloadexchange_mvp::ledger::{Budget, BudgetUpdate};

#[test]
fn fresh_budget_is_whole_and_active() {
    let b = Budget::new(12);
    assert_eq!(b, Budget { total_cents: 12, remaining_cents: 12, active: true });
}

#[test]
fn debit_takes_the_price_and_keeps_the_total() {
    let b = Budget::new(12).debit(5);
    assert_eq!(b, Budget { total_cents: 12, remaining_cents: 7, active: true });
}

#[test]
fn budget_is_switched_off_when_the_remainder_cannot_pay_again() {
    let b = Budget::new(12).debit(5).debit(5);
    assert_eq!(b, Budget { total_cents: 12, remaining_cents: 2, active: false });
}

#[test]
fn budget_is_switched_off_at_zero() {
    let b = Budget::new(10).debit(5).debit(5);
    assert_eq!(b, Budget { total_cents: 10, remaining_cents: 0, active: false });
    let free = Budget::new(3).debit(0);
    assert_eq!(free, Budget { total_cents: 3, remaining_cents: 3, active: true });
    let empty = Budget { total_cents: 3, remaining_cents: 0, active: true }.debit(0);
    assert_eq!(empty, Budget { total_cents: 3, remaining_cents: 0, active: false });
}

#[test]
fn attempt_on_an_insufficient_budget_changes_nothing() {
    let mut b = Budget { total_cents: 12, remaining_cents: 4, active: true };
    assert!(!b.is_chargeable(5));
    assert!(!b.try_debit(5));
    assert_eq!(b, Budget { total_cents: 12, remaining_cents: 4, active: true });
}

#[test]
fn attempt_on_an_inactive_budget_changes_nothing() {
    let mut b = Budget { total_cents: 12, remaining_cents: 10, active: false };
    assert!(!b.try_debit(5));
    assert_eq!(b, Budget { total_cents: 12, remaining_cents: 10, active: false });
}

#[test]
fn exactly_as_many_attempts_succeed_as_the_budget_pays_for() {
    for (initial, price, attempts) in [(12u64, 5u64, 10u32), (10, 5, 10), (4, 5, 3), (100, 7, 50), (100, 7, 3), (0, 1, 4)] {
        let mut b = Budget::new(initial);
        let mut succeeded: u64 = 0;
        for _ in 0..attempts {
            assert!(b.remaining_cents <= b.total_cents);
            if b.try_debit(price) {
                succeeded += 1;
            }
        }
        let affordable = initial / price;
        let expected = affordable.min(attempts as u64);
        assert_eq!(succeeded, expected);
        assert_eq!(b.remaining_cents, initial - expected * price);
        assert_eq!(b.total_cents, initial);
        if attempts as u64 > affordable {
            assert!(!b.is_chargeable(price));
        }
    }
}

#[test]
fn plan_names_the_remainder_that_was_read() {
    let b = Budget::new(12);
    assert_eq!(
        b.plan_debit(9, 5),
        Some(BudgetUpdate {
            entity_id: 9,
            expected_remaining_cents: 12,
            new_remaining_cents: 7,
            still_active: true,
        })
    );
    let last = Budget { total_cents: 12, remaining_cents: 7, active: true };
    assert_eq!(
        last.plan_debit(9, 5),
        Some(BudgetUpdate {
            entity_id: 9,
            expected_remaining_cents: 7,
            new_remaining_cents: 2,
            still_active: false,
        })
    );
    assert_eq!(Budget { total_cents: 12, remaining_cents: 2, active: false }.plan_debit(9, 5), None);
    assert_eq!(Budget { total_cents: 12, remaining_cents: 2, active: true }.plan_debit(9, 5), None);
}

#[test]
fn stale_update_is_not_applied() {
    let read = Budget::new(12);
    let first = read.plan_debit(1, 5).unwrap();
    let second = read.plan_debit(1, 5).unwrap();
    let mut stored = read;
    assert!(stored.apply_update(&first));
    assert_eq!(stored.remaining_cents, 7);
    assert!(!stored.apply_update(&second));
    assert_eq!(stored, Budget { total_cents: 12, remaining_cents: 7, active: true });
    let retry = stored.plan_debit(1, 5).unwrap();
    assert!(stored.apply_update(&retry));
    assert_eq!(stored, Budget { total_cents: 12, remaining_cents: 2, active: false });
    assert_eq!(stored.plan_debit(1, 5), None);
}

#[test]
fn racing_updates_never_overspend() {
    let mut stored = Budget::new(23);
    let price = 5;
    let mut succeeded = 0;
    let mut pending: Vec<Option<BudgetUpdate>> = (0..8).map(|_| stored.plan_debit(1, price)).collect();
    let mut rounds = 0;
    while pending.iter().any(|p| p.is_some()) {
        rounds += 1;
        assert!(rounds < 100);
        for slot in pending.iter_mut() {
            if let Some(update) = slot.take() {
                if stored.apply_update(&update) {
                    succeeded += 1;
                } else {
                    *slot = stored.plan_debit(1, price);
                }
            }
        }
    }
    assert_eq!(succeeded, 4);
    assert_eq!(stored, Budget { total_cents: 23, remaining_cents: 3, active: false });
}

#[test]
fn debit_update_is_the_plan_of_a_chargeable_budget() {
    let b = Budget::new(12);
    assert_eq!(Some(b.debit_update(4, 5)), b.plan_debit(4, 5));
}

#[test]
fn update_charges_the_price() {
    let update = Budget::new(12).debit_update(1, 5);
    assert_eq!(update.charged_cents(), 5);
    let odd = BudgetUpdate { entity_id: 1, expected_remaining_cents: 3, new_remaining_cents: 9, still_active: true };
    assert_eq!(odd.charged_cents(), 0);
}
