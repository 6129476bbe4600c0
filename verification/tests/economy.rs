use server::economy::{
    compulsory_team_balance, time_allowance, try_modify_team_balance, TeamLedger,
    UpdateBalanceError,
};

fn fresh(balance: i64) -> TeamLedger {
    TeamLedger::new(1, balance)
}

#[test]
fn voluntary_spend_within_allowance_succeeds() {
    // A team with balance 0 and allowance 50 may spend up to 50.
    let mut l = fresh(0);
    let r = try_modify_team_balance(&mut l, -50, "spend", 50, None);
    assert_eq!(r, Ok(0));
    assert_eq!(l.token_balance, -50);
    assert!(l.confirmed);
}

#[test]
fn voluntary_overspend_fails_without_mutation() {
    // Spending 51 against allowance 50 is refused and changes nothing.
    let mut l = fresh(0);
    let r = try_modify_team_balance(&mut l, -51, "spend", 50, None);
    assert_eq!(r, Err(UpdateBalanceError::InsufficientFunds));
    assert_eq!(l.token_balance, 0);
    assert_eq!(l.log.len(), 0);
    assert!(!l.confirmed);
}

#[test]
fn compulsory_penalty_forces_negative() {
    // A compulsory penalty of 100 leaves the effective balance at -50.
    let mut l = fresh(0);
    let r = compulsory_team_balance(&mut l, -100, "penalty", 50);
    assert_eq!(r, Ok(-50));
    assert_eq!(l.token_balance, -100);
}

#[test]
fn balance_is_sum_of_applied_amounts() {
    // Read-your-writes: after a sequence of successful mutations the
    // persisted balance is exactly the initial balance plus every applied
    // amount, and each call answers the same number a fresh read would.
    let mut l = fresh(10);
    let allowance = 5;
    let amounts = [30i64, -20, 7, -1];
    let mut expected = 10i64;
    for (i, amt) in amounts.iter().enumerate() {
        expected += amt;
        let r = compulsory_team_balance(&mut l, *amt, "step", allowance).unwrap();
        assert_eq!(r, expected + allowance);
        assert_eq!(l.token_balance, expected);
        assert_eq!(l.log.len(), i + 1);
        assert_eq!(l.log[i].amount, *amt);
        assert_eq!(l.log[i].balance, expected);
    }
}

#[test]
fn duplicate_purchase_is_idempotent() {
    // The same purchase reference twice: one real charge, one cancel that
    // reports the post-charge effective balance.
    let mut l = fresh(100);
    let first = try_modify_team_balance(&mut l, -30, "buy once", 0, Some(42));
    assert_eq!(first, Ok(70));
    let second = try_modify_team_balance(&mut l, -30, "buy twice", 0, Some(42));
    assert_eq!(second, Err(UpdateBalanceError::TransactionCancel(70)));
    assert_eq!(l.token_balance, 70);
    assert_eq!(l.log.len(), 1);
}

#[test]
fn distinct_purchase_refs_both_charge() {
    let mut l = fresh(100);
    assert_eq!(try_modify_team_balance(&mut l, -30, "a", 0, Some(1)), Ok(70));
    assert_eq!(try_modify_team_balance(&mut l, -30, "b", 0, Some(2)), Ok(40));
    assert_eq!(l.log.len(), 2);
}

#[test]
fn insufficient_funds_wins_over_duplicate_ref() {
    // The funds check runs before the uniqueness check.
    let mut l = fresh(10);
    assert_eq!(try_modify_team_balance(&mut l, -10, "a", 0, Some(9)), Ok(0));
    let r = try_modify_team_balance(&mut l, -10, "b", 0, Some(9));
    assert_eq!(r, Err(UpdateBalanceError::InsufficientFunds));
}

#[test]
fn transaction_log_records_fields() {
    let mut l = fresh(0);
    try_modify_team_balance(&mut l, -2, "desc here", 10, Some(7)).unwrap();
    let row = &l.log[0];
    assert_eq!(row.team, 1);
    assert_eq!(row.desp, "desc here");
    assert_eq!(row.amount, -2);
    assert_eq!(row.balance, -2);
    assert_eq!(row.allowance, 10);
    assert_eq!(row.purchase_ref, Some(7));
}

#[test]
fn allowance_formula_values() {
    // 25 tokens per minute since the epoch: 120 elapsed seconds earn 50.
    let epoch = 1_000_000;
    assert_eq!(time_allowance(epoch, epoch), 0);
    assert_eq!(time_allowance(epoch - 5, epoch), 0);
    assert_eq!(time_allowance(epoch + 60, epoch), 25);
    assert_eq!(time_allowance(epoch + 90, epoch), 37);
    assert_eq!(time_allowance(epoch + 120, epoch), 50);
    assert_eq!(time_allowance(epoch + 7 * 1440 * 60, epoch), 7 * 1440 * 25);
}

#[test]
fn allowance_is_monotonic_in_samples() {
    let epoch = 500;
    let mut last = -1;
    for now in [0u64, 400, 500, 501, 560, 620, 1000, 100_000] {
        let a = time_allowance(now, epoch);
        assert!(a >= last);
        last = a;
    }
}
