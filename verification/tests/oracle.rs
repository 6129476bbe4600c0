use server::economy::{TeamLedger, UpdateBalanceError};
use server::oracle::{
    create_oracle_txn, partition_oracles, reply_oracle_txn, CreateOracleDecision, OracleSummary,
    MAX_ACTIVE_ORACLES,
};

#[test]
fn opening_an_oracle_charges_the_deposit() {
    let mut l = TeamLedger::new(3, 100);
    let r = create_oracle_txn(&mut l, 3, 9, String::from("how?"), 0, 40, 0, "Create oracle on puzzle 9");
    match r {
        Ok(CreateOracleDecision::Charged { row, cost, new_balance }) => {
            assert_eq!(row.puzzle, 9);
            assert_eq!(row.team, 3);
            assert_eq!(row.cost, 40);
            assert_eq!(row.query, "how?");
            assert_eq!(row.response, "");
            assert!(row.active);
            assert_eq!(cost, -40);
            assert_eq!(new_balance, 60);
        },
        _ => panic!("expected a charged oracle"),
    }
    assert_eq!(l.token_balance, 60);
}

#[test]
fn too_many_open_oracles_charges_nothing() {
    let mut l = TeamLedger::new(3, 100);
    let r = create_oracle_txn(
        &mut l,
        3,
        9,
        String::from("q"),
        MAX_ACTIVE_ORACLES,
        40,
        0,
        "Create oracle on puzzle 9",
    );
    assert!(matches!(r, Ok(CreateOracleDecision::TooManyActiveOracle)));
    assert_eq!(l.token_balance, 100);
    assert_eq!(l.log.len(), 0);
}

#[test]
fn unaffordable_deposit_is_refused() {
    let mut l = TeamLedger::new(3, 10);
    let r = create_oracle_txn(&mut l, 3, 9, String::from("q"), 0, 40, 0, "Create oracle on puzzle 9");
    assert!(matches!(r, Err(UpdateBalanceError::InsufficientFunds)));
    assert_eq!(l.token_balance, 10);
}

#[test]
fn reply_refund_is_capped_at_the_deposit() {
    let mut l = TeamLedger::new(3, 0);
    let (update, new_balance) =
        reply_oracle_txn(&mut l, 40, 1000, String::from("like this"), 0, "Refund for oracle 1 by staff 2");
    assert_eq!(update.refund, Some(40));
    assert_eq!(update.active, Some(false));
    assert_eq!(update.response.as_deref(), Some("like this"));
    assert_eq!(new_balance, 40);
    assert_eq!(l.token_balance, 40);
}

#[test]
fn reply_refund_below_the_deposit_passes_through() {
    let mut l = TeamLedger::new(3, 0);
    let (update, new_balance) = reply_oracle_txn(&mut l, 40, 15, String::from("r"), 5, "Refund");
    assert_eq!(update.refund, Some(15));
    assert_eq!(new_balance, 20);
}

#[test]
fn oracle_listing_splits_by_open_flag() {
    let items = vec![
        OracleSummary { id: 1, active: true },
        OracleSummary { id: 2, active: false },
        OracleSummary { id: 3, active: true },
        OracleSummary { id: 4, active: false },
    ];
    let (active, inactive) = partition_oracles(&items);
    assert_eq!(active, vec![1, 3]);
    assert_eq!(inactive, vec![2, 4]);
    let (a, i) = partition_oracles(&Vec::new());
    assert!(a.is_empty() && i.is_empty());
}
