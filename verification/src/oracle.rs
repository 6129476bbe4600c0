//! The decision cores of the oracle (question-and-answer) requests: the
//! deposit charged when a team opens one, the cap on open oracles, and the
//! refund a staff reply grants.
use vstd::prelude::*;
use crate::economy::{
    compulsory_team_balance, modify_rel, try_modify_team_balance, TeamLedger, UpdateBalanceError,
};

verus! {

/// Longest oracle question or reply, in bytes.
pub const ORACLE_LENGTH_LIMIT_BYTES: usize = 700;

/// How many oracles one team may hold open at once.
pub const MAX_ACTIVE_ORACLES: i64 = 5;

/// A fresh oracle row to insert.
pub struct NewOracle {
    pub puzzle: i32,
    pub team: i32,
    /// The deposit charged when it was opened.
    pub cost: i64,
    pub query: String,
    pub response: String,
    pub active: bool,
}

/// An oracle row as read back.
pub struct OracleRecord {
    pub id: i32,
    pub puzzle: i32,
    pub team: i32,
    pub active: bool,
    pub cost: i64,
    pub refund: i64,
    pub query: String,
    pub response: String,
}

/// The id and open flag of one oracle, as listed to its team.
#[derive(Clone, Copy, Debug, PartialEq, Eq, Structural)]
pub struct OracleSummary {
    pub id: i32,
    pub active: bool,
}

/// The listing staff see.
pub struct OracleSummaryStaff {
    pub id: i32,
    pub active: bool,
    pub cost: i64,
    pub refund: i64,
    pub team: i32,
    pub puzzle: i32,
}

/// The row update a staff reply performs.
pub struct UpdateOracle {
    pub refund: Option<i64>,
    pub active: Option<bool>,
    pub response: Option<String>,
}

/// What opening an oracle decides.
pub enum CreateOracleDecision {
    /// The team already holds the maximum number of open oracles; nothing
    /// is charged.
    TooManyActiveOracle,
    /// The deposit was charged; `row` is the oracle to insert.
    Charged { row: NewOracle, cost: i64, new_balance: i64 },
}

/// The transaction core of opening an oracle: refuses a team at the open
/// cap, otherwise charges the deposit voluntarily and hands back the row
/// to insert.  The deposit is a real spend: a team that cannot cover it is
/// refused with [`UpdateBalanceError::InsufficientFunds`] and nothing
/// changes.
pub fn create_oracle_txn(
    ledger: &mut TeamLedger,
    team_id: i32,
    puzzle_id: i32,
    content: String,
    active_count: i64,
    deposit: i64,
    allowance: i64,
    description: &str,
) -> (r: Result<CreateOracleDecision, UpdateBalanceError>)
    requires
        0 <= deposit,
        i64::MIN <= old(ledger).token_balance - deposit,
        i64::MIN <= old(ledger).token_balance - deposit + allowance,
        old(ledger).token_balance + allowance <= i64::MAX,
        old(ledger).log@.len() < usize::MAX,
    ensures
        match r {
            Ok(CreateOracleDecision::TooManyActiveOracle) => {
                &&& active_count >= MAX_ACTIVE_ORACLES
                &&& *final(ledger) == *old(ledger)
            },
            Ok(CreateOracleDecision::Charged { row, cost, new_balance }) => {
                &&& active_count < MAX_ACTIVE_ORACLES
                &&& modify_rel(
                    *old(ledger),
                    (0 - deposit) as i64,
                    description@,
                    allowance,
                    false,
                    None,
                    *final(ledger),
                    Ok(new_balance),
                )
                &&& cost == 0 - deposit
                &&& row.puzzle == puzzle_id
                &&& row.team == team_id
                &&& row.cost == deposit
                &&& row.query@ == content@
                &&& row.response@ == Seq::<char>::empty()
                &&& row.active
            },
            Err(UpdateBalanceError::InsufficientFunds) => {
                &&& active_count < MAX_ACTIVE_ORACLES
                &&& *final(ledger) == *old(ledger)
                &&& old(ledger).token_balance - deposit + allowance < 0
            },
            Err(UpdateBalanceError::TransactionCancel(_)) => false,
        },
{
    if active_count >= MAX_ACTIVE_ORACLES {
        return Ok(CreateOracleDecision::TooManyActiveOracle);
    }
    let new_balance = try_modify_team_balance(ledger, 0 - deposit, description, allowance, None)?;
    Ok(
        CreateOracleDecision::Charged {
            row: NewOracle {
                puzzle: puzzle_id,
                team: team_id,
                cost: deposit,
                query: content,
                response: String::new(),
                active: true,
            },
            cost: 0 - deposit,
            new_balance,
        },
    )
}

/// The transaction core of a staff reply: closes the oracle with the reply
/// text, grants a refund capped at the deposit, and credits it
/// compulsorily.  Returns the row update and the team's new effective
/// balance.
pub fn reply_oracle_txn(
    ledger: &mut TeamLedger,
    oracle_cost: i64,
    refund_amount: i64,
    content: String,
    allowance: i64,
    description: &str,
) -> (r: (UpdateOracle, i64))
    requires
        0 <= refund_amount,
        0 <= oracle_cost,
        old(ledger).token_balance + oracle_cost <= i64::MAX,
        old(ledger).token_balance + oracle_cost + allowance <= i64::MAX,
        i64::MIN <= old(ledger).token_balance + allowance,
        old(ledger).log@.len() < usize::MAX,
    ensures
        ({
            let refund = if refund_amount < oracle_cost {
                refund_amount
            } else {
                oracle_cost
            };
            &&& r.0.refund == Some(refund)
            &&& r.0.active == Some(false)
            &&& r.0.response matches Some(c) && c@ == content@
            &&& modify_rel(
                *old(ledger),
                refund,
                description@,
                allowance,
                true,
                None,
                *final(ledger),
                Ok(r.1),
            )
        }),
        old(ledger).wf() ==> final(ledger).wf(),
{
    let refund = if refund_amount < oracle_cost {
        refund_amount
    } else {
        oracle_cost
    };
    let new_balance = match compulsory_team_balance(ledger, refund, description, allowance) {
        Ok(b) => b,
        Err(_) => {
            proof {
                assert(false);
            }
            0
        },
    };
    (
        UpdateOracle { refund: Some(refund), active: Some(false), response: Some(content) },
        new_balance,
    )
}

/// The open oracles' ids, in listing order.
pub open spec fn active_ids(items: Seq<OracleSummary>, active: bool) -> Seq<i32>
    decreases items.len(),
{
    if items.len() == 0 {
        Seq::empty()
    } else if items.last().active == active {
        active_ids(items.drop_last(), active).push(items.last().id)
    } else {
        active_ids(items.drop_last(), active)
    }
}

/// Splits a team's oracle listing into open and answered ids, keeping the
/// listing order.
pub fn partition_oracles(items: &Vec<OracleSummary>) -> (r: (Vec<i32>, Vec<i32>))
    ensures
        r.0@ == active_ids(items@, true),
        r.1@ == active_ids(items@, false),
{
    let mut open_ids: Vec<i32> = Vec::new();
    let mut answered: Vec<i32> = Vec::new();
    let n = items.len();
    let mut i: usize = 0;
    proof {
        assert(items@.take(0) =~= Seq::<OracleSummary>::empty());
    }
    while i < n
        invariant
            i <= n,
            n == items@.len(),
            open_ids@ == active_ids(items@.take(i as int), true),
            answered@ == active_ids(items@.take(i as int), false),
        decreases n - i,
    {
        let item = items[i];
        if item.active {
            open_ids.push(item.id);
        } else {
            answered.push(item.id);
        }
        proof {
            assert(items@.take(i + 1).drop_last() =~= items@.take(i as int));
            assert(items@.take(i + 1).last() == items@[i as int]);
        }
        i = i + 1;
    }
    proof {
        assert(items@.take(n as int) =~= items@);
    }
    (open_ids, answered)
}

} // verus!
