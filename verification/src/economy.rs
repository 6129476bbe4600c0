//! The token economy: transactional balance mutation over an append-only
//! transaction log, with idempotent purchases and a time-based allowance.
//!
//! [`TeamLedger`] is the per-team slice of the backing store that a balance
//! mutation reads and writes: the persisted balance, the confirmed flag and
//! the team's transaction rows.  The caller runs each mutation inside one
//! store transaction; a mutation either applies completely or leaves the
//! ledger untouched.  Charging the same purchase reference twice is detected
//! by the log's uniqueness constraint and reported as a cancelled
//! transaction, not as an error.
use vstd::prelude::*;

verus! {

/// Why a balance mutation did not apply.
#[derive(Clone, Copy, Debug, PartialEq, Eq, Structural)]
pub enum UpdateBalanceError {
    /// A voluntary spend would have driven the effective balance negative;
    /// nothing was charged.
    InsufficientFunds,
    /// The purchase reference was already charged; the payload is the
    /// current effective balance, unchanged by this call.
    TransactionCancel(i64),
}

/// One append-only transaction log row.
pub struct TransactionRecord {
    pub team: i32,
    pub desp: String,
    pub amount: i64,
    /// The persisted balance right after this row was applied.
    pub balance: i64,
    /// The allowance at the moment this row was applied.
    pub allowance: i64,
    /// Set on "buy once" purchases; unique over a team's log.
    pub purchase_ref: Option<i32>,
}

/// The per-team state a balance mutation works on.
pub struct TeamLedger {
    pub team: i32,
    /// The persisted balance the team started the competition with.
    pub initial_balance: i64,
    /// The currently persisted balance.
    pub token_balance: i64,
    /// Whether the team has completed an economic transaction.
    pub confirmed: bool,
    /// This team's transaction rows, oldest first.
    pub log: Vec<TransactionRecord>,
}

/// The sum of the signed amounts of all rows.
pub open spec fn sum_amounts(log: Seq<TransactionRecord>) -> int
    decreases log.len(),
{
    if log.len() == 0 {
        0
    } else {
        sum_amounts(log.drop_last()) + log.last().amount
    }
}

/// Whether some row already carries purchase reference `r`.
pub open spec fn ref_used(log: Seq<TransactionRecord>, r: i32) -> bool {
    exists|i: int| 0 <= i < log.len() && log[i].purchase_ref == Some(r)
}

impl TeamLedger {
    /// A ledger is well formed when its balance is exactly the initial
    /// balance plus everything the log ever applied.
    pub open spec fn wf(self) -> bool {
        self.token_balance == self.initial_balance + sum_amounts(self.log@)
    }

    /// A fresh ledger with an empty log.
    pub fn new(team: i32, initial_balance: i64) -> (r: Self)
        ensures
            r.team == team,
            r.initial_balance == initial_balance,
            r.token_balance == initial_balance,
            !r.confirmed,
            r.log@ == Seq::<TransactionRecord>::empty(),
            r.wf(),
    {
        TeamLedger { team, initial_balance, token_balance: initial_balance, confirmed: false, log: Vec::new() }
    }
}

/// Everything one balance mutation does, as a relation between the ledger
/// before the call, the ledger after it, and the result.
pub open spec fn modify_rel(
    pre: TeamLedger,
    amount: i64,
    desp: Seq<char>,
    allowance: i64,
    allow_negative: bool,
    purchase: Option<i32>,
    post: TeamLedger,
    r: Result<i64, UpdateBalanceError>,
) -> bool {
    let new_balance = pre.token_balance + amount;
    let effective = new_balance + allowance;
    match r {
        Ok(eff) => {
            &&& !(effective < 0 && !allow_negative)
            &&& (purchase matches Some(p) ==> !ref_used(pre.log@, p))
            &&& eff == effective
            &&& post.team == pre.team
            &&& post.initial_balance == pre.initial_balance
            &&& post.token_balance == new_balance
            &&& post.confirmed
            &&& post.log@.len() == pre.log@.len() + 1
            &&& (forall|i: int| 0 <= i < pre.log@.len() ==> post.log@[i] == pre.log@[i])
            &&& post.log@.last().team == pre.team
            &&& post.log@.last().desp@ == desp
            &&& post.log@.last().amount == amount
            &&& post.log@.last().balance == new_balance
            &&& post.log@.last().allowance == allowance
            &&& post.log@.last().purchase_ref == purchase
        },
        Err(UpdateBalanceError::InsufficientFunds) => {
            &&& effective < 0 && !allow_negative
            &&& post == pre
        },
        Err(UpdateBalanceError::TransactionCancel(b)) => {
            &&& !(effective < 0 && !allow_negative)
            &&& purchase matches Some(p) && ref_used(pre.log@, p)
            &&& b == pre.token_balance + allowance
            &&& post == pre
        },
    }
}

/// Attempts to modify the team's token balance and logs the transaction.
fn modify_team_balance(
    ledger: &mut TeamLedger,
    amount: i64,
    description: &str,
    allowance: i64,
    allow_negative: bool,
    purchase: Option<i32>,
) -> (r: Result<i64, UpdateBalanceError>)
    requires
        i64::MIN <= old(ledger).token_balance + amount <= i64::MAX,
        i64::MIN <= old(ledger).token_balance + amount + allowance <= i64::MAX,
        i64::MIN <= old(ledger).token_balance + allowance <= i64::MAX,
        old(ledger).log@.len() < usize::MAX,
    ensures
        modify_rel(
            *old(ledger),
            amount,
            description@,
            allowance,
            allow_negative,
            purchase,
            *final(ledger),
            r,
        ),
        old(ledger).wf() ==> final(ledger).wf(),
{
    let new_balance = ledger.token_balance + amount;
    if new_balance + allowance < 0 && !allow_negative {
        return Err(UpdateBalanceError::InsufficientFunds);
    }
    if let Some(p) = purchase {
        let n = ledger.log.len();
        for i in 0..n
            invariant
                *ledger == *old(ledger),
                n == ledger.log@.len(),
                i64::MIN <= ledger.token_balance + allowance <= i64::MAX,
                !(ledger.token_balance + amount + allowance < 0 && !allow_negative),
                purchase == Some(p),
                forall|j: int| 0 <= j < i ==> ledger.log@[j].purchase_ref != Some(p),
        {
            if let Some(q) = ledger.log[i].purchase_ref {
                if q == p {
                    proof {
                        assert(0 <= i < ledger.log@.len() && ledger.log@[i as int].purchase_ref
                            == Some(p));
                        assert(ref_used(ledger.log@, p));
                    }
                    return Err(UpdateBalanceError::TransactionCancel(
                        ledger.token_balance + allowance,
                    ));
                }
            }
        }
    }
    let record = TransactionRecord {
        team: ledger.team,
        desp: String::from_str(description),
        amount,
        balance: new_balance,
        allowance,
        purchase_ref: purchase,
    };
    let ghost old_log = ledger.log@;
    ledger.log.push(record);
    proof {
        assert(ledger.log@.drop_last() =~= old_log);
    }
    ledger.token_balance = new_balance;
    ledger.confirmed = true;
    Ok(new_balance + allowance)
}

/// A voluntary purchase: fails with [`UpdateBalanceError::InsufficientFunds`]
/// rather than let the effective balance go negative.
pub fn try_modify_team_balance(
    ledger: &mut TeamLedger,
    amount: i64,
    description: &str,
    allowance: i64,
    purchase: Option<i32>,
) -> (r: Result<i64, UpdateBalanceError>)
    requires
        i64::MIN <= old(ledger).token_balance + amount <= i64::MAX,
        i64::MIN <= old(ledger).token_balance + amount + allowance <= i64::MAX,
        i64::MIN <= old(ledger).token_balance + allowance <= i64::MAX,
        old(ledger).log@.len() < usize::MAX,
    ensures
        modify_rel(
            *old(ledger),
            amount,
            description@,
            allowance,
            false,
            purchase,
            *final(ledger),
            r,
        ),
        old(ledger).wf() ==> final(ledger).wf(),
{
    modify_team_balance(ledger, amount, description, allowance, false, purchase)
}

/// A compulsory mutation (reward or penalty): always applies, even when it
/// forces the effective balance negative.
pub fn compulsory_team_balance(
    ledger: &mut TeamLedger,
    amount: i64,
    description: &str,
    allowance: i64,
) -> (r: Result<i64, UpdateBalanceError>)
    requires
        i64::MIN <= old(ledger).token_balance + amount <= i64::MAX,
        i64::MIN <= old(ledger).token_balance + amount + allowance <= i64::MAX,
        i64::MIN <= old(ledger).token_balance + allowance <= i64::MAX,
        old(ledger).log@.len() < usize::MAX,
    ensures
        modify_rel(
            *old(ledger),
            amount,
            description@,
            allowance,
            true,
            None,
            *final(ledger),
            r,
        ),
        r is Ok,
        old(ledger).wf() ==> final(ledger).wf(),
    {
    modify_team_balance(ledger, amount, description, allowance, true, None)
}

/// The universal time-based allowance: 25 tokens for each minute elapsed
/// since the game epoch, never negative, capped at the integer maximum.
pub open spec fn spec_time_allowance(now_secs: u64, epoch_secs: u64) -> int {
    if now_secs <= epoch_secs {
        0
    } else if (now_secs - epoch_secs) * 25 / 60 > i64::MAX {
        i64::MAX as int
    } else {
        (now_secs - epoch_secs) * 25 / 60
    }
}

/// Computes the allowance from the clock and the game epoch.
pub fn time_allowance(now_secs: u64, epoch_secs: u64) -> (r: i64)
    ensures
        r == spec_time_allowance(now_secs, epoch_secs),
{
    if now_secs <= epoch_secs {
        0
    } else {
        let elapsed: u128 = (now_secs - epoch_secs) as u128;
        let q: u128 = elapsed * 25 / 60;
        if q > i64::MAX as u128 {
            i64::MAX
        } else {
            q as i64
        }
    }
}

/// The allowance never decreases as time advances.
pub proof fn lemma_allowance_monotonic(now1: u64, now2: u64, epoch: u64)
    requires
        now1 <= now2,
    ensures
        spec_time_allowance(now1, epoch) <= spec_time_allowance(now2, epoch),
{
    if epoch < now1 {
        let e1 = (now1 - epoch) as int;
        let e2 = (now2 - epoch) as int;
        assert(e1 * 25 <= e2 * 25) by (nonlinear_arith)
            requires
                e1 <= e2,
        ;
        vstd::arithmetic::div_mod::lemma_div_is_ordered(e1 * 25, e2 * 25, 60);
    } else if epoch < now2 {
        let e2 = (now2 - epoch) as int;
        vstd::arithmetic::div_mod::lemma_div_pos_is_pos(e2 * 25, 60);
    }
}

/// A well-formed ledger's persisted balance is exactly the initial balance
/// plus the sum of every applied signed amount: a fresh read can never
/// disagree with the sequence of successful mutations that produced it.
pub proof fn lemma_balance_is_applied_sum(l: TeamLedger)
    requires
        l.wf(),
    ensures
        l.token_balance == l.initial_balance + sum_amounts(l.log@),
{
}

/// Effective balance after any successful mutation equals the initial
/// balance plus the sum of every applied signed amount plus the current
/// allowance — the number a caller is told is the number a fresh read of
/// the same log would give.
pub proof fn lemma_effective_balance(
    pre: TeamLedger,
    post: TeamLedger,
    amount: i64,
    desp: Seq<char>,
    allowance: i64,
    allow_negative: bool,
    purchase: Option<i32>,
    eff: i64,
)
    requires
        pre.wf(),
        modify_rel(pre, amount, desp, allowance, allow_negative, purchase, post, Ok(eff)),
    ensures
        post.wf(),
        eff == post.token_balance + allowance,
        eff == post.initial_balance + sum_amounts(post.log@) + allowance,
{
    assert(post.log@.drop_last() =~= pre.log@);
}

/// Charging the identical purchase reference twice: the first call charges
/// the real price, the second leaves the ledger untouched and reports a
/// cancelled transaction carrying the post-charge effective balance — the
/// same number the first caller was told.  The final balance reflects
/// exactly one charge.
pub proof fn lemma_duplicate_purchase_idempotent(
    l0: TeamLedger,
    l1: TeamLedger,
    l2: TeamLedger,
    amount: i64,
    desp1: Seq<char>,
    desp2: Seq<char>,
    allowance: i64,
    p: i32,
    r1: Result<i64, UpdateBalanceError>,
    r2: Result<i64, UpdateBalanceError>,
)
    requires
        modify_rel(l0, amount, desp1, allowance, false, Some(p), l1, r1),
        r1 is Ok,
        modify_rel(l1, amount, desp2, allowance, false, Some(p), l2, r2),
        l1.token_balance + amount + allowance >= 0,
    ensures
        r2 == Err::<i64, UpdateBalanceError>(UpdateBalanceError::TransactionCancel(r1->Ok_0)),
        l2 == l1,
        l2.token_balance == l0.token_balance + amount,
{
    assert(l1.log@.last().purchase_ref == Some(p));
    assert(ref_used(l1.log@, p));
}

} // verus!
