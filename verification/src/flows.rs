//! The decision cores of the unlock and answer-submission requests.
//!
//! Each function here is the inside of one store transaction: it takes the
//! rows the caller read, applies the ledger and penalty rules, and returns
//! the response together with the rows to persist.  The caller performs the
//! reads and writes around it and supplies the priced amounts, since
//! pricing follows floating-point schedules computed outside the core.
use vstd::prelude::*;
use crate::economy::{
    compulsory_team_balance, modify_rel, ref_used, try_modify_team_balance, TeamLedger,
    UpdateBalanceError,
};
use crate::models::{decipher_key_spec, Decipher};
use crate::penalty::{
    apply_event, time_penalty_at, token_penalty_at, PenaltyEvent, PenaltyState, WaPenalty,
};
use crate::puzzle::CheckAnswerResult;

verus! {

/// What `/decipher_key` answers: the key when the chain is unlocked, the
/// current price when it is not.
pub enum DecipherKeyResponse {
    Success(String),
    Price(i64),
}

/// What `/unlock` answers.
pub enum UnlockResponse {
    Success { key: String, price: i64, new_balance: i64 },
    AlreadyUnlocked(String),
}

/// What `/submit_answer` answers.
pub enum SubmitAnswerResponse {
    HasSubmitted,
    Success { puzzle_id: i32, award_token: i64, new_balance: i64, key: String },
    TryAgainAfter(i64),
    WrongAnswer { penalty_token: i64, try_again_after: i64, new_balance: i64 },
    PleaseToast(String),
}

/// The rows an accepted submission asks the caller to persist.
pub struct SubmitEffects {
    /// The penalty row to upsert, if a milestone forgave the token level.
    pub penalty_write: Option<WaPenalty>,
    /// The unlock level to write through, if the submission deepened it.
    pub unlock_write: Option<i32>,
}

/// The level a paid unlock establishes: one short of the chain's depth,
/// never negative.
pub fn unlock_level(depth: i32) -> (r: i32)
    ensures
        r == if depth >= 1 {
            depth - 1
        } else {
            0
        },
        r >= 0,
{
    if depth >= 1 {
        depth - 1
    } else {
        0
    }
}

/// Decides the `/decipher_key` answer from the cached unlock level: an
/// unlocked chain shows its key at that level, a locked one its price.
pub fn decipher_key_response(decipher: &Decipher, level: Option<i32>, price: i64) -> (r:
    DecipherKeyResponse)
    requires
        level matches Some(l) ==> l >= 0,
    ensures
        match r {
            DecipherKeyResponse::Success(key) => level matches Some(l) && key@
                == decipher_key_spec(*decipher, l as int),
            DecipherKeyResponse::Price(p) => level is None && p == price,
        },
{
    match level {
        Some(l) => DecipherKeyResponse::Success(decipher.get_key(l)),
        None => DecipherKeyResponse::Price(price),
    }
}

/// The ledger side of `/unlock`: charges the price once per decipher.
///
/// The decipher id doubles as the purchase reference, so a second charge —
/// however the requests raced — is reported as already unlocked, with the
/// same key and no second debit.  A voluntary charge the effective balance
/// cannot cover fails with [`UpdateBalanceError::InsufficientFunds`] and
/// leaves the ledger untouched.
pub fn unlock_txn(
    ledger: &mut TeamLedger,
    decipher_id: i32,
    price: i64,
    key: String,
    allowance: i64,
    description: &str,
) -> (r: Result<UnlockResponse, UpdateBalanceError>)
    requires
        0 <= price,
        i64::MIN <= old(ledger).token_balance - price,
        i64::MIN <= old(ledger).token_balance - price + allowance,
        old(ledger).token_balance + allowance <= i64::MAX,
        old(ledger).log@.len() < usize::MAX,
    ensures
        match r {
            Ok(UnlockResponse::Success { key: k, price: p, new_balance }) => {
                &&& k@ == key@
                &&& p == price
                &&& modify_rel(
                    *old(ledger),
                    (0 - price) as i64,
                    description@,
                    allowance,
                    false,
                    Some(decipher_id),
                    *final(ledger),
                    Ok(new_balance),
                )
            },
            Ok(UnlockResponse::AlreadyUnlocked(k)) => {
                &&& k@ == key@
                &&& ref_used(old(ledger).log@, decipher_id)
                &&& *final(ledger) == *old(ledger)
                &&& !(old(ledger).token_balance - price + allowance < 0)
            },
            Err(UpdateBalanceError::InsufficientFunds) => {
                &&& *final(ledger) == *old(ledger)
                &&& old(ledger).token_balance - price + allowance < 0
            },
            Err(UpdateBalanceError::TransactionCancel(_)) => false,
        },
        old(ledger).wf() ==> final(ledger).wf(),
{
    let result = try_modify_team_balance(
        ledger,
        0 - price,
        description,
        allowance,
        Some(decipher_id),
    );
    match result {
        Ok(new_balance) => Ok(UnlockResponse::Success { key, price, new_balance }),
        Err(UpdateBalanceError::TransactionCancel(_)) => Ok(UnlockResponse::AlreadyUnlocked(key)),
        Err(e) => Err(e),
    }
}

/// The transaction core of an accepted submission.
///
/// `submission_inserted` reports whether the submission row was new; a
/// conflict means this depth was already submitted and nothing further
/// happens.  Otherwise the reward is credited compulsorily, a deeper level
/// forgives the token-penalty escalation (`penalty_row` is that pair's
/// current row), the unlock level is deepened monotonically — never
/// raised — and the key for the reached level is answered.
pub fn submit_accepted_txn(
    puzzle_id: i32,
    reward_tokens: i64,
    level: i32,
    old_level: i32,
    decipher: &Decipher,
    submission_inserted: bool,
    penalty_row: Option<WaPenalty>,
    ledger: &mut TeamLedger,
    allowance: i64,
    description: &str,
) -> (r: (SubmitAnswerResponse, SubmitEffects))
    requires
        0 <= level,
        0 <= old_level,
        i64::MIN <= old(ledger).token_balance + reward_tokens <= i64::MAX,
        i64::MIN <= old(ledger).token_balance + reward_tokens + allowance <= i64::MAX,
        i64::MIN <= old(ledger).token_balance + allowance <= i64::MAX,
        old(ledger).log@.len() < usize::MAX,
    ensures
        !submission_inserted ==> {
            &&& r.0 is HasSubmitted
            &&& r.1.penalty_write is None
            &&& r.1.unlock_write is None
            &&& *final(ledger) == *old(ledger)
        },
        submission_inserted ==> {
            let new_level = if level < old_level {
                level
            } else {
                old_level
            };
            &&& r.0 matches SubmitAnswerResponse::Success {
                puzzle_id: p,
                award_token,
                new_balance,
                key,
            } && {
                &&& p == puzzle_id
                &&& award_token == reward_tokens
                &&& modify_rel(
                    *old(ledger),
                    reward_tokens,
                    description@,
                    allowance,
                    true,
                    None,
                    *final(ledger),
                    Ok(new_balance),
                )
                &&& key@ == decipher_key_spec(*decipher, new_level as int)
            }
            &&& r.1.unlock_write == Some(new_level)
            &&& if level < old_level {
                r.1.penalty_write matches Some(w) && w@ == (match penalty_row {
                    Some(p) => apply_event(p@, PenaltyEvent::NewMilestone),
                    None => PenaltyState {
                        until: crate::penalty::NEUTRAL_PAST as int,
                        token_level: 0,
                        time_level: 0,
                    },
                })
            } else {
                r.1.penalty_write is None
            }
        },
{
    if !submission_inserted {
        return (
            SubmitAnswerResponse::HasSubmitted,
            SubmitEffects { penalty_write: None, unlock_write: None },
        );
    }
    let new_balance = match compulsory_team_balance(ledger, reward_tokens, description, allowance) {
        Ok(b) => b,
        Err(_) => {
            proof {
                assert(false);
            }
            0
        },
    };
    let penalty_write = if level < old_level {
        let new_penalty = match penalty_row {
            Some(p) => p.on_new_mid_answer(),
            None => WaPenalty::new(),
        };
        Some(new_penalty)
    } else {
        None
    };
    let new_level = if level < old_level {
        level
    } else {
        old_level
    };
    let key = decipher.get_key(new_level);
    (
        SubmitAnswerResponse::Success {
            puzzle_id,
            award_token: reward_tokens,
            new_balance,
            key,
        },
        SubmitEffects { penalty_write, unlock_write: Some(new_level) },
    )
}

/// The transaction core of a wrong answer: escalates the pair's penalty
/// state, charges the token fine compulsorily, and answers the fine, the
/// lockout end and the new effective balance.  The caller persists the
/// returned penalty row.
pub fn submit_wrong_answer_txn(
    penalty_row: Option<WaPenalty>,
    ledger: &mut TeamLedger,
    allowance: i64,
    now: i64,
    description: &str,
) -> (r: (SubmitAnswerResponse, WaPenalty))
    requires
        penalty_row matches Some(p) ==> p.token_penalty_level < i32::MAX
            && p.time_penalty_level < i32::MAX,
        now + 600 <= i64::MAX,
        i64::MIN + 500 <= old(ledger).token_balance,
        i64::MIN <= old(ledger).token_balance - 500 + allowance,
        old(ledger).token_balance + allowance <= i64::MAX,
        old(ledger).log@.len() < usize::MAX,
    ensures
        ({
            let before = match penalty_row {
                Some(p) => p@,
                None => PenaltyState {
                    until: crate::penalty::NEUTRAL_PAST as int,
                    token_level: 0,
                    time_level: 0,
                },
            };
            let fine = token_penalty_at(before.token_level);
            &&& r.1@ == apply_event(before, PenaltyEvent::WrongAnswer { now: now as int })
            &&& r.0 matches SubmitAnswerResponse::WrongAnswer {
                penalty_token,
                try_again_after,
                new_balance,
            } && {
                &&& penalty_token == fine
                &&& try_again_after == now + time_penalty_at(before.time_level)
                &&& modify_rel(
                    *old(ledger),
                    (0 - fine) as i64,
                    description@,
                    allowance,
                    true,
                    None,
                    *final(ledger),
                    Ok(new_balance),
                )
            }
        }),
        old(ledger).wf() ==> final(ledger).wf(),
{
    let mut penalty = match penalty_row {
        Some(p) => p,
        None => WaPenalty::new(),
    };
    proof {
        crate::penalty::lemma_token_penalty_bounds(penalty@.token_level);
    }
    let fine = penalty.on_wrong_answer(now);
    let new_balance = match compulsory_team_balance(ledger, 0 - fine, description, allowance) {
        Ok(b) => b,
        Err(_) => {
            proof {
                assert(false);
            }
            0
        },
    };
    (
        SubmitAnswerResponse::WrongAnswer {
            penalty_token: fine,
            try_again_after: penalty.time_penalty_until,
            new_balance,
        },
        penalty,
    )
}

/// What a checked submission means before any store write: a toast is
/// answered at once, everything else needs its transaction.
pub fn toast_response(check_result: &CheckAnswerResult) -> (r: Option<SubmitAnswerResponse>)
    ensures
        match r {
            Some(resp) => resp matches SubmitAnswerResponse::PleaseToast(t) && check_result matches
                CheckAnswerResult::Toast(t2) && t@ == t2@,
            None => !(check_result is Toast),
        },
{
    match check_result {
        CheckAnswerResult::Toast(t) => Some(SubmitAnswerResponse::PleaseToast(t.clone())),
        _ => None,
    }
}

} // verus!
