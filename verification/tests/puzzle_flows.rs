use server::economy::{TeamLedger, UpdateBalanceError};
use server::flows::{
    decipher_key_response, submit_accepted_txn, submit_wrong_answer_txn, toast_response,
    unlock_level, unlock_txn, DecipherKeyResponse, SubmitAnswerResponse, UnlockResponse,
};
use server::models::{Decipher, Team};
use server::penalty::WaPenalty;
use server::puzzle::{CheckAnswerResult, Puzzle, PuzzleBase};
use server::stat::{status_items, CountItem, PuzzleStatistic};
use server::team::{
    exit_team_decision, join_team_decision, new_team_salt, user_privilege_check, ExitTeamResponse,
    JoinTeamResponse, PrivilegeError, PRIVILEGE_MINIMAL, PRIVILEGE_STAFF,
};

fn sample_puzzle() -> Puzzle {
    Puzzle::new(
        PuzzleBase {
            meta: false,
            bounty: 100,
            title: String::from("sample"),
            decipher: 5,
            depth: 3,
        },
        vec![(String::from("final_hash"), 0), (String::from("mid_hash"), 1)],
        vec![(String::from("toast_hash"), String::from("warmer!"))],
    )
}

#[test]
fn check_classifies_submissions() {
    let p = sample_puzzle();
    match p.check("final_hash", 250) {
        CheckAnswerResult::Accepted { reward_tokens, level, total } => {
            assert_eq!(reward_tokens, 250);
            assert_eq!(level, 0);
            assert_eq!(total, 3);
        },
        _ => panic!("expected terminal accept"),
    }
    match p.check("mid_hash", 250) {
        CheckAnswerResult::Accepted { reward_tokens, level, total } => {
            assert_eq!(reward_tokens, 0);
            assert_eq!(level, 1);
            assert_eq!(total, 3);
        },
        _ => panic!("expected milestone accept"),
    }
    match p.check("toast_hash", 250) {
        CheckAnswerResult::Toast(msg) => assert_eq!(msg, "warmer!"),
        _ => panic!("expected toast"),
    }
    assert!(matches!(p.check("garbage", 250), CheckAnswerResult::WrongAnswer));
    assert!(matches!(p.check("", 250), CheckAnswerResult::WrongAnswer));
}

fn sample_decipher() -> Decipher {
    Decipher { pricing_type: 0, base_price: 10, depth: 3, root: String::from("root") }
}

#[test]
fn unlock_level_is_depth_minus_one_clamped() {
    assert_eq!(unlock_level(3), 2);
    assert_eq!(unlock_level(1), 0);
    assert_eq!(unlock_level(0), 0);
    assert_eq!(unlock_level(-4), 0);
}

#[test]
fn decipher_key_response_shows_key_or_price() {
    let d = sample_decipher();
    match decipher_key_response(&d, Some(0), 99) {
        DecipherKeyResponse::Success(key) => assert_eq!(key, "root"),
        _ => panic!("expected key"),
    }
    match decipher_key_response(&d, None, 99) {
        DecipherKeyResponse::Price(p) => assert_eq!(p, 99),
        _ => panic!("expected price"),
    }
}

#[test]
fn unlock_txn_charges_once_per_decipher() {
    let mut l = TeamLedger::new(1, 100);
    let key = String::from("the-key");
    match unlock_txn(&mut l, 5, 30, key.clone(), 0, "Purchasing decipher_key 5") {
        Ok(UnlockResponse::Success { key: k, price, new_balance }) => {
            assert_eq!(k, "the-key");
            assert_eq!(price, 30);
            assert_eq!(new_balance, 70);
        },
        other => panic!("expected success, got {:?}", debug_name(&other)),
    }
    // The retry pays nothing and is told the chain is already unlocked.
    match unlock_txn(&mut l, 5, 30, key, 0, "Purchasing decipher_key 5") {
        Ok(UnlockResponse::AlreadyUnlocked(k)) => assert_eq!(k, "the-key"),
        other => panic!("expected already unlocked, got {:?}", debug_name(&other)),
    }
    assert_eq!(l.token_balance, 70);
    assert_eq!(l.log.len(), 1);
}

fn debug_name(r: &Result<UnlockResponse, UpdateBalanceError>) -> &'static str {
    match r {
        Ok(UnlockResponse::Success { .. }) => "Success",
        Ok(UnlockResponse::AlreadyUnlocked(_)) => "AlreadyUnlocked",
        Err(UpdateBalanceError::InsufficientFunds) => "InsufficientFunds",
        Err(UpdateBalanceError::TransactionCancel(_)) => "TransactionCancel",
    }
}

#[test]
fn unlock_txn_refuses_unaffordable_price() {
    let mut l = TeamLedger::new(1, 10);
    let r = unlock_txn(&mut l, 5, 30, String::from("k"), 0, "unlock");
    assert!(matches!(r, Err(UpdateBalanceError::InsufficientFunds)));
    assert_eq!(l.token_balance, 10);
}

#[test]
fn accepted_submission_rewards_and_deepens_unlock() {
    let mut l = TeamLedger::new(1, 0);
    let d = sample_decipher();
    let (resp, effects) =
        submit_accepted_txn(9, 250, 0, 2, &d, true, None, &mut l, 50, "Reward for puzzle 9, 3 / 3");
    match resp {
        SubmitAnswerResponse::Success { puzzle_id, award_token, new_balance, key } => {
            assert_eq!(puzzle_id, 9);
            assert_eq!(award_token, 250);
            assert_eq!(new_balance, 300);
            assert_eq!(key, "root");
        },
        _ => panic!("expected success"),
    }
    assert_eq!(effects.unlock_write, Some(0));
    // Reaching a deeper level for the first time forgives the token fines.
    let w = effects.penalty_write.expect("milestone resets the penalty row");
    assert_eq!(w.token_penalty_level, 0);
    assert_eq!(l.token_balance, 250);
}

#[test]
fn milestone_keeps_time_level_when_resetting() {
    let mut l = TeamLedger::new(1, 0);
    let d = sample_decipher();
    let mut row = WaPenalty::new();
    row.on_wrong_answer(1000);
    row.on_wrong_answer(2000);
    let (_, effects) =
        submit_accepted_txn(9, 0, 1, 2, &d, true, Some(row), &mut l, 0, "Reward for puzzle 9, 2 / 3");
    let w = effects.penalty_write.expect("reset row");
    assert_eq!(w.token_penalty_level, 0);
    assert_eq!(w.time_penalty_level, 2);
    assert_eq!(w.time_penalty_until, row.time_penalty_until);
}

#[test]
fn shallower_accept_changes_no_unlock_state() {
    let mut l = TeamLedger::new(1, 0);
    let d = sample_decipher();
    let (_, effects) =
        submit_accepted_txn(9, 0, 2, 1, &d, true, None, &mut l, 0, "Reward for puzzle 9, 1 / 3");
    // The unlock level never goes back up: it stays at the older, deeper 1.
    assert_eq!(effects.unlock_write, Some(1));
    assert!(effects.penalty_write.is_none());
}

#[test]
fn repeated_submission_is_reported_and_free() {
    let mut l = TeamLedger::new(1, 77);
    let d = sample_decipher();
    let (resp, effects) =
        submit_accepted_txn(9, 250, 0, 2, &d, false, None, &mut l, 0, "Reward for puzzle 9, 3 / 3");
    assert!(matches!(resp, SubmitAnswerResponse::HasSubmitted));
    assert!(effects.penalty_write.is_none());
    assert!(effects.unlock_write.is_none());
    assert_eq!(l.token_balance, 77);
    assert_eq!(l.log.len(), 0);
}

#[test]
fn wrong_answer_fines_and_locks_out() {
    let mut l = TeamLedger::new(1, 0);
    let (resp, row) = submit_wrong_answer_txn(None, &mut l, 50, 10_000, "Wrong answer penalty puzzle 9");
    match resp {
        SubmitAnswerResponse::WrongAnswer { penalty_token, try_again_after, new_balance } => {
            assert_eq!(penalty_token, 30);
            assert_eq!(try_again_after, 10_010);
            assert_eq!(new_balance, 20);
        },
        _ => panic!("expected wrong answer"),
    }
    assert_eq!(row.token_penalty_level, 1);
    assert_eq!(row.time_penalty_level, 1);
    assert_eq!(l.token_balance, -30);

    // The second wrong answer escalates, even past a negative balance.
    let (resp2, row2) =
        submit_wrong_answer_txn(Some(row), &mut l, 50, 20_000, "Wrong answer penalty puzzle 9");
    match resp2 {
        SubmitAnswerResponse::WrongAnswer { penalty_token, try_again_after, new_balance } => {
            assert_eq!(penalty_token, 40);
            assert_eq!(try_again_after, 20_060);
            assert_eq!(new_balance, -20);
        },
        _ => panic!("expected wrong answer"),
    }
    assert_eq!(row2.token_penalty_level, 2);
}

#[test]
fn toast_answers_without_a_transaction() {
    let toast = CheckAnswerResult::Toast(String::from("warmer!"));
    match toast_response(&toast) {
        Some(SubmitAnswerResponse::PleaseToast(msg)) => assert_eq!(msg, "warmer!"),
        _ => panic!("expected toast response"),
    }
    assert!(toast_response(&CheckAnswerResult::WrongAnswer).is_none());
}

#[test]
fn status_items_project_the_aggregate() {
    let stat = PuzzleStatistic {
        data: vec![
            CountItem { puzzle_id: 1, decipher: 4, teams_passed: 7, teams_unlocked: 9 },
            CountItem { puzzle_id: 2, decipher: 5, teams_passed: 0, teams_unlocked: 3 },
        ],
        time: 5000,
    };
    let items = status_items(&stat);
    assert_eq!(items.len(), 2);
    assert_eq!(items[0].puzzle_id, 1);
    assert_eq!(items[0].passed, 7);
    assert_eq!(items[0].unlocked, 9);
    assert_eq!(items[1].puzzle_id, 2);
    assert_eq!(items[1].passed, 0);
    assert_eq!(items[1].unlocked, 3);
}

fn team_row(size: i32, max_size: i32, is_staff: bool, confirmed: bool) -> Team {
    Team {
        id: 8,
        is_staff,
        token_balance: 0,
        confirmed,
        max_size,
        size,
        salt: String::from("s"),
    }
}

#[test]
fn join_team_requires_room_code_and_rank() {
    let team = team_row(2, 4, false, true);
    let (r, w) = join_team_decision(3, None, PRIVILEGE_MINIMAL, 8, Some(&team), true);
    assert!(matches!(r, JoinTeamResponse::Success { id: 8 }));
    let w = w.expect("join writes");
    assert_eq!(w.user_team, Some(8));
    assert_eq!(w.new_size, 3);

    let (r, w) = join_team_decision(3, Some(5), PRIVILEGE_MINIMAL, 8, Some(&team), true);
    assert!(matches!(r, JoinTeamResponse::AlreadyInTeam) && w.is_none());

    let full = team_row(4, 4, false, true);
    let (r, w) = join_team_decision(3, None, PRIVILEGE_MINIMAL, 8, Some(&full), true);
    assert!(matches!(r, JoinTeamResponse::TeamFull) && w.is_none());

    let staff = team_row(1, 4, true, true);
    let (r, w) = join_team_decision(3, None, PRIVILEGE_MINIMAL, 8, Some(&staff), true);
    assert!(matches!(r, JoinTeamResponse::AuthError) && w.is_none());
    let (r, w) = join_team_decision(3, None, PRIVILEGE_STAFF, 8, Some(&staff), true);
    assert!(matches!(r, JoinTeamResponse::Success { .. }) && w.is_some());

    let (r, w) = join_team_decision(3, None, PRIVILEGE_MINIMAL, 8, Some(&team), false);
    assert!(matches!(r, JoinTeamResponse::AuthError) && w.is_none());
    let (r, w) = join_team_decision(3, None, PRIVILEGE_MINIMAL, 8, None, true);
    assert!(matches!(r, JoinTeamResponse::AuthError) && w.is_none());
}

#[test]
fn exit_team_only_before_confirmation() {
    let unconfirmed = team_row(2, 4, false, false);
    let (r, w) = exit_team_decision(3, Some(&unconfirmed));
    assert!(matches!(r, ExitTeamResponse::Success { id: 8 }));
    let w = w.expect("exit writes");
    assert_eq!(w.user_team, None);
    assert_eq!(w.new_size, 1);

    let confirmed = team_row(2, 4, false, true);
    let (r, w) = exit_team_decision(3, Some(&confirmed));
    assert!(matches!(r, ExitTeamResponse::NotAllowed) && w.is_none());

    let (r, w) = exit_team_decision(3, None);
    assert!(matches!(r, ExitTeamResponse::NotInTeam) && w.is_none());
}

#[test]
fn privilege_gate_requires_login_and_rank() {
    assert_eq!(user_privilege_check(Some(4), Some(2), 2), Ok((4, 2)));
    assert_eq!(user_privilege_check(Some(4), Some(3), 2), Ok((4, 3)));
    assert!(matches!(
        user_privilege_check(Some(4), Some(1), 2),
        Err(PrivilegeError::Unauthorized)
    ));
    assert!(matches!(user_privilege_check(None, Some(4), 0), Err(PrivilegeError::NotLogin)));
    assert!(matches!(user_privilege_check(Some(4), None, 0), Err(PrivilegeError::NotLogin)));
}

#[test]
fn new_team_salts_are_hex_and_distinct() {
    let a = new_team_salt();
    let b = new_team_salt();
    assert_eq!(a.len(), 64);
    assert!(a.chars().all(|c| c.is_ascii_hexdigit()));
    assert_ne!(a, b);
}
