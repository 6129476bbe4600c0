//! The wrong-answer penalty state machine.
//!
//! Each (team, puzzle) pair escalates independently: every wrong answer
//! charges a token fine and imposes a time lockout, both read from fixed
//! tables indexed by a per-kind level and clamped to the last table entry.
//! Reaching a new intermediate answer milestone forgives the token level —
//! and only the token level; the time level never resets.
use vstd::prelude::*;

verus! {

/// Timestamp (seconds) used for "no lockout on record": safely in the past.
pub const NEUTRAL_PAST: i64 = 1;

/// Escalating lockout durations in seconds, by time-penalty level.
pub open spec fn time_penalty_at(level: int) -> int {
    if level == 0 {
        10
    } else if level == 1 {
        60
    } else if 2 <= level <= 4 {
        120
    } else if level == 5 {
        240
    } else if 6 <= level <= 9 {
        480
    } else {
        600
    }
}

/// Escalating token fines, by token-penalty level.
pub open spec fn token_penalty_at(level: int) -> int {
    if 0 <= level <= 7 {
        30 + level * 10
    } else if level == 8 {
        200
    } else if level == 9 {
        400
    } else {
        500
    }
}

/// The lockout duration for `level`, clamped to the last table entry.
pub fn time_penalty(level: i32) -> (r: i64)
    ensures
        r == time_penalty_at(level as int),
{
    if level == 0 {
        10
    } else if level == 1 {
        60
    } else if 2 <= level && level <= 4 {
        120
    } else if level == 5 {
        240
    } else if 6 <= level && level <= 9 {
        480
    } else {
        600
    }
}

/// The token fine for `level`, clamped to the last table entry.
pub fn token_penalty(level: i32) -> (r: i64)
    ensures
        r == token_penalty_at(level as int),
{
    if 0 <= level && level <= 7 {
        30 + (level as i64) * 10
    } else if level == 8 {
        200
    } else if level == 9 {
        400
    } else {
        500
    }
}

/// Mathematical model of a penalty state: unbounded integers.
pub struct PenaltyState {
    pub until: int,
    pub token_level: int,
    pub time_level: int,
}

/// Per-(team, puzzle) wrong-answer penalty state, as persisted.
#[derive(Clone, Copy, Debug, PartialEq, Eq, Structural)]
pub struct WaPenalty {
    /// Wrong answers on this puzzle are refused until this time (seconds).
    pub time_penalty_until: i64,
    /// Index into the token-fine table; reset by a new milestone.
    pub token_penalty_level: i32,
    /// Index into the lockout table; never reset.
    pub time_penalty_level: i32,
}

impl View for WaPenalty {
    type V = PenaltyState;

    open spec fn view(&self) -> PenaltyState {
        PenaltyState {
            until: self.time_penalty_until as int,
            token_level: self.token_penalty_level as int,
            time_level: self.time_penalty_level as int,
        }
    }
}

/// One event a penalty state can undergo.
pub enum PenaltyEvent {
    /// A wrong answer submitted at time `now`.
    WrongAnswer { now: int },
    /// A new intermediate answer milestone was reached.
    NewMilestone,
}

/// The transition relation of the penalty state machine.
pub open spec fn apply_event(p: PenaltyState, e: PenaltyEvent) -> PenaltyState {
    match e {
        PenaltyEvent::WrongAnswer { now } => PenaltyState {
            until: now + time_penalty_at(p.time_level),
            token_level: p.token_level + 1,
            time_level: p.time_level + 1,
        },
        PenaltyEvent::NewMilestone => PenaltyState { token_level: 0, ..p },
    }
}

/// The state after a whole sequence of events.
pub open spec fn apply_events(p: PenaltyState, events: Seq<PenaltyEvent>) -> PenaltyState
    decreases events.len(),
{
    if events.len() == 0 {
        p
    } else {
        apply_event(apply_events(p, events.drop_last()), events.last())
    }
}

impl WaPenalty {
    /// The zero state a pair starts from: no lockout, both levels zero.
    pub fn new() -> (r: Self)
        ensures
            r@ == (PenaltyState { until: NEUTRAL_PAST as int, token_level: 0, time_level: 0 }),
    {
        WaPenalty { time_penalty_until: NEUTRAL_PAST, token_penalty_level: 0, time_penalty_level: 0 }
    }

    /// Registers a wrong answer at time `now`: returns the token fine owed,
    /// starts the new lockout, and escalates both levels.
    pub fn on_wrong_answer(&mut self, now: i64) -> (fine: i64)
        requires
            old(self).token_penalty_level < i32::MAX,
            old(self).time_penalty_level < i32::MAX,
            now + 600 <= i64::MAX,
        ensures
            fine == token_penalty_at(old(self)@.token_level),
            fine >= 0,
            final(self)@ == apply_event(old(self)@, PenaltyEvent::WrongAnswer { now: now as int }),
    {
        let time_pen = time_penalty(self.time_penalty_level);
        let token_pen = token_penalty(self.token_penalty_level);
        self.token_penalty_level = self.token_penalty_level + 1;
        self.time_penalty_level = self.time_penalty_level + 1;
        self.time_penalty_until = now + time_pen;
        token_pen
    }

    /// Forgives the token escalation after a new milestone; the time level
    /// and the running lockout are kept.
    pub fn on_new_mid_answer(self) -> (r: Self)
        ensures
            r@ == apply_event(self@, PenaltyEvent::NewMilestone),
    {
        WaPenalty { token_penalty_level: 0, ..self }
    }
}

impl Default for WaPenalty {
    fn default() -> (r: Self)
        ensures
            r@ == (PenaltyState { until: NEUTRAL_PAST as int, token_level: 0, time_level: 0 }),
    {
        WaPenalty::new()
    }
}

/// Returns the timestamp to wait for while it is still in the future.
pub fn check_is_after(to_check: i64, now: i64) -> (r: Option<i64>)
    ensures
        r == if now <= to_check {
            Some(to_check)
        } else {
            None::<i64>
        },
{
    if now <= to_check {
        Some(to_check)
    } else {
        None
    }
}

/// Every token fine lies between the first and the last table entry,
/// whatever the level.
pub proof fn lemma_token_penalty_bounds(level: int)
    ensures
        30 <= token_penalty_at(level) <= 500,
{
}

/// Both penalty levels are monotonically non-decreasing across wrong
/// answers, whatever states they are applied to: a wrong answer strictly
/// escalates each level, and a milestone never touches the time level.
pub proof fn lemma_event_levels(p: PenaltyState, e: PenaltyEvent)
    ensures
        apply_event(p, e).time_level >= p.time_level,
        e is WrongAnswer ==> apply_event(p, e).time_level == p.time_level + 1 && apply_event(
            p,
            e,
        ).token_level == p.token_level + 1,
        e is NewMilestone ==> apply_event(p, e).token_level == 0 && apply_event(p, e).time_level
            == p.time_level && apply_event(p, e).until == p.until,
{
}

/// Across any sequence of events the time-penalty level never decreases:
/// milestones leave it alone and wrong answers raise it.
pub proof fn lemma_time_level_monotonic(p: PenaltyState, events: Seq<PenaltyEvent>)
    ensures
        apply_events(p, events).time_level >= p.time_level,
    decreases events.len(),
{
    if events.len() > 0 {
        lemma_time_level_monotonic(p, events.drop_last());
        lemma_event_levels(apply_events(p, events.drop_last()), events.last());
    }
}

/// The token level resets exactly at milestones and never otherwise
/// decreases: across a sequence without milestones it grows by exactly the
/// number of wrong answers.
pub proof fn lemma_token_level_without_milestone(p: PenaltyState, events: Seq<PenaltyEvent>)
    requires
        forall|i: int| 0 <= i < events.len() ==> events[i] is WrongAnswer,
    ensures
        apply_events(p, events).token_level == p.token_level + events.len(),
    decreases events.len(),
{
    if events.len() > 0 {
        lemma_token_level_without_milestone(p, events.drop_last());
    }
}

} // verus!
