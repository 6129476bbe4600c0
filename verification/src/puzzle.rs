//! Puzzle resolution: the in-memory form of one puzzle's accepted and
//! alternate answers, and the pure decision over a submitted answer hash.
//!
//! A submission is checked against hashes, never plaintext: the accepted map
//! goes from answer hash to the unlock depth it proves (0 = terminal), the
//! alternate map from hash to an informational "toast" text that is not
//! counted as a wrong answer.
use vstd::prelude::*;

verus! {

/// The base row of a puzzle.
pub struct PuzzleBase {
    /// Whether this is a meta puzzle.
    pub meta: bool,
    /// Base token reward for fully solving it.
    pub bounty: i32,
    pub title: String,
    /// The decipher chain gating this puzzle.
    pub decipher: i32,
    /// Number of unlock levels in that chain.
    pub depth: i32,
}

/// One resolved puzzle: built once per cache miss, immutable thereafter.
pub struct Puzzle {
    pub base: PuzzleBase,
    /// Accepted answers: hash and the depth it proves (0 = fully solved).
    pub answers: Vec<(String, i32)>,
    /// Alternate answers: hash and the toast text to show for it.
    pub other_answers: Vec<(String, String)>,
}

/// What checking one submission yields.
pub enum CheckAnswerResult {
    /// An accepted answer: depth `level` of `total`, rewarded only when
    /// terminal.
    Accepted { reward_tokens: i64, level: i32, total: i32 },
    /// A genuine wrong answer, to be penalized.
    WrongAnswer,
    /// An informational rejection, not counted as wrong.
    Toast(String),
}

/// The depth recorded for `s` in the accepted-answer list, first match.
pub open spec fn answer_lookup(answers: Seq<(String, i32)>, s: Seq<char>) -> Option<i32>
    decreases answers.len(),
{
    if answers.len() == 0 {
        None
    } else if answers[0].0@ == s {
        Some(answers[0].1)
    } else {
        answer_lookup(answers.drop_first(), s)
    }
}

/// The toast recorded for `s` in the alternate-answer list, first match.
pub open spec fn toast_lookup(others: Seq<(String, String)>, s: Seq<char>) -> Option<Seq<char>>
    decreases others.len(),
{
    if others.len() == 0 {
        None
    } else if others[0].0@ == s {
        Some(others[0].1@)
    } else {
        toast_lookup(others.drop_first(), s)
    }
}

impl Puzzle {
    /// Assembles a resolved puzzle from its backing rows.
    pub fn new(base: PuzzleBase, answers: Vec<(String, i32)>, other_answers: Vec<(String, String)>) -> (r: Self)
        ensures
            r.base == base,
            r.answers == answers,
            r.other_answers == other_answers,
    {
        Puzzle { base, answers, other_answers }
    }

    /// Decides what a submitted answer hash means for this puzzle.
    ///
    /// `final_reward` is the token reward a terminal accept pays out at the
    /// current time; intermediate accepts pay nothing.  Alternate answers
    /// win over accepted ones, as toast hashes are expected to be disjoint.
    pub fn check(&self, submission: &str, final_reward: i64) -> (r: CheckAnswerResult)
        ensures
            match r {
                CheckAnswerResult::Toast(t) => toast_lookup(self.other_answers@, submission@)
                    == Some(t@),
                CheckAnswerResult::Accepted { reward_tokens, level, total } => {
                    &&& toast_lookup(self.other_answers@, submission@) is None
                    &&& answer_lookup(self.answers@, submission@) == Some(level)
                    &&& total == self.base.depth
                    &&& reward_tokens == if level == 0 {
                        final_reward
                    } else {
                        0
                    }
                },
                CheckAnswerResult::WrongAnswer => {
                    &&& toast_lookup(self.other_answers@, submission@) is None
                    &&& answer_lookup(self.answers@, submission@) is None
                },
            },
    {
        let sub: String = submission.to_owned();
        proof {
            assert(self.other_answers@.skip(0) =~= self.other_answers@);
            assert(self.answers@.skip(0) =~= self.answers@);
        }
        let n = self.other_answers.len();
        for i in 0..n
            invariant
                sub@ == submission@,
                n == self.other_answers@.len(),
                toast_lookup(self.other_answers@, submission@) == toast_lookup(
                    self.other_answers@.skip(i as int),
                    submission@,
                ),
                forall|j: int| 0 <= j < i ==> self.other_answers@[j].0@ != submission@,
        {
            proof {
                assert(self.other_answers@.skip(i as int).drop_first() =~= self.other_answers@.skip(
                    i + 1,
                ));
            }
            if self.other_answers[i].0.eq(&sub) {
                return CheckAnswerResult::Toast(self.other_answers[i].1.clone());
            }
        }
        let m = self.answers.len();
        for i in 0..m
            invariant
                sub@ == submission@,
                m == self.answers@.len(),
                toast_lookup(self.other_answers@, submission@) is None,
                answer_lookup(self.answers@, submission@) == answer_lookup(
                    self.answers@.skip(i as int),
                    submission@,
                ),
                forall|j: int| 0 <= j < i ==> self.answers@[j].0@ != submission@,
        {
            proof {
                assert(self.answers@.skip(i as int).drop_first() =~= self.answers@.skip(i + 1));
            }
            if self.answers[i].0.eq(&sub) {
                let level = self.answers[i].1;
                if level == 0 {
                    return CheckAnswerResult::Accepted {
                        reward_tokens: final_reward,
                        level: 0,
                        total: self.base.depth,
                    };
                } else {
                    return CheckAnswerResult::Accepted {
                        reward_tokens: 0,
                        level,
                        total: self.base.depth,
                    };
                }
            }
        }
        CheckAnswerResult::WrongAnswer
    }
}

} // verus!
