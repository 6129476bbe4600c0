//! The aggregate per-puzzle statistic and its presentation rows.
//!
//! The aggregation itself is one query against the backing store; this
//! module holds its result and the verified projection into response rows.
use vstd::prelude::*;

verus! {

/// One row of the aggregate: how many teams passed and unlocked a puzzle.
pub struct CountItem {
    pub puzzle_id: i32,
    pub decipher: i32,
    pub teams_passed: i64,
    pub teams_unlocked: i64,
}

/// The whole aggregate, stamped with the time it was computed (seconds).
pub struct PuzzleStatistic {
    pub data: Vec<CountItem>,
    pub time: i64,
}

/// A team's standing on one puzzle.
pub enum PuzzleStatus {
    Passed,
    Unlocked,
    Locked,
}

/// One row of the public puzzle-status listing.
pub struct PuzzleStatusItem {
    pub puzzle_id: i32,
    pub passed: usize,
    pub unlocked: usize,
}

/// Projects the aggregate into the public listing, row for row.
pub fn status_items(stat: &PuzzleStatistic) -> (r: Vec<PuzzleStatusItem>)
    requires
        forall|i: int|
            0 <= i < stat.data@.len() ==> 0 <= #[trigger] stat.data@[i].teams_passed
                <= usize::MAX && 0 <= stat.data@[i].teams_unlocked <= usize::MAX,
    ensures
        r@.len() == stat.data@.len(),
        forall|i: int|
            0 <= i < r@.len() ==> {
                &&& #[trigger] r@[i].puzzle_id == stat.data@[i].puzzle_id
                &&& r@[i].passed == stat.data@[i].teams_passed
                &&& r@[i].unlocked == stat.data@[i].teams_unlocked
            },
{
    let mut out: Vec<PuzzleStatusItem> = Vec::new();
    let n = stat.data.len();
    let mut i: usize = 0;
    while i < n
        invariant
            i <= n,
            n == stat.data@.len(),
            out@.len() == i,
            forall|j: int|
                0 <= j < n ==> 0 <= #[trigger] stat.data@[j].teams_passed <= usize::MAX && 0
                    <= stat.data@[j].teams_unlocked <= usize::MAX,
            forall|j: int|
                0 <= j < i ==> {
                    &&& #[trigger] out@[j].puzzle_id == stat.data@[j].puzzle_id
                    &&& out@[j].passed == stat.data@[j].teams_passed
                    &&& out@[j].unlocked == stat.data@[j].teams_unlocked
                },
        decreases n - i,
    {
        let row = &stat.data[i];
        proof {
            assert(0 <= row.teams_passed <= usize::MAX && 0 <= row.teams_unlocked <= usize::MAX);
        }
        let item = PuzzleStatusItem {
            puzzle_id: row.puzzle_id,
            passed: row.teams_passed as usize,
            unlocked: row.teams_unlocked as usize,
        };
        out.push(item);
        proof {
            assert forall|j: int| 0 <= j < i + 1 implies {
                &&& #[trigger] out@[j].puzzle_id == stat.data@[j].puzzle_id
                &&& out@[j].passed == stat.data@[j].teams_passed
                &&& out@[j].unlocked == stat.data@[j].teams_unlocked
            } by {
                if j < i {
                    assert(out@[j] == out@.drop_last()[j]);
                } else {
                    assert(out@[j] == item);
                }
            }
        }
        i = i + 1;
    }
    out
}

} // verus!
