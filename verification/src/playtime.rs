//! How long a player has been online, reconstructed from the activity log.
//!
//! A well-kept history alternates: online, offline, online, ... The walk
//! expects exactly that, starting with online. A record that repeats the
//! state the walk is already in is an anomaly: it is counted and otherwise
//! passed over.

use crate::store::ActivityRecord;
use crate::time::Timestamp;
use vstd::prelude::*;

verus! {

/// The result of a reconstruction.
#[derive(Debug, Clone, Copy, PartialEq, Eq, Structural)]
pub struct Playtime {
    /// Total time online, in milliseconds.
    pub total_millis: i64,
    /// Whether the history ends with the player online.
    pub online: bool,
    /// How many records repeated the state before them.
    pub anomalies: usize,
}

/// Why a reconstruction gave no result.
#[derive(Debug, Clone, Copy, PartialEq, Eq, Structural)]
pub enum PlaytimeError {
    /// The total left the range of a duration on the way.
    Overflow,
}

/// The state of the walk after some records.
pub struct Walk {
    /// The state that the next record should report.
    pub expects_online: bool,
    /// Where the open interval began; meaningful while one is open.
    pub start: int,
    /// The sum of the closed intervals.
    pub total: int,
    /// The records passed over.
    pub anomalies: nat,
}

/// The walk over a history, record by record.
pub open spec fn walk(history: Seq<ActivityRecord>) -> Walk
    decreases history.len(),
{
    if history.len() == 0 {
        Walk { expects_online: true, start: 0, total: 0, anomalies: 0 }
    } else {
        let before = walk(history.drop_last());
        let record = history.last();
        if record.online != before.expects_online {
            Walk { anomalies: before.anomalies + 1, ..before }
        } else if record.online {
            Walk { expects_online: false, start: record.time.millis as int, ..before }
        } else {
            Walk {
                expects_online: true,
                total: before.total + (record.time.millis - before.start),
                ..before
            }
        }
    }
}

/// Whether the history ends with an interval still open.
pub open spec fn online_at_end(history: Seq<ActivityRecord>) -> bool {
    !walk(history).expects_online
}

/// Total time online up to `now`: the closed intervals, and the open one
/// where there is one.
pub open spec fn total_until(history: Seq<ActivityRecord>, now: Timestamp) -> int {
    if online_at_end(history) {
        walk(history).total + (now.millis - walk(history).start)
    } else {
        walk(history).total
    }
}

/// The range of a duration: the largest magnitude is `i64::MAX` milliseconds.
pub open spec fn fits(millis: int) -> bool {
    -i64::MAX <= millis <= i64::MAX
}

/// Whether the running total stays a duration after every record and at the
/// end.
pub open spec fn within_limits(history: Seq<ActivityRecord>, now: Timestamp) -> bool {
    &&& forall|k: int| 0 <= k <= history.len() ==> fits(walk(#[trigger] history.take(k)).total)
    &&& fits(total_until(history, now))
}

/// Reconstructs a player's time online from the player's activity history,
/// given in ascending order of time, as of `now`.
///
/// The result is exact for every history, alternating or not. It fails only
/// where the running total leaves the range of a duration, which no history
/// in ascending order spanning less than `i64::MAX` milliseconds does.
pub fn reconstruct(history: &Vec<ActivityRecord>, now: Timestamp) -> (result: Result<
    Playtime,
    PlaytimeError,
>)
    ensures
        match result {
            Ok(playtime) => {
                &&& within_limits(history@, now)
                &&& playtime.total_millis == total_until(history@, now)
                &&& playtime.online == online_at_end(history@)
                &&& playtime.anomalies == walk(history@).anomalies
            },
            Err(error) => error == PlaytimeError::Overflow && !within_limits(history@, now),
        },
{
    let mut expects_online = true;
    let mut start: i64 = 0;
    let mut total: i64 = 0;
    let mut anomalies: usize = 0;
    let mut i: usize = 0;
    assert(history@.take(0) =~= Seq::<ActivityRecord>::empty());
    while i < history.len()
        invariant
            i <= history.len(),
            anomalies <= i,
            walk(history@.take(i as int)) == (Walk {
                expects_online,
                start: start as int,
                total: total as int,
                anomalies: anomalies as nat,
            }),
            forall|k: int| 0 <= k <= i ==> fits(walk(#[trigger] history@.take(k)).total),
        decreases history.len() - i,
    {
        let record = history[i];
        assert(history@.take(i + 1).drop_last() =~= history@.take(i as int));
        assert(history@.take(i + 1).last() == record);
        if record.online != expects_online {
            anomalies += 1;
        } else if record.online {
            start = record.time.millis;
            expects_online = false;
        } else {
            let sum: i128 = total as i128 + (record.time.millis as i128 - start as i128);
            if sum > i64::MAX as i128 || sum < -(i64::MAX as i128) {
                assert(!fits(walk(history@.take(i + 1)).total));
                return Err(PlaytimeError::Overflow);
            }
            total = sum as i64;
            expects_online = true;
        }
        i += 1;
    }
    assert(history@.take(history.len() as int) =~= history@);
    if !expects_online {
        let sum: i128 = total as i128 + (now.millis as i128 - start as i128);
        if sum > i64::MAX as i128 || sum < -(i64::MAX as i128) {
            return Err(PlaytimeError::Overflow);
        }
        total = sum as i64;
    }
    Ok(Playtime { total_millis: total, online: !expects_online, anomalies })
}

/// A history that alternates strictly, beginning with online.
pub open spec fn alternating(history: Seq<ActivityRecord>) -> bool {
    forall|i: int| 0 <= i < history.len() ==> (#[trigger] history[i]).online == (i % 2 == 0)
}

/// The summed length of the closed intervals of an alternating history:
/// each online record paired with the offline record after it.
pub open spec fn closed_intervals(history: Seq<ActivityRecord>) -> int
    decreases history.len(),
{
    if history.len() < 2 {
        0
    } else if history.len() % 2 == 1 {
        closed_intervals(history.drop_last())
    } else {
        closed_intervals(history.drop_last().drop_last()) + (history[history.len() - 1].time.millis
            - history[history.len() - 2].time.millis)
    }
}

/// A history in ascending order of time.
pub open spec fn ascending(history: Seq<ActivityRecord>) -> bool {
    forall|i: int, j: int|
        0 <= i <= j < history.len() ==> (#[trigger] history[i]).time.millis <= (
        #[trigger] history[j]).time.millis
}

/// The walk over an alternating history: no anomaly, the total is the sum of
/// the closed intervals, and an interval is open exactly if the number of
/// records is odd, beginning at the last record.
pub proof fn lemma_walk_of_alternating(history: Seq<ActivityRecord>)
    requires
        alternating(history),
    ensures
        walk(history).anomalies == 0,
        walk(history).total == closed_intervals(history),
        walk(history).expects_online == (history.len() % 2 == 0),
        history.len() % 2 == 1 ==> walk(history).start == history.last().time.millis,
    decreases history.len(),
{
    if history.len() > 0 {
        let before = history.drop_last();
        assert(alternating(before)) by {
            assert forall|i: int| 0 <= i < before.len() implies (#[trigger] before[i]).online == (i
                % 2 == 0) by {
                assert(before[i] == history[i]);
            }
        }
        lemma_walk_of_alternating(before);
        assert(history.last() == history[history.len() - 1]);
        if history.len() % 2 == 0 {
            assert(before.last() == history[history.len() - 2]);
            assert(closed_intervals(before) == closed_intervals(before.drop_last()));
        }
    }
}

/// For every alternating history the reconstructed time is the sum of the
/// closed intervals, plus the time from the last record to `now` where the
/// last interval is open; and the player counts as online exactly then.
pub proof fn lemma_alternating_total(history: Seq<ActivityRecord>, now: Timestamp)
    requires
        alternating(history),
    ensures
        online_at_end(history) == (history.len() % 2 == 1),
        total_until(history, now) == closed_intervals(history) + if history.len() % 2 == 1 {
            now.millis - history.last().time.millis
        } else {
            0
        },
{
    lemma_walk_of_alternating(history);
}

/// Nothing recorded: no time online, not online, nothing passed over.
pub proof fn lemma_empty_history(now: Timestamp)
    ensures
        within_limits(Seq::<ActivityRecord>::empty(), now),
        total_until(Seq::<ActivityRecord>::empty(), now) == 0,
        !online_at_end(Seq::<ActivityRecord>::empty()),
        walk(Seq::<ActivityRecord>::empty()).anomalies == 0,
{
    let empty = Seq::<ActivityRecord>::empty();
    assert forall|k: int| 0 <= k <= empty.len() implies fits(walk(#[trigger] empty.take(k)).total) by {
        assert(empty.take(k) =~= empty);
    }
}

/// A record that repeats the state before it changes neither the total nor
/// whether the player is online; it is counted as an anomaly and that is all.
pub proof fn lemma_anomaly_is_passed_over(
    history: Seq<ActivityRecord>,
    record: ActivityRecord,
    now: Timestamp,
)
    requires
        record.online == online_at_end(history),
    ensures
        total_until(history.push(record), now) == total_until(history, now),
        online_at_end(history.push(record)) == online_at_end(history),
        walk(history.push(record)).anomalies == walk(history).anomalies + 1,
{
    assert(history.push(record).drop_last() =~= history);
}

/// The status at the end is what the last record says, anomalies or not.
pub proof fn lemma_status_is_last_record(history: Seq<ActivityRecord>)
    requires
        history.len() > 0,
    ensures
        online_at_end(history) == history.last().online,
{
}

/// What holds of the walk over a history in ascending order: the total is
/// never negative and never more than the time that has passed since the
/// first record.
proof fn lemma_walk_of_ascending(history: Seq<ActivityRecord>)
    requires
        ascending(history),
        history.len() > 0,
    ensures
        0 <= walk(history).total,
        walk(history).expects_online ==> walk(history).total <= history.last().time.millis
            - history[0].time.millis,
        !walk(history).expects_online ==> history[0].time.millis <= walk(history).start
            <= history.last().time.millis && walk(history).total <= walk(history).start
            - history[0].time.millis,
    decreases history.len(),
{
    let before = history.drop_last();
    assert(history.last() == history[history.len() - 1]);
    if before.len() > 0 {
        assert(ascending(before)) by {
            assert forall|i: int, j: int| 0 <= i <= j < before.len() implies (
            #[trigger] before[i]).time.millis <= (#[trigger] before[j]).time.millis by {
                assert(before[i] == history[i]);
                assert(before[j] == history[j]);
            }
        }
        lemma_walk_of_ascending(before);
        assert(before[0] == history[0]);
        assert(before.last() == history[history.len() - 2]);
        assert(history[history.len() - 2].time.millis <= history[history.len() - 1].time.millis);
    } else {
        assert(history[0] == history.last());
        assert(walk(before).expects_online && walk(before).total == 0);
    }
}

/// Success is owed to every orderly history: for records in ascending order
/// of time, none of them later than `now`, with no more than `i64::MAX`
/// milliseconds from the first record to `now`, the running total stays
/// within limits, so the reconstruction succeeds. The total is then neither
/// negative nor longer than the time from the first record to `now`.
pub proof fn lemma_ascending_history_is_within_limits(
    history: Seq<ActivityRecord>,
    now: Timestamp,
)
    requires
        ascending(history),
        history.len() > 0 ==> history.last().time.millis <= now.millis && now.millis
            - history[0].time.millis <= i64::MAX,
    ensures
        within_limits(history, now),
        0 <= total_until(history, now),
        history.len() > 0 ==> total_until(history, now) <= now.millis - history[0].time.millis,
{
    assert forall|k: int| 0 <= k <= history.len() implies fits(
        walk(#[trigger] history.take(k)).total,
    ) by {
        let prefix = history.take(k);
        if k > 0 {
            assert(ascending(prefix)) by {
                assert forall|i: int, j: int| 0 <= i <= j < prefix.len() implies (
                #[trigger] prefix[i]).time.millis <= (#[trigger] prefix[j]).time.millis by {
                    assert(prefix[i] == history[i]);
                    assert(prefix[j] == history[j]);
                }
            }
            lemma_walk_of_ascending(prefix);
            assert(prefix[0] == history[0]);
            assert(prefix.last() == history[k - 1]);
            assert(history[k - 1].time.millis <= history[history.len() - 1].time.millis);
            assert(history.last() == history[history.len() - 1]);
        }
    }
    if history.len() > 0 {
        lemma_walk_of_ascending(history);
    }
}

} // verus!
