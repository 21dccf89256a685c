//! Multimedia timers fire when their time has come, once each.
use vstd::prelude::*;

use crate::winmm;
use crate::winmm::{DueTimer, WinmmTimerRecord};

verus! {

/// Whether a fired timer is a record's: its id, callback and user value.
pub open spec fn is_firing_of(due: DueTimer, timer: WinmmTimerRecord) -> bool {
    due.id == timer.id && due.callback == timer.callback && due.user_data == timer.user_data
}

/// The timers whose deadline has come.
pub open spec fn expired(timers: Seq<WinmmTimerRecord>, now: int) -> Seq<WinmmTimerRecord> {
    timers.filter(|timer: WinmmTimerRecord| timer.due <= now)
}

/// The timers that stay in the table: those that still wait and those that repeat.
pub open spec fn staying(timers: Seq<WinmmTimerRecord>, now: int) -> Seq<WinmmTimerRecord> {
    timers.filter(|timer: WinmmTimerRecord| timer.due > now || timer.periodic)
}

/// Every timer whose deadline has come fires, each once and in table order, and no
/// other timer fires.
pub proof fn expired_timers_fire(timers: Seq<WinmmTimerRecord>, now: int)
    ensures
        winmm::due_timers(timers, now).len() == expired(timers, now).len(),
        forall|k: int|
            0 <= k < expired(timers, now).len() ==> is_firing_of(
                #[trigger] winmm::due_timers(timers, now)[k],
                expired(timers, now)[k],
            ),
    decreases timers.len(),
{
    reveal(Seq::filter);
    if timers.len() > 0 {
        expired_timers_fire(timers.drop_last(), now);
    }
}

/// A timer whose deadline has come is among those that fire.
pub proof fn an_expired_timer_fires(timers: Seq<WinmmTimerRecord>, now: int, i: int)
    requires
        0 <= i < timers.len(),
        timers[i].due <= now,
    ensures
        exists|k: int|
            0 <= k < winmm::due_timers(timers, now).len() && is_firing_of(
                #[trigger] winmm::due_timers(timers, now)[k],
                timers[i],
            ),
    decreases timers.len(),
{
    let due = winmm::due_timers(timers, now);
    if i == timers.len() - 1 {
        assert(is_firing_of(due[due.len() - 1], timers[i]));
    } else {
        let earlier = winmm::due_timers(timers.drop_last(), now);
        an_expired_timer_fires(timers.drop_last(), now, i);
        let k = choose|k: int| 0 <= k < earlier.len() && is_firing_of(#[trigger] earlier[k], timers.drop_last()[i]);
        assert(due[k] == earlier[k]);
    }
}

/// What stays in the table: a timer that still waits is as it was, one that repeats
/// is due one period later and otherwise as it was. Nothing else stays, and nothing
/// is added: a timer that is gone has fired.
pub proof fn waiting_timers_stay(timers: Seq<WinmmTimerRecord>, now: int)
    ensures
        winmm::after_firing(timers, now).len() == staying(timers, now).len(),
        forall|k: int| #![trigger winmm::after_firing(timers, now)[k]]
            0 <= k < staying(timers, now).len() ==> {
                let before = staying(timers, now)[k];
                let after = winmm::after_firing(timers, now)[k];
                &&& before.due > now ==> after == before
                &&& before.due <= now ==> after.due == (before.due + before.delay) as u64 && after.periodic
                    && after.id == before.id && after.delay == before.delay && after.callback == before.callback
                    && after.user_data == before.user_data
            },
    decreases timers.len(),
{
    reveal(Seq::filter);
    if timers.len() > 0 {
        waiting_timers_stay(timers.drop_last(), now);
    }
}

/// Taken one at a time, timers fire as long as one is due, the earliest deadline first
/// and the first in the table among equals. The one that fired is gone, or due one
/// period later where it repeats; all others stay in order.
pub proof fn the_earliest_timer_fires(
    before: Seq<WinmmTimerRecord>,
    after: Seq<WinmmTimerRecord>,
    now: int,
    next: Option<DueTimer>,
)
    requires
        winmm::fires_next(before, after, now, next),
    ensures
        next is None <==> forall|j: int| 0 <= j < before.len() ==> (#[trigger] before[j]).due > now,
        next is None ==> after == before,
        next matches Some(fired) ==> exists|i: int|
            {
                &&& 0 <= i < before.len()
                &&& (#[trigger] before[i]).due <= now
                &&& is_firing_of(fired, before[i])
                &&& forall|j: int| 0 <= j < before.len() ==> before[i].due <= (#[trigger] before[j]).due
                &&& forall|j: int| 0 <= j < i ==> before[i].due < (#[trigger] before[j]).due
                &&& !before[i].periodic ==> after == before.take(i) + before.skip(i + 1)
                &&& before[i].periodic ==> after.len() == before.len() && after[i].due == (before[i].due
                    + before[i].delay) as u64 && after[i].id == before[i].id && after[i].periodic && after[i].delay
                    == before[i].delay && after[i].callback == before[i].callback && after[i].user_data
                    == before[i].user_data && forall|j: int|
                    0 <= j < before.len() && j != i ==> #[trigger] after[j] == before[j]
            },
{
    if let Some(fired) = next {
        let i = choose|i: int|
            {
                &&& #[trigger] winmm::is_next_due(before, i, now)
                &&& fired == before[i].fired()
                &&& after == if before[i].periodic {
                    before.update(i, before[i].rearmed())
                } else {
                    before.remove(i)
                }
            };
        assert(before[i].due <= now);
        assert(before.remove(i) =~= before.take(i) + before.skip(i + 1));
        assert(is_firing_of(fired, before[i]));
    }
}

/// A batch leaves nothing to take one at a time, unless a repeating timer is due again
/// at once.
pub proof fn a_batch_leaves_nothing_due(timers: Seq<WinmmTimerRecord>, now: int, i: int)
    requires
        forall|j: int| 0 <= j < timers.len() ==> (#[trigger] timers[j]).due + timers[j].delay <= u64::MAX,
        forall|j: int|
            0 <= j < timers.len() && (#[trigger] timers[j]).periodic ==> timers[j].due + timers[j].delay > now,
        0 <= i < winmm::after_firing(timers, now).len(),
    ensures
        winmm::after_firing(timers, now)[i].due > now,
    decreases timers.len(),
{
    if timers.len() > 0 {
        let earlier = timers.drop_last();
        assert forall|j: int| 0 <= j < earlier.len() implies (#[trigger] earlier[j]).due + earlier[j].delay
            <= u64::MAX && (earlier[j].periodic ==> earlier[j].due + earlier[j].delay > now) by {
            assert(earlier[j] == timers[j]);
        }
        assert(timers.last() == timers[timers.len() - 1]);
        if i < winmm::after_firing(earlier, now).len() {
            a_batch_leaves_nothing_due(earlier, now, i);
        }
    }
}

} // verus!
