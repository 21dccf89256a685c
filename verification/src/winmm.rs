//! Multimedia timers.
use vstd::prelude::*;

verus! {

/// One armed timer.
#[derive(Debug, Clone, Copy, PartialEq, Eq, Structural)]
pub struct WinmmTimerRecord {
    /// Timer id (`timeSetEvent` result).
    pub id: u32,
    /// Tick at which the timer is due.
    pub due: u64,
    /// Period in milliseconds.
    pub delay: u32,
    /// Whether the timer re-arms itself.
    pub periodic: bool,
    /// Guest callback.
    pub callback: u64,
    /// User value handed to the callback.
    pub user_data: u64,
}

/// A timer whose callback is to run now.
#[derive(Debug, Clone, Copy, PartialEq, Eq, Structural)]
pub struct DueTimer {
    pub id: u32,
    pub callback: u64,
    pub user_data: u64,
}

impl WinmmTimerRecord {
    /// What firing the timer hands to the pump.
    pub open spec fn fired(self) -> DueTimer {
        DueTimer { id: self.id, callback: self.callback, user_data: self.user_data }
    }

    /// The timer after firing: one period later (a periodic timer).
    pub open spec fn rearmed(self) -> WinmmTimerRecord {
        WinmmTimerRecord { due: (self.due + self.delay) as u64, ..self }
    }
}

/// The timers that fire at `now`, in table order.
pub open spec fn due_timers(timers: Seq<WinmmTimerRecord>, now: int) -> Seq<DueTimer>
    decreases timers.len(),
{
    if timers.len() == 0 {
        Seq::empty()
    } else if timers.last().due <= now {
        due_timers(timers.drop_last(), now).push(timers.last().fired())
    } else {
        due_timers(timers.drop_last(), now)
    }
}

/// The table after the timers due at `now` fired: one-shot timers are gone,
/// periodic ones re-armed, the others as they were.
pub open spec fn after_firing(timers: Seq<WinmmTimerRecord>, now: int) -> Seq<WinmmTimerRecord>
    decreases timers.len(),
{
    if timers.len() == 0 {
        Seq::empty()
    } else {
        let rest = after_firing(timers.drop_last(), now);
        if timers.last().due > now {
            rest.push(timers.last())
        } else if timers.last().periodic {
            rest.push(timers.last().rearmed())
        } else {
            rest
        }
    }
}

/// A one-shot timer fires once: of the timers that fired, only periodic ones are left.
pub proof fn one_shots_fire_once(timers: Seq<WinmmTimerRecord>, now: int, i: int)
    ensures
        0 <= i < after_firing(timers, now).len() ==> after_firing(timers, now)[i].due > now
            || after_firing(timers, now)[i].periodic,
    decreases timers.len(),
{
    if timers.len() > 0 {
        one_shots_fire_once(timers.drop_last(), now, i);
    }
}

/// While no timer is due, nothing fires and nothing changes.
pub proof fn early_timers_wait(timers: Seq<WinmmTimerRecord>, now: int)
    requires
        forall|j: int| 0 <= j < timers.len() ==> (#[trigger] timers[j]).due > now,
    ensures
        due_timers(timers, now) == Seq::<DueTimer>::empty(),
        after_firing(timers, now) == timers,
    decreases timers.len(),
{
    if timers.len() > 0 {
        assert forall|j: int| 0 <= j < timers.len() - 1 implies (#[trigger] timers.drop_last()[j]).due > now by {
            assert(timers[j].due > now);
        }
        early_timers_wait(timers.drop_last(), now);
        assert(timers.last() == timers[timers.len() - 1]);
        assert(timers.drop_last().push(timers.last()) =~= timers);
    } else {
        assert(timers =~= Seq::empty());
    }
}

/// Whether timer `i` is the next to fire at `now`: due, no other due earlier,
/// and the first in the table among equals.
pub open spec fn is_next_due(timers: Seq<WinmmTimerRecord>, i: int, now: int) -> bool {
    &&& 0 <= i < timers.len()
    &&& timers[i].due <= now
    &&& forall|j: int| 0 <= j < timers.len() ==> timers[i].due <= (#[trigger] timers[j]).due
    &&& forall|j: int| 0 <= j < i ==> timers[i].due < (#[trigger] timers[j]).due
}

/// What taking the next due timer does: it fires and is removed or re-armed, or
/// none is due and the table stays as it is.
pub open spec fn fires_next(
    before: Seq<WinmmTimerRecord>,
    after: Seq<WinmmTimerRecord>,
    now: int,
    next: Option<DueTimer>,
) -> bool {
    match next {
        Some(timer) => exists|i: int|
            {
                &&& #[trigger] is_next_due(before, i, now)
                &&& timer == before[i].fired()
                &&& after == if before[i].periodic {
                    before.update(i, before[i].rearmed())
                } else {
                    before.remove(i)
                }
            },
        None => {
            &&& after == before
            &&& forall|j: int| 0 <= j < before.len() ==> (#[trigger] before[j]).due > now
        },
    }
}

/// Timer and audio handle tables.
#[derive(Debug, Clone)]
pub struct WinmmState {
    /// Armed timers in the order they were set.
    pub timers: Vec<WinmmTimerRecord>,
    /// `timeBeginPeriod` resolution in milliseconds.
    pub period: u32,
}

impl Default for WinmmState {
    fn default() -> (state: Self)
        ensures
            state.is_initial(),
    {
        WinmmState { timers: Vec::new(), period: 0 }
    }
}

impl WinmmState {
    /// No timer armed.
    pub open spec fn is_initial(&self) -> bool {
        self.timers@ == Seq::<WinmmTimerRecord>::empty() && self.period == 0
    }

    /// Take the timers due at `now_tick`. One-shot timers are removed, periodic
    /// timers are re-armed (`due += delay`).
    pub fn pop_due_timers(&mut self, now_tick: u32) -> (due: Vec<DueTimer>)
        ensures
            due@ == due_timers(old(self).timers@, now_tick as int),
            final(self).timers@ == after_firing(old(self).timers@, now_tick as int),
            final(self).period == old(self).period,
    {
        let mut due: Vec<DueTimer> = Vec::new();
        let mut kept: Vec<WinmmTimerRecord> = Vec::new();
        let mut i: usize = 0;
        while i < self.timers.len()
            invariant
                i <= self.timers@.len(),
                *self == *old(self),
                due@ == due_timers(self.timers@.take(i as int), now_tick as int),
                kept@ == after_firing(self.timers@.take(i as int), now_tick as int),
            decreases self.timers@.len() - i,
        {
            let timer = self.timers[i];
            proof {
                assert(self.timers@.take(i + 1).drop_last() =~= self.timers@.take(i as int));
                assert(self.timers@.take(i + 1).last() == timer);
            }
            if timer.due <= now_tick as u64 {
                due.push(DueTimer { id: timer.id, callback: timer.callback, user_data: timer.user_data });
                if timer.periodic {
                    kept.push(WinmmTimerRecord { due: timer.due + timer.delay as u64, ..timer });
                }
            } else {
                kept.push(timer);
            }
            i = i + 1;
        }
        assert(self.timers@.take(i as int) =~= self.timers@);
        self.timers = kept;
        due
    }

    /// Take the next timer due at `now_tick`, if any: the one with the earliest
    /// deadline. A one-shot timer is removed, a periodic one re-armed.
    pub fn pop_next_due_timer(&mut self, now_tick: u32) -> (next: Option<DueTimer>)
        ensures
            final(self).period == old(self).period,
            fires_next(old(self).timers@, final(self).timers@, now_tick as int, next),
    {
        if self.timers.len() == 0 {
            return None;
        }
        let mut best: usize = 0;
        let mut i: usize = 1;
        while i < self.timers.len()
            invariant
                best < i <= self.timers@.len(),
                *self == *old(self),
                forall|j: int| 0 <= j < i ==> self.timers@[best as int].due <= (#[trigger] self.timers@[j]).due,
                forall|j: int| 0 <= j < best ==> self.timers@[best as int].due < (#[trigger] self.timers@[j]).due,
            decreases self.timers@.len() - i,
        {
            if self.timers[i].due < self.timers[best].due {
                best = i;
            }
            i = i + 1;
        }
        let timer = self.timers[best];
        if timer.due > now_tick as u64 {
            return None;
        }
        assert(is_next_due(self.timers@, best as int, now_tick as int));
        if timer.periodic {
            self.timers[best] = WinmmTimerRecord { due: timer.due + timer.delay as u64, ..timer };
        } else {
            self.timers.remove(best);
        }
        Some(DueTimer { id: timer.id, callback: timer.callback, user_data: timer.user_data })
    }
}

} // verus!
