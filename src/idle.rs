//! Reconstruction of the idle/active state from idle signals: polled
//! "seconds since the last input" samples, or pushed idle/resume
//! notifications.
//!
//! Times are milliseconds since the Unix epoch; durations are milliseconds.
use vstd::prelude::*;

verus! {

/// Largest distance from the epoch, in milliseconds, of an observation time
/// (about 250,000 years, within the range of calendar dates).
pub const MAX_TIME: i64 = 8_000_000_000_000_000;

/// Largest idle timeout in milliseconds: `u32::MAX` seconds.
pub const MAX_IDLE_TIMEOUT: i64 = 4_294_967_295_000;

/// An observation time that the tracker accepts.
pub open spec fn valid_time(t: int) -> bool {
    -MAX_TIME <= t <= MAX_TIME
}

/// A time the tracker may hold: an observation time moved back by at most
/// one timeout or one `u32` count of seconds.
pub open spec fn valid_stored_time(t: int) -> bool {
    -2 * MAX_TIME <= t <= 2 * MAX_TIME
}

/// The classification reported by [`Tracker`] at one instant.
#[derive(Debug, Clone, Copy, PartialEq, Eq, Structural)]
pub enum Status {
    Idle { changed: bool, last_input_time: i64, duration: i64 },
    Active { changed: bool, last_input_time: i64 },
}

impl Status {
    pub open spec fn changed_spec(self) -> bool {
        match self {
            Status::Idle { changed, .. } => changed,
            Status::Active { changed, .. } => changed,
        }
    }

    pub open spec fn last_input_spec(self) -> i64 {
        match self {
            Status::Idle { last_input_time, .. } => last_input_time,
            Status::Active { last_input_time, .. } => last_input_time,
        }
    }

    /// Whether this status reports a transition that was not yet reported.
    pub fn changed(&self) -> (r: bool)
        ensures
            r == self.changed_spec(),
    {
        match self {
            Status::Idle { changed, .. } => *changed,
            Status::Active { changed, .. } => *changed,
        }
    }

    /// The time of the last user input.
    pub fn last_input_time(&self) -> (r: i64)
        ensures
            r == self.last_input_spec(),
    {
        match self {
            Status::Idle { last_input_time, .. } => *last_input_time,
            Status::Active { last_input_time, .. } => *last_input_time,
        }
    }
}

/// The idle/active state of one user session.
pub struct Tracker {
    /// Time of the most recent confirmed user input.
    pub last_input_time: i64,
    pub is_idle: bool,
    /// Set by a transition, cleared by the next status read.
    pub is_changed: bool,
    /// Inactivity, in milliseconds, that makes the user idle.
    pub idle_timeout: i64,
    /// End of the most recent idle interval, set when input resumes.
    pub idle_end: Option<i64>,
}

impl Tracker {
    pub open spec fn wf(&self) -> bool {
        &&& valid_stored_time(self.last_input_time as int)
        &&& 0 <= self.idle_timeout <= MAX_IDLE_TIMEOUT
        &&& match self.idle_end {
            Some(e) => valid_time(e as int),
            None => true,
        }
    }

    /// The status read at `now`, before the one-shot change flag is cleared.
    pub open spec fn status_at(self, now: int) -> Status {
        if self.is_idle {
            Status::Idle {
                changed: self.is_changed,
                last_input_time: self.last_input_time,
                duration: (now - self.last_input_time) as i64,
            }
        } else {
            Status::Active { changed: self.is_changed, last_input_time: self.last_input_time }
        }
    }

    /// The tracker after a status read.
    pub open spec fn read(self) -> Tracker {
        Tracker { is_changed: false, ..self }
    }

    /// The tracker after a transition to `is_idle`.
    pub open spec fn switched(self, is_idle: bool) -> Tracker {
        Tracker { is_idle, is_changed: true, ..self }
    }

    pub open spec fn after_mark_not_idle(self, now: int) -> Tracker {
        Tracker {
            last_input_time: now as i64,
            idle_end: Some(now as i64),
            ..self.switched(false)
        }
    }

    pub open spec fn after_mark_idle(self) -> Tracker {
        self.switched(true)
    }

    /// Whole seconds of the idle timeout.
    pub open spec fn timeout_seconds(self) -> int {
        self.idle_timeout / 1000
    }

    /// The tracker once a poll has reported `seconds` since the last input
    /// at `now`, before the status read.
    pub open spec fn observed(self, now: int, seconds: int) -> Tracker {
        let t = Tracker { last_input_time: (now - seconds * 1000) as i64, ..self };
        if t.is_idle && seconds < self.timeout_seconds() {
            t.switched(false)
        } else if !t.is_idle && seconds >= self.timeout_seconds() {
            t.switched(true)
        } else {
            t
        }
    }

    /// The last input time clamped while active: never more than one
    /// timeout before `now`, never before the end of the last idle interval.
    pub open spec fn clamped_input(self, now: int) -> int {
        let a = if self.last_input_time >= now - self.idle_timeout {
            self.last_input_time as int
        } else {
            now - self.idle_timeout
        };
        match self.idle_end {
            Some(e) => if a < e { e as int } else { a },
            None => a,
        }
    }

    /// The tracker at `now` in push mode, before the status read.
    pub open spec fn reacted(self, now: int) -> Tracker {
        if self.is_idle {
            self
        } else {
            Tracker { last_input_time: self.clamped_input(now) as i64, ..self }
        }
    }

    /// A tracker that is active at `now`, with no input recorded since.
    pub fn new(now: i64, idle_timeout: i64) -> (r: Tracker)
        requires
            valid_time(now as int),
            0 <= idle_timeout <= MAX_IDLE_TIMEOUT,
        ensures
            r.wf(),
            r == (Tracker {
                last_input_time: now,
                is_idle: false,
                is_changed: false,
                idle_timeout,
                idle_end: None,
            }),
    {
        Tracker { last_input_time: now, is_idle: false, is_changed: false, idle_timeout, idle_end: None }
    }

    fn set_idle(&mut self, is_idle: bool)
        ensures
            *final(self) == old(self).switched(is_idle),
    {
        self.is_idle = is_idle;
        self.is_changed = true;
    }

    /// Input resumed at `now`: the user is active and the idle interval ends.
    pub fn mark_not_idle(&mut self, now: i64)
        requires
            old(self).wf(),
            valid_time(now as int),
        ensures
            final(self).wf(),
            *final(self) == old(self).after_mark_not_idle(now as int),
    {
        self.last_input_time = now;
        self.set_idle(false);
        self.idle_end = Some(now);
    }

    /// The idle timeout elapsed: the user is idle.
    pub fn mark_idle(&mut self, _now: i64)
        requires
            old(self).wf(),
        ensures
            final(self).wf(),
            *final(self) == old(self).after_mark_idle(),
    {
        self.set_idle(true);
    }

    /// Takes a poll result, `seconds_since_input` at `now`, and returns the
    /// status; crossing the idle timeout in either direction is a transition.
    pub fn get_with_last_input(&mut self, now: i64, seconds_since_input: u32) -> (r: Status)
        requires
            old(self).wf(),
            valid_time(now as int),
        ensures
            final(self).wf(),
            r == old(self).observed(now as int, seconds_since_input as int).status_at(now as int),
            *final(self) == old(self).observed(now as int, seconds_since_input as int).read(),
    {
        let since_input: i64 = seconds_since_input as i64 * 1000;
        self.last_input_time = now - since_input;
        let timeout_seconds: i64 = self.idle_timeout / 1000;
        if self.is_idle && (seconds_since_input as i64) < timeout_seconds {
            self.set_idle(false);
        } else if !self.is_idle && (seconds_since_input as i64) >= timeout_seconds {
            self.set_idle(true);
        }
        self.get_status(now)
    }

    /// The status at `now` in push mode, where idle and resume come from
    /// [`Tracker::mark_idle`] and [`Tracker::mark_not_idle`]. While active,
    /// the last input time is clamped to at most one timeout before `now`
    /// and to no earlier than the end of the last idle interval.
    pub fn get_reactive(&mut self, now: i64) -> (r: Status)
        requires
            old(self).wf(),
            valid_time(now as int),
        ensures
            final(self).wf(),
            r == old(self).reacted(now as int).status_at(now as int),
            *final(self) == old(self).reacted(now as int).read(),
    {
        if !self.is_idle {
            let earliest: i64 = now - self.idle_timeout;
            if self.last_input_time < earliest {
                self.last_input_time = earliest;
            }
            match self.idle_end {
                Some(idle_end) => {
                    if self.last_input_time < idle_end {
                        self.last_input_time = idle_end;
                    }
                },
                None => {},
            }
        }
        self.get_status(now)
    }

    fn get_status(&mut self, now: i64) -> (r: Status)
        requires
            old(self).wf(),
            valid_time(now as int),
        ensures
            r == old(self).status_at(now as int),
            *final(self) == old(self).read(),
    {
        let result = if self.is_idle {
            Status::Idle {
                changed: self.is_changed,
                last_input_time: self.last_input_time,
                duration: now - self.last_input_time,
            }
        } else {
            Status::Active { changed: self.is_changed, last_input_time: self.last_input_time }
        };
        self.is_changed = false;
        result
    }
}

/// In push mode, once input resumed at `t1` after going idle at `t0`, a
/// status read at a later `t2` while still active reports a last input no
/// earlier than `t1` and no earlier than one timeout before `t2`.
pub proof fn lemma_reactive_clamp(t: Tracker, t0: int, t1: int, t2: int)
    requires
        t.wf(),
        valid_time(t0),
        valid_time(t1),
        valid_time(t2),
        t0 < t1 < t2,
    ensures
        ({
            let s = t.after_mark_idle().after_mark_not_idle(t1).reacted(t2).status_at(t2);
            &&& s is Active
            &&& s.last_input_spec() >= t1
            &&& s.last_input_spec() >= t2 - t.idle_timeout
        }),
{
}

/// The tracker after push-mode status reads at `times`, in order.
pub open spec fn after_reads(t: Tracker, times: Seq<int>) -> Tracker
    decreases times.len(),
{
    if times.len() == 0 {
        t
    } else {
        after_reads(t.reacted(times[0]).read(), times.drop_first())
    }
}

proof fn lemma_reads_keep_resume(t: Tracker, t1: int, t2: int, times: Seq<int>)
    requires
        t.wf(),
        !t.is_idle,
        t.idle_end == Some(t1 as i64),
        valid_time(t1),
        valid_time(t2),
        t1 <= t.last_input_time <= t2,
        forall|i: int| 0 <= i < times.len() ==> t1 <= #[trigger] times[i] <= t2,
    ensures
        ({
            let u = after_reads(t, times);
            &&& u.wf()
            &&& !u.is_idle
            &&& u.idle_end == Some(t1 as i64)
            &&& u.idle_timeout == t.idle_timeout
            &&& t1 <= u.last_input_time <= t2
        }),
    decreases times.len(),
{
    if times.len() > 0 {
        let s = times[0];
        assert(t1 <= s <= t2);
        let next = times.drop_first();
        assert forall|i: int| 0 <= i < next.len() implies t1 <= #[trigger] next[i] <= t2 by {
            assert(next[i] == times[i + 1]);
        }
        lemma_reads_keep_resume(t.reacted(s).read(), t1, t2, next);
    }
}

/// In push mode, once input resumed at `t1` after going idle at `t0`, any
/// number of status reads between `t1` and `t2`, and then a read at `t2`
/// while still active, report a last input no earlier than `t1`, no
/// earlier than one timeout before `t2`, and no later than `t2`.
pub proof fn lemma_reactive_clamp_after_reads(t: Tracker, t0: int, t1: int, t2: int, reads: Seq<int>)
    requires
        t.wf(),
        valid_time(t0),
        valid_time(t1),
        valid_time(t2),
        t0 < t1 < t2,
        forall|i: int| 0 <= i < reads.len() ==> t1 <= #[trigger] reads[i] <= t2,
    ensures
        ({
            let u = after_reads(t.after_mark_idle().after_mark_not_idle(t1), reads);
            let s = u.reacted(t2).status_at(t2);
            &&& s is Active
            &&& s.last_input_spec() >= t1
            &&& s.last_input_spec() >= t2 - t.idle_timeout
            &&& s.last_input_spec() <= t2
        }),
{
    lemma_reads_keep_resume(t.after_mark_idle().after_mark_not_idle(t1), t1, t2, reads);
}

/// A status read reports the tracker's state; an idle status lasts from
/// the last input to the read.
pub proof fn lemma_status_duration(t: Tracker, now: int)
    requires
        t.wf(),
        valid_time(now),
    ensures
        (t.status_at(now) is Idle) == t.is_idle,
        t.status_at(now).last_input_spec() == t.last_input_time,
        t.status_at(now) matches Status::Idle { last_input_time, duration, .. }
            ==> duration == now - last_input_time,
{
}

} // verus!
