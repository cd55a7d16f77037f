use vstd::prelude::*;

use crate::clock::Moment;

verus! {

/// Seconds without an accounting tick after which the time in between is taken
/// to be an undetected suspend and is not counted.
pub const GAP_THRESHOLD: u64 = 5;

/// Who paused the session. A user's pause is not lifted by an unlock or a wake.
#[derive(Debug, Clone, Copy, PartialEq, Eq, Structural)]
pub enum PauseOrigin {
    User,
    System,
}

/// The day being tracked now. Monotonic times are seconds on the monotonic
/// clock; `current_lap_start_timestamp` is an epoch second.
#[derive(Debug)]
pub struct CurrentSession {
    pub start_time: u64,
    pub day_key: String,
    pub current_lap_start: u64,
    pub current_lap_start_timestamp: u64,
    /// Seconds counted toward the running lap so far.
    pub accumulated_seconds: u64,
    /// Monotonic time of the last accounting tick.
    pub last_activity_time: u64,
    /// `None` while time accrues.
    pub pause_origin: Option<PauseOrigin>,
}

pub struct SessionView {
    pub start_time: u64,
    pub day_key: Seq<char>,
    pub current_lap_start: u64,
    pub current_lap_start_timestamp: u64,
    pub accumulated_seconds: u64,
    pub last_activity_time: u64,
    pub pause_origin: Option<PauseOrigin>,
}

impl View for CurrentSession {
    type V = SessionView;

    open spec fn view(&self) -> SessionView {
        SessionView {
            start_time: self.start_time,
            day_key: self.day_key@,
            current_lap_start: self.current_lap_start,
            current_lap_start_timestamp: self.current_lap_start_timestamp,
            accumulated_seconds: self.accumulated_seconds,
            last_activity_time: self.last_activity_time,
            pause_origin: self.pause_origin,
        }
    }
}

impl SessionView {
    pub open spec fn is_paused(self) -> bool {
        self.pause_origin is Some
    }

    /// Seconds on the monotonic clock since the last tick; none if the clock
    /// reads earlier than that tick.
    pub open spec fn elapsed(self, now: u64) -> nat {
        if now >= self.last_activity_time {
            (now - self.last_activity_time) as nat
        } else {
            0
        }
    }

    /// One accounting tick at monotonic time `now`: a paused session is left
    /// as it is; otherwise the time since the last tick is added, unless it
    /// exceeds `GAP_THRESHOLD`, and the tick moves to `now`.
    pub open spec fn accrue(self, now: u64) -> SessionView {
        if self.is_paused() {
            self
        } else if self.elapsed(now) > GAP_THRESHOLD {
            SessionView { last_activity_time: now, ..self }
        } else {
            SessionView {
                accumulated_seconds: crate::lap::capped((self.accumulated_seconds + self.elapsed(now)) as nat),
                last_activity_time: now,
                ..self
            }
        }
    }

    /// A running lap begins at `now`.
    pub open spec fn restarted(self, now: Moment) -> SessionView {
        SessionView {
            current_lap_start: now.monotonic,
            current_lap_start_timestamp: now.epoch,
            accumulated_seconds: 0,
            last_activity_time: now.monotonic,
            pause_origin: None,
            ..self
        }
    }

    pub open spec fn paused_by(self, origin: PauseOrigin) -> SessionView {
        SessionView { pause_origin: Some(origin), ..self }
    }
}

impl CurrentSession {
    pub fn is_paused(&self) -> (r: bool)
        ensures
            r == self@.is_paused(),
    {
        self.pause_origin.is_some()
    }

    /// Starts a running lap at `now`.
    pub fn restart(&mut self, now: Moment)
        ensures
            final(self)@ == old(self)@.restarted(now),
    {
        self.current_lap_start = now.monotonic;
        self.current_lap_start_timestamp = now.epoch;
        self.accumulated_seconds = 0;
        self.last_activity_time = now.monotonic;
        self.pause_origin = None;
    }
}

/// The seconds counted toward the running lap, after one accounting tick at
/// monotonic time `now` (see `SessionView::accrue`).
pub fn get_current_lap_duration(session: &mut CurrentSession, now: u64) -> (r: u64)
    ensures
        final(session)@ == old(session)@.accrue(now),
        r == final(session)@.accumulated_seconds,
{
    if session.is_paused() {
        return session.accumulated_seconds;
    }
    let elapsed: u64 = if now >= session.last_activity_time {
        now - session.last_activity_time
    } else {
        0
    };
    if elapsed > GAP_THRESHOLD {
        session.last_activity_time = now;
        return session.accumulated_seconds;
    }
    session.accumulated_seconds = session.accumulated_seconds.saturating_add(elapsed);
    session.last_activity_time = now;
    session.accumulated_seconds
}

} // verus!
