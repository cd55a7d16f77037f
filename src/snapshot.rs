use vstd::prelude::*;

use crate::clock::{Moment, MAX_EPOCH_SECONDS, day_key_at, utc_date_of};
use crate::lap::{Lap, laps_wf};
use crate::ledger::{DayRecord, records_view, records_wf};
use crate::session::{CurrentSession, PauseOrigin, SessionView};
use crate::tracker::AppState;

verus! {

/// What is saved of a session.
#[derive(Debug)]
pub struct PersistedSessionState {
    pub day_key: String,
    pub current_lap_start_timestamp: u64,
    pub accumulated_seconds: u64,
    pub is_paused: bool,
}

/// What is saved of the tracker: the session, if any, and every day's record.
#[derive(Debug)]
pub struct PersistedState {
    pub current_session: Option<PersistedSessionState>,
    pub day_records: Vec<DayRecord>,
}

/// A saved session brought back at `now`: nothing is counted for the time the
/// process was down, so it comes back paused by the system, with its seconds.
pub open spec fn restored_session(day_key: Seq<char>, accumulated: u64, now: Moment) -> SessionView {
    SessionView {
        start_time: now.monotonic,
        day_key,
        current_lap_start: now.monotonic,
        current_lap_start_timestamp: now.epoch,
        accumulated_seconds: accumulated,
        last_activity_time: now.monotonic,
        pause_origin: Some(PauseOrigin::System),
    }
}

/// Whether every lap is consistent and only the last may run.
pub fn laps_valid(laps: &Vec<Lap>) -> (r: bool)
    ensures
        r == laps_wf(laps@),
{
    let n = laps.len();
    let mut i: usize = 0;
    while i < n
        invariant
            n == laps@.len(),
            i <= n,
            forall|j: int| 0 <= j < i ==> #[trigger] laps@[j].is_consistent(),
            forall|j: int| 0 <= j < i && j < n - 1 ==> !(#[trigger] laps@[j].is_open()),
        decreases n - i,
    {
        let lap = laps[i];
        if lap.end_time.is_none() != lap.duration.is_none() {
            assert(!laps@[i as int].is_consistent());
            return false;
        }
        if i + 1 < n && lap.end_time.is_none() {
            assert(laps@[i as int].is_open());
            return false;
        }
        i = i + 1;
    }
    true
}

/// Whether each date appears once and every day's laps are well formed.
pub fn records_valid(records: &Vec<DayRecord>) -> (r: bool)
    ensures
        r == records_wf(records_view(records@)),
{
    let ghost rv = records_view(records@);
    let n = records.len();
    let mut i: usize = 0;
    while i < n
        invariant
            n == records@.len(),
            rv == records_view(records@),
            i <= n,
            forall|a: int, b: int| 0 <= a < b < n && a < i ==> #[trigger] rv[a].date != #[trigger] rv[b].date,
            forall|a: int| 0 <= a < i ==> laps_wf(#[trigger] rv[a].laps),
        decreases n - i,
    {
        if !laps_valid(&records[i].laps) {
            assert(!laps_wf(rv[i as int].laps));
            return false;
        }
        let mut j: usize = i + 1;
        while j < n
            invariant
                n == records@.len(),
                rv == records_view(records@),
                i < j <= n,
                forall|b: int| i < b < j ==> rv[i as int].date != #[trigger] rv[b].date,
            decreases n - j,
        {
            if records[i].date == records[j].date {
                assert(rv[i as int].date == rv[j as int].date);
                return false;
            }
            j = j + 1;
        }
        i = i + 1;
    }
    true
}

impl AppState {
    /// What is to be saved: each field of the session but its monotonic
    /// times, and every record as it stands.
    pub fn capture(&self) -> (r: PersistedState)
        ensures
            records_view(r.day_records@) == records_view(self.day_records@),
            match self.current_session {
                None => r.current_session is None,
                Some(s) => r.current_session matches Some(p) && {
                    &&& p.day_key@ == s.day_key@
                    &&& p.current_lap_start_timestamp == s.current_lap_start_timestamp
                    &&& p.accumulated_seconds == s.accumulated_seconds
                    &&& p.is_paused == s@.is_paused()
                },
            },
    {
        let current_session = match &self.current_session {
            Some(s) => Some(
                PersistedSessionState {
                    day_key: s.day_key.clone(),
                    current_lap_start_timestamp: s.current_lap_start_timestamp,
                    accumulated_seconds: s.accumulated_seconds,
                    is_paused: s.is_paused(),
                },
            ),
            None => None,
        };
        let mut day_records: Vec<DayRecord> = Vec::new();
        let mut i: usize = 0;
        while i < self.day_records.len()
            invariant
                i <= self.day_records@.len(),
                day_records@.len() == i,
                forall|k: int| 0 <= k < i ==> #[trigger] day_records@[k]@ == self.day_records@[k]@,
            decreases self.day_records@.len() - i,
        {
            let copy = self.day_records[i].duplicate();
            day_records.push(copy);
            i = i + 1;
        }
        assert(records_view(day_records@) =~= records_view(self.day_records@)) by {
            assert forall|k: int| 0 <= k < day_records@.len() implies #[trigger] records_view(
                day_records@,
            )[k] == records_view(self.day_records@)[k] by {
                assert(day_records@[k]@ == self.day_records@[k]@);
            }
        }
        PersistedState { current_session, day_records }
    }

    /// The tracker brought back at `now` from what was saved: every record as
    /// it was, and the session only if it belongs to the day `now` falls on,
    /// paused by the system with its seconds kept. None if the records break
    /// the ledger's rules (a date twice, a running lap before the last).
    pub fn restore(saved: PersistedState, now: Moment) -> (r: Option<AppState>)
        requires
            now.epoch <= MAX_EPOCH_SECONDS,
        ensures
            r is Some <==> records_wf(records_view(saved.day_records@)),
            r matches Some(st) ==> {
                &&& st.wf()
                &&& records_view(st.day_records@) == records_view(saved.day_records@)
                &&& st@.session == match saved.current_session {
                    Some(p) => if p.day_key@ == utc_date_of(now.epoch as int) {
                        Some(restored_session(p.day_key@, p.accumulated_seconds, now))
                    } else {
                        None::<SessionView>
                    },
                    None => None,
                }
            },
    {
        if !records_valid(&saved.day_records) {
            return None;
        }
        let today = day_key_at(now.epoch);
        let current_session = match saved.current_session {
            Some(p) => if p.day_key == today {
                Some(
                    CurrentSession {
                        start_time: now.monotonic,
                        day_key: p.day_key,
                        current_lap_start: now.monotonic,
                        current_lap_start_timestamp: now.epoch,
                        accumulated_seconds: p.accumulated_seconds,
                        last_activity_time: now.monotonic,
                        pause_origin: Some(PauseOrigin::System),
                    },
                )
            } else {
                None
            },
            None => None,
        };
        Some(AppState { current_session, day_records: saved.day_records })
    }
}

} // verus!
