use vstd::prelude::*;

use crate::clock::{Moment, MAX_EPOCH_SECONDS, day_key_at, utc_date_of};
use crate::lap::{
    Lap, capped, close_open, close_open_lap, completed_total, discard_open, discard_open_lap,
    has_open, has_open_lap, laps_wf, lemma_close_keeps_wf, lemma_discard_keeps_wf,
    lemma_push_open_keeps_wf, total_seconds,
};
use crate::ledger::{
    DayRecord, DayRecordView, find_day, ledger_of, lemma_ledger_keys,
    lemma_ledger_lookup, lemma_ledger_push, lemma_ledger_update, lemma_records_wf_ledger,
    records_view, records_wf,
};
use crate::session::{CurrentSession, PauseOrigin, SessionView, get_current_lap_duration};

verus! {

/// A running lap this short or shorter is dropped, not closed, when a new lap
/// is started.
pub const MIN_KEPT_LAP_SECONDS: u64 = 1;

/// A running lap shorter than this is dropped, not closed, when the user stops
/// it.
pub const SHORT_LAP_SECONDS: u64 = 3;

/// Why an operation was refused.
#[derive(Debug, Clone, Copy, PartialEq, Eq, Structural)]
pub enum TrackerError {
    /// A day is already being tracked.
    AlreadyActive,
    /// No day is being tracked.
    NoSession,
    /// The session is already paused.
    AlreadyPaused,
    /// The session's day has no record in the ledger.
    RecordNotFound,
}

/// What a lock, unlock, sleep or wake signal did.
#[derive(Debug, Clone, Copy, PartialEq, Eq, Structural)]
pub enum SignalOutcome {
    /// No day is being tracked: nothing changed.
    NoSession,
    /// The running lap, if any, was closed and the session paused by the
    /// system.
    Paused,
    /// A new lap was started and the session runs again.
    Resumed,
    /// The user paused the session: it stays paused by the user (a lock or
    /// sleep still closes a running lap, if there is one).
    UserPaused,
    /// The session was running already: nothing changed.
    AlreadyRunning,
}

/// What stopping a lap did.
#[derive(Debug, Clone, Copy, PartialEq, Eq, Structural)]
pub enum StopOutcome {
    /// The running lap was too short and was dropped.
    Discarded,
    /// The running lap was closed.
    Closed,
}

/// The figures shown for the day being tracked.
#[derive(Debug)]
pub struct CurrentStatus {
    pub day_key: String,
    pub current_lap_duration: u64,
    pub total_session_duration: u64,
    /// Whether time is accruing now.
    pub is_active: bool,
}

pub struct StatusView {
    pub day_key: Seq<char>,
    pub current_lap_duration: u64,
    pub total_session_duration: u64,
    pub is_active: bool,
}

impl View for CurrentStatus {
    type V = StatusView;

    open spec fn view(&self) -> StatusView {
        StatusView {
            day_key: self.day_key@,
            current_lap_duration: self.current_lap_duration,
            total_session_duration: self.total_session_duration,
            is_active: self.is_active,
        }
    }
}

/// The session, if a day is being tracked, and the ledger of days.
pub struct TrackerView {
    pub session: Option<SessionView>,
    pub ledger: Map<Seq<char>, DayRecordView>,
}

/// The whole state of the tracker: at most one session, and one record per day.
pub struct AppState {
    pub current_session: Option<CurrentSession>,
    pub day_records: Vec<DayRecord>,
}

impl View for AppState {
    type V = TrackerView;

    open spec fn view(&self) -> TrackerView {
        TrackerView {
            session: match self.current_session {
                Some(s) => Some(s@),
                None => None,
            },
            ledger: ledger_of(records_view(self.day_records@)),
        }
    }
}

/// The laps of day `key`, none if it has no record.
pub open spec fn laps_of(ledger: Map<Seq<char>, DayRecordView>, key: Seq<char>) -> Seq<Lap> {
    if ledger.contains_key(key) {
        ledger[key].laps
    } else {
        Seq::empty()
    }
}

/// The ledger with the laps of day `key` replaced, if it has a record.
pub open spec fn with_laps(
    ledger: Map<Seq<char>, DayRecordView>,
    key: Seq<char>,
    laps: Seq<Lap>,
) -> Map<Seq<char>, DayRecordView> {
    if ledger.contains_key(key) {
        ledger.insert(key, DayRecordView { laps, ..ledger[key] })
    } else {
        ledger
    }
}

/// The session a day starts with at `now`.
pub open spec fn fresh_session(key: Seq<char>, now: Moment) -> SessionView {
    SessionView {
        start_time: now.monotonic,
        day_key: key,
        current_lap_start: now.monotonic,
        current_lap_start_timestamp: now.epoch,
        accumulated_seconds: 0,
        last_activity_time: now.monotonic,
        pause_origin: None,
    }
}

/// The record a day starts with at `now`: one running lap.
pub open spec fn fresh_record(key: Seq<char>, now: Moment) -> DayRecordView {
    DayRecordView {
        date: key,
        total_duration: 0,
        laps: seq![Lap::opened(now.epoch)],
        is_active: true,
    }
}

/// A record once its day is ended: the running lap closed at `end` with
/// `seconds`, the total summed, and the day no longer active.
pub open spec fn ended_record(r: DayRecordView, end: u64, seconds: u64) -> DayRecordView {
    DayRecordView {
        date: r.date,
        total_duration: capped(total_seconds(close_open_lap(r.laps, end, seconds))),
        laps: close_open_lap(r.laps, end, seconds),
        is_active: false,
    }
}

/// A day started again at `now` keeps its laps and gains a running one. A
/// lap left running with no session to account for it is closed with no
/// seconds counted.
pub open spec fn reopened_record(r: DayRecordView, now: Moment) -> DayRecordView {
    DayRecordView {
        laps: close_open_lap(r.laps, now.epoch, 0).push(Lap::opened(now.epoch)),
        is_active: true,
        ..r
    }
}

pub open spec fn start_day_next(t: TrackerView, now: Moment) -> TrackerView {
    if t.session is Some {
        t
    } else {
        let key = utc_date_of(now.epoch as int);
        TrackerView {
            session: Some(fresh_session(key, now)),
            ledger: if t.ledger.contains_key(key) {
                t.ledger.insert(key, reopened_record(t.ledger[key], now))
            } else {
                t.ledger.insert(key, fresh_record(key, now))
            },
        }
    }
}

pub open spec fn end_day_next(t: TrackerView, now: Moment) -> TrackerView {
    match t.session {
        None => t,
        Some(s) => {
            let key = s.day_key;
            let seconds = s.accrue(now.monotonic).accumulated_seconds;
            TrackerView {
                session: None,
                ledger: if t.ledger.contains_key(key) {
                    t.ledger.insert(key, ended_record(t.ledger[key], now.epoch, seconds))
                } else {
                    t.ledger
                },
            }
        },
    }
}

/// Who has paused the session once a lock or sleep came: a user's pause
/// stays the user's, any other state becomes a pause by the system.
pub open spec fn origin_after_system_pause(origin: Option<PauseOrigin>) -> PauseOrigin {
    if origin == Some(PauseOrigin::User) {
        PauseOrigin::User
    } else {
        PauseOrigin::System
    }
}

/// Lock, sleep: the running lap, if any, is closed with the seconds counted
/// after one tick, and the session is paused. A session the user paused stays
/// paused by the user, so that a later unlock or wake does not resume it.
pub open spec fn system_pause_next(t: TrackerView, now: Moment) -> TrackerView {
    match t.session {
        None => t,
        Some(s) => {
            let s2 = s.accrue(now.monotonic);
            TrackerView {
                session: Some(s2.paused_by(origin_after_system_pause(s.pause_origin))),
                ledger: with_laps(
                    t.ledger,
                    s.day_key,
                    close_open_lap(laps_of(t.ledger, s.day_key), now.epoch, s2.accumulated_seconds),
                ),
            }
        },
    }
}

/// Unlock, wake: only a session that the system paused resumes, with a new
/// lap. A lap still running from before (a restored session) is closed first
/// with the seconds it had. A session that is running already is left as it
/// is: it has a running lap, and opening another beside it would leave the
/// day with two, so its lap simply goes on accruing.
pub open spec fn system_resume_next(t: TrackerView, now: Moment) -> TrackerView {
    match t.session {
        Some(s) => if s.pause_origin == Some(PauseOrigin::System) {
            TrackerView {
                session: Some(s.restarted(now)),
                ledger: with_laps(
                    t.ledger,
                    s.day_key,
                    close_open_lap(
                        laps_of(t.ledger, s.day_key),
                        now.epoch,
                        s.accumulated_seconds,
                    ).push(Lap::opened(now.epoch)),
                ),
            }
        } else {
            t
        },
        None => t,
    }
}

pub open spec fn system_pause_outcome(t: TrackerView) -> SignalOutcome {
    match t.session {
        None => SignalOutcome::NoSession,
        Some(s) => if s.pause_origin == Some(PauseOrigin::User) {
            SignalOutcome::UserPaused
        } else {
            SignalOutcome::Paused
        },
    }
}

pub open spec fn system_resume_outcome(t: TrackerView) -> SignalOutcome {
    match t.session {
        None => SignalOutcome::NoSession,
        Some(s) => match s.pause_origin {
            Some(PauseOrigin::System) => SignalOutcome::Resumed,
            Some(PauseOrigin::User) => SignalOutcome::UserPaused,
            None => SignalOutcome::AlreadyRunning,
        },
    }
}

/// The laps kept when a new lap starts: the running one is closed if it ran
/// more than `MIN_KEPT_LAP_SECONDS`, dropped otherwise.
pub open spec fn laps_before_new(laps: Seq<Lap>, end: u64, seconds: u64) -> Seq<Lap> {
    if seconds > MIN_KEPT_LAP_SECONDS {
        close_open_lap(laps, end, seconds)
    } else {
        discard_open_lap(laps)
    }
}

pub open spec fn add_lap_next(t: TrackerView, now: Moment) -> TrackerView {
    match t.session {
        None => t,
        Some(s) => {
            let seconds = s.accrue(now.monotonic).accumulated_seconds;
            TrackerView {
                session: Some(s.restarted(now)),
                ledger: with_laps(
                    t.ledger,
                    s.day_key,
                    laps_before_new(laps_of(t.ledger, s.day_key), now.epoch, seconds).push(
                        Lap::opened(now.epoch),
                    ),
                ),
            }
        },
    }
}

/// Whether stopping the lap at `now` drops it rather than closing it.
pub open spec fn stop_discards(t: TrackerView, now: Moment) -> bool {
    match t.session {
        None => false,
        Some(s) => s.accrue(now.monotonic).accumulated_seconds < SHORT_LAP_SECONDS
            && has_open_lap(laps_of(t.ledger, s.day_key)),
    }
}

pub open spec fn stop_lap_next(t: TrackerView, now: Moment) -> TrackerView {
    match t.session {
        None => t,
        Some(s) => if s.is_paused() {
            t
        } else {
            let s2 = s.accrue(now.monotonic);
            let laps = laps_of(t.ledger, s.day_key);
            if stop_discards(t, now) {
                TrackerView {
                    session: Some(SessionView { accumulated_seconds: 0, ..s2.paused_by(PauseOrigin::User) }),
                    ledger: with_laps(t.ledger, s.day_key, laps.drop_last()),
                }
            } else {
                TrackerView {
                    session: Some(s2.paused_by(PauseOrigin::User)),
                    ledger: with_laps(
                        t.ledger,
                        s.day_key,
                        close_open_lap(laps, now.epoch, s2.accumulated_seconds),
                    ),
                }
            }
        },
    }
}

/// A status query only ticks the session.
pub open spec fn status_next(t: TrackerView, now: Moment) -> TrackerView {
    match t.session {
        None => t,
        Some(s) => TrackerView { session: Some(s.accrue(now.monotonic)), ledger: t.ledger },
    }
}

/// While paused: the closed laps only. While running: the closed laps and the
/// running lap's seconds after one tick.
pub open spec fn status_of(t: TrackerView, now: Moment) -> Option<StatusView> {
    match t.session {
        None => None,
        Some(s) => {
            let closed = capped(total_seconds(laps_of(t.ledger, s.day_key)));
            if s.is_paused() {
                Some(
                    StatusView {
                        day_key: s.day_key,
                        current_lap_duration: 0,
                        total_session_duration: closed,
                        is_active: false,
                    },
                )
            } else {
                let current = s.accrue(now.monotonic).accumulated_seconds;
                Some(
                    StatusView {
                        day_key: s.day_key,
                        current_lap_duration: current,
                        total_session_duration: capped((closed + current) as nat),
                        is_active: true,
                    },
                )
            }
        },
    }
}

/// The laps of the day being tracked; none without a session.
pub open spec fn current_laps(t: TrackerView) -> Seq<Lap> {
    match t.session {
        None => Seq::empty(),
        Some(s) => laps_of(t.ledger, s.day_key),
    }
}

impl AppState {
    /// One record per date, each with well-formed laps.
    pub open spec fn wf(&self) -> bool {
        records_wf(records_view(self.day_records@))
    }

    /// No session and an empty ledger.
    pub fn new() -> (r: AppState)
        ensures
            r.wf(),
            r@.session is None,
            r@.ledger == Map::<Seq<char>, DayRecordView>::empty(),
    {
        let r = AppState { current_session: None, day_records: Vec::new() };
        assert(records_view(r.day_records@) =~= Seq::<DayRecordView>::empty());
        r
    }

    /// Where the record of `key` stands, if the ledger has one.
    fn locate_day(&self, key: &String) -> (r: Option<usize>)
        requires
            self.wf(),
        ensures
            match r {
                Some(i) => {
                    &&& i < self.day_records@.len()
                    &&& self@.ledger.contains_key(key@)
                    &&& self@.ledger[key@] == self.day_records@[i as int]@
                    &&& self.day_records@[i as int]@.date == key@
                },
                None => !self@.ledger.contains_key(key@),
            },
    {
        let r = find_day(&self.day_records, key);
        proof {
            let rv = records_view(self.day_records@);
            match r {
                Some(i) => {
                    assert(rv[i as int] == self.day_records@[i as int]@);
                    lemma_ledger_lookup(rv, i as int);
                },
                None => {
                    lemma_ledger_keys(rv, key@);
                    if self@.ledger.contains_key(key@) {
                        let j = choose|j: int| 0 <= j < rv.len() && #[trigger] rv[j].date == key@;
                        assert(rv[j] == self.day_records@[j]@);
                    }
                },
            }
        }
        r
    }

    /// A copy of the laps of the record at `i`.
    fn laps_at(&self, i: usize) -> (r: Vec<Lap>)
        requires
            i < self.day_records@.len(),
        ensures
            r@ == self.day_records@[i as int]@.laps,
    {
        let r = self.day_records[i].laps.clone();
        assert(r@ =~= self.day_records@[i as int].laps@);
        r
    }

    /// Replaces the laps of the record at `i`.
    fn set_laps_at(&mut self, i: usize, laps: Vec<Lap>)
        requires
            old(self).wf(),
            i < old(self).day_records@.len(),
            laps_wf(laps@),
        ensures
            final(self).wf(),
            final(self).current_session == old(self).current_session,
            final(self)@.ledger == with_laps(
                old(self)@.ledger,
                old(self).day_records@[i as int]@.date,
                laps@,
            ),
    {
        let ghost old_rv = records_view(self.day_records@);
        let mut rec = self.day_records.remove(i);
        rec.laps = laps;
        self.day_records.insert(i, rec);
        proof {
            let new_rv = records_view(self.day_records@);
            assert(new_rv =~= old_rv.update(i as int, rec@));
            lemma_ledger_lookup(old_rv, i as int);
            lemma_ledger_update(old_rv, i as int, rec@);
            assert(ledger_of(new_rv) =~= with_laps(ledger_of(old_rv), old_rv[i as int].date, laps@));
            assert forall|j: int| 0 <= j < new_rv.len() implies laps_wf(#[trigger] new_rv[j].laps) by {
                if j != i {
                    assert(new_rv[j] == old_rv[j]);
                }
            }
        }
    }

    /// Replaces the laps of the record at `i` and marks its day active.
    fn reopen_at(&mut self, i: usize, laps: Vec<Lap>)
        requires
            old(self).wf(),
            i < old(self).day_records@.len(),
            laps_wf(laps@),
        ensures
            final(self).wf(),
            final(self).current_session == old(self).current_session,
            final(self)@.ledger == old(self)@.ledger.insert(
                old(self).day_records@[i as int]@.date,
                DayRecordView {
                    laps: laps@,
                    is_active: true,
                    ..old(self)@.ledger[old(self).day_records@[i as int]@.date]
                },
            ),
    {
        let ghost old_rv = records_view(self.day_records@);
        let mut rec = self.day_records.remove(i);
        rec.laps = laps;
        rec.is_active = true;
        self.day_records.insert(i, rec);
        proof {
            let new_rv = records_view(self.day_records@);
            assert(new_rv =~= old_rv.update(i as int, rec@));
            lemma_ledger_lookup(old_rv, i as int);
            lemma_ledger_update(old_rv, i as int, rec@);
            assert forall|j: int| 0 <= j < new_rv.len() implies laps_wf(#[trigger] new_rv[j].laps) by {
                if j != i {
                    assert(new_rv[j] == old_rv[j]);
                }
            }
        }
    }

    /// Starts tracking the day that `now` falls on, with a running lap: a new
    /// record, or the one that day already had, with its laps kept (see
    /// `reopened_record`). Returns the day's key.
    pub fn start_day(&mut self, now: Moment) -> (r: Result<String, TrackerError>)
        requires
            old(self).wf(),
            now.epoch <= MAX_EPOCH_SECONDS,
        ensures
            final(self).wf(),
            final(self)@ == start_day_next(old(self)@, now),
            old(self)@.session is Some ==> r matches Err(TrackerError::AlreadyActive),
            old(self)@.session is None ==> (r matches Ok(key) && key@ == utc_date_of(now.epoch as int)),
    {
        if self.current_session.is_some() {
            return Err(TrackerError::AlreadyActive);
        }
        let key = day_key_at(now.epoch);
        match self.day_laps(&key) {
            Some((i, mut laps)) => {
                let ghost before = laps@;
                close_open(&mut laps, now.epoch, 0);
                proof {
                    lemma_close_keeps_wf(before, now.epoch, 0);
                    lemma_push_open_keeps_wf(laps@, now.epoch);
                }
                laps.push(Lap::open_at(now.epoch));
                self.reopen_at(i, laps);
            },
            None => {
                let mut laps: Vec<Lap> = Vec::new();
                laps.push(Lap::open_at(now.epoch));
                let record = DayRecord { date: key.clone(), total_duration: 0, laps, is_active: true };
                assert(record@.laps =~= seq![Lap::opened(now.epoch)]);
                let ghost old_rv = records_view(self.day_records@);
                self.day_records.push(record);
                proof {
                    let new_rv = records_view(self.day_records@);
                    assert(new_rv =~= old_rv.push(record@));
                    lemma_ledger_push(old_rv, record@);
                    assert forall|j: int| 0 <= j < new_rv.len() implies laps_wf(#[trigger] new_rv[j].laps) by {
                        if j < old_rv.len() {
                            assert(new_rv[j] == old_rv[j]);
                        }
                    }
                }
            },
        }
        self.current_session = Some(
            CurrentSession {
                start_time: now.monotonic,
                day_key: key.clone(),
                current_lap_start: now.monotonic,
                current_lap_start_timestamp: now.epoch,
                accumulated_seconds: 0,
                last_activity_time: now.monotonic,
                pause_origin: None,
            },
        );
        assert(self@.ledger =~= start_day_next(old(self)@, now).ledger);
        Ok(key)
    }
    /// Where the record of `key` stands and a copy of its laps, if the ledger
    /// has one.
    fn day_laps(&self, key: &String) -> (r: Option<(usize, Vec<Lap>)>)
        requires
            self.wf(),
        ensures
            match r {
                Some((i, laps)) => {
                    &&& i < self.day_records@.len()
                    &&& self@.ledger.contains_key(key@)
                    &&& self.day_records@[i as int]@.date == key@
                    &&& laps@ == self@.ledger[key@].laps
                    &&& laps_wf(laps@)
                },
                None => !self@.ledger.contains_key(key@),
            },
    {
        match self.locate_day(key) {
            Some(i) => {
                let laps = self.laps_at(i);
                proof {
                    lemma_records_wf_ledger(records_view(self.day_records@));
                }
                Some((i, laps))
            },
            None => None,
        }
    }

    /// Closes the running lap of day `key`, if any.
    fn close_day_lap(&mut self, key: &String, end: u64, seconds: u64)
        requires
            old(self).wf(),
        ensures
            final(self).wf(),
            final(self).current_session == old(self).current_session,
            final(self)@.ledger == with_laps(
                old(self)@.ledger,
                key@,
                close_open_lap(laps_of(old(self)@.ledger, key@), end, seconds),
            ),
    {
        if let Some((i, mut laps)) = self.day_laps(key) {
            close_open(&mut laps, end, seconds);
            proof {
                lemma_close_keeps_wf(laps_of(old(self)@.ledger, key@), end, seconds);
            }
            self.set_laps_at(i, laps);
        }
    }

    /// Ends the running lap of day `key`, if any, and starts a new one at
    /// `start`: the old one is closed with `seconds`, or dropped when `keep`
    /// is false.
    fn begin_day_lap(&mut self, key: &String, end: u64, seconds: u64, keep: bool, start: u64)
        requires
            old(self).wf(),
        ensures
            final(self).wf(),
            final(self).current_session == old(self).current_session,
            final(self)@.ledger == with_laps(
                old(self)@.ledger,
                key@,
                (if keep {
                    close_open_lap(laps_of(old(self)@.ledger, key@), end, seconds)
                } else {
                    discard_open_lap(laps_of(old(self)@.ledger, key@))
                }).push(Lap::opened(start)),
            ),
    {
        if let Some((i, mut laps)) = self.day_laps(key) {
            let ghost before = laps@;
            if keep {
                close_open(&mut laps, end, seconds);
                proof {
                    lemma_close_keeps_wf(before, end, seconds);
                }
            } else {
                discard_open(&mut laps);
                proof {
                    lemma_discard_keeps_wf(before);
                }
            }
            proof {
                lemma_push_open_keeps_wf(laps@, start);
            }
            laps.push(Lap::open_at(start));
            self.set_laps_at(i, laps);
        }
    }

    /// Ends the day being tracked: its running lap is closed with the seconds
    /// counted after one tick, the total is summed over all laps, the record
    /// is marked inactive and returned, and the session is removed.
    pub fn end_day(&mut self, now: Moment) -> (r: Result<DayRecord, TrackerError>)
        requires
            old(self).wf(),
        ensures
            final(self).wf(),
            final(self)@ == end_day_next(old(self)@, now),
            old(self)@.session is None ==> r matches Err(TrackerError::NoSession),
            old(self)@.session matches Some(s) ==> if old(self)@.ledger.contains_key(s.day_key) {
                r matches Ok(rec) && rec@ == ended_record(
                    old(self)@.ledger[s.day_key],
                    now.epoch,
                    s.accrue(now.monotonic).accumulated_seconds,
                )
            } else {
                r matches Err(TrackerError::RecordNotFound)
            },
    {
        let mut session = match self.current_session.take() {
            Some(s) => s,
            None => return Err(TrackerError::NoSession),
        };
        let seconds = get_current_lap_duration(&mut session, now.monotonic);
        match self.day_laps(&session.day_key) {
            Some((i, mut laps)) => {
                let ghost before = laps@;
                close_open(&mut laps, now.epoch, seconds);
                proof {
                    lemma_close_keeps_wf(before, now.epoch, seconds);
                }
                let total = completed_total(&laps);
                let ghost key = session.day_key@;
                assert(laps@ == close_open_lap(old(self)@.ledger[key].laps, now.epoch, seconds));
                let record = DayRecord {
                    date: session.day_key.clone(),
                    total_duration: total,
                    laps,
                    is_active: false,
                };
                let result = record.duplicate();
                let ghost old_rv = records_view(self.day_records@);
                let _ = self.day_records.remove(i);
                self.day_records.insert(i, record);
                proof {
                    let new_rv = records_view(self.day_records@);
                    assert(new_rv =~= old_rv.update(i as int, record@));
                    lemma_ledger_update(old_rv, i as int, record@);
                    assert forall|j: int| 0 <= j < new_rv.len() implies laps_wf(#[trigger] new_rv[j].laps) by {
                        if j != i {
                            assert(new_rv[j] == old_rv[j]);
                        }
                    }
                    lemma_records_wf_ledger(old_rv);
                    assert(record@ == ended_record(old(self)@.ledger[key], now.epoch, seconds));
                    assert(self@.ledger =~= end_day_next(old(self)@, now).ledger);
                }
                Ok(result)
            },
            None => Err(TrackerError::RecordNotFound),
        }
    }

    fn system_pause(&mut self, now: Moment) -> (r: SignalOutcome)
        requires
            old(self).wf(),
        ensures
            final(self).wf(),
            final(self)@ == system_pause_next(old(self)@, now),
            r == system_pause_outcome(old(self)@),
    {
        let mut session = match self.current_session.take() {
            Some(s) => s,
            None => return SignalOutcome::NoSession,
        };
        let seconds = get_current_lap_duration(&mut session, now.monotonic);
        self.close_day_lap(&session.day_key, now.epoch, seconds);
        let outcome = match session.pause_origin {
            Some(PauseOrigin::User) => SignalOutcome::UserPaused,
            _ => {
                session.pause_origin = Some(PauseOrigin::System);
                SignalOutcome::Paused
            },
        };
        self.current_session = Some(session);
        outcome
    }

    fn system_resume(&mut self, now: Moment) -> (r: SignalOutcome)
        requires
            old(self).wf(),
        ensures
            final(self).wf(),
            final(self)@ == system_resume_next(old(self)@, now),
            r == system_resume_outcome(old(self)@),
    {
        let mut session = match self.current_session.take() {
            Some(s) => s,
            None => return SignalOutcome::NoSession,
        };
        let outcome = match session.pause_origin {
            Some(PauseOrigin::System) => {
                self.begin_day_lap(
                    &session.day_key,
                    now.epoch,
                    session.accumulated_seconds,
                    true,
                    now.epoch,
                );
                session.restart(now);
                SignalOutcome::Resumed
            },
            Some(PauseOrigin::User) => SignalOutcome::UserPaused,
            None => SignalOutcome::AlreadyRunning,
        };
        self.current_session = Some(session);
        outcome
    }

    /// The screen was locked: see `system_pause_next`.
    pub fn handle_screen_lock(&mut self, now: Moment) -> (r: SignalOutcome)
        requires
            old(self).wf(),
        ensures
            final(self).wf(),
            final(self)@ == system_pause_next(old(self)@, now),
            r == system_pause_outcome(old(self)@),
    {
        self.system_pause(now)
    }

    /// The system went to sleep: the same as a lock.
    pub fn handle_system_sleep(&mut self, now: Moment) -> (r: SignalOutcome)
        requires
            old(self).wf(),
        ensures
            final(self).wf(),
            final(self)@ == system_pause_next(old(self)@, now),
            r == system_pause_outcome(old(self)@),
    {
        self.system_pause(now)
    }

    /// The screen was unlocked: see `system_resume_next`.
    pub fn handle_screen_unlock(&mut self, now: Moment) -> (r: SignalOutcome)
        requires
            old(self).wf(),
        ensures
            final(self).wf(),
            final(self)@ == system_resume_next(old(self)@, now),
            r == system_resume_outcome(old(self)@),
    {
        self.system_resume(now)
    }

    /// The system woke up: the same as an unlock.
    pub fn handle_system_wake(&mut self, now: Moment) -> (r: SignalOutcome)
        requires
            old(self).wf(),
        ensures
            final(self).wf(),
            final(self)@ == system_resume_next(old(self)@, now),
            r == system_resume_outcome(old(self)@),
    {
        self.system_resume(now)
    }

    /// Starts a new lap at `now` and resumes the session, whoever paused it;
    /// the running lap is closed if it ran more than `MIN_KEPT_LAP_SECONDS`
    /// and dropped otherwise.
    pub fn add_lap(&mut self, now: Moment) -> (r: Result<(), TrackerError>)
        requires
            old(self).wf(),
        ensures
            final(self).wf(),
            final(self)@ == add_lap_next(old(self)@, now),
            old(self)@.session is None <==> r matches Err(TrackerError::NoSession),
            r is Ok || r matches Err(TrackerError::NoSession),
    {
        let mut session = match self.current_session.take() {
            Some(s) => s,
            None => return Err(TrackerError::NoSession),
        };
        let seconds = get_current_lap_duration(&mut session, now.monotonic);
        self.begin_day_lap(
            &session.day_key,
            now.epoch,
            seconds,
            seconds > MIN_KEPT_LAP_SECONDS,
            now.epoch,
        );
        session.restart(now);
        self.current_session = Some(session);
        Ok(())
    }

    /// The user stops the running lap and pauses the session. A lap shorter
    /// than `SHORT_LAP_SECONDS` is dropped and its seconds forgotten; a
    /// longer one is closed.
    pub fn stop_lap(&mut self, now: Moment) -> (r: Result<StopOutcome, TrackerError>)
        requires
            old(self).wf(),
        ensures
            final(self).wf(),
            final(self)@ == stop_lap_next(old(self)@, now),
            old(self)@.session is None ==> r matches Err(TrackerError::NoSession),
            old(self)@.session matches Some(s) ==> if s.is_paused() {
                r matches Err(TrackerError::AlreadyPaused)
            } else if stop_discards(old(self)@, now) {
                r matches Ok(StopOutcome::Discarded)
            } else {
                r matches Ok(StopOutcome::Closed)
            },
    {
        let mut session = match self.current_session.take() {
            Some(s) => s,
            None => return Err(TrackerError::NoSession),
        };
        if session.is_paused() {
            self.current_session = Some(session);
            return Err(TrackerError::AlreadyPaused);
        }
        let seconds = get_current_lap_duration(&mut session, now.monotonic);
        let mut outcome = StopOutcome::Closed;
        if seconds < SHORT_LAP_SECONDS {
            if let Some((i, mut laps)) = self.day_laps(&session.day_key) {
                if has_open(&laps) {
                    let ghost before = laps@;
                    discard_open(&mut laps);
                    proof {
                        lemma_discard_keeps_wf(before);
                    }
                    self.set_laps_at(i, laps);
                    session.accumulated_seconds = 0;
                    outcome = StopOutcome::Discarded;
                }
            }
        }
        if outcome == StopOutcome::Closed {
            self.close_day_lap(&session.day_key, now.epoch, seconds);
        }
        session.pause_origin = Some(PauseOrigin::User);
        self.current_session = Some(session);
        Ok(outcome)
    }

    /// The figures of the day being tracked, after one tick of the session
    /// (see `status_of`); none without a session.
    pub fn get_current_status(&mut self, now: Moment) -> (r: Option<CurrentStatus>)
        requires
            old(self).wf(),
        ensures
            final(self).wf(),
            final(self)@ == status_next(old(self)@, now),
            match r {
                Some(st) => status_of(old(self)@, now) == Some(st@),
                None => status_of(old(self)@, now) is None,
            },
    {
        let mut session = match self.current_session.take() {
            Some(s) => s,
            None => return None,
        };
        let closed = match self.day_laps(&session.day_key) {
            Some((_, laps)) => completed_total(&laps),
            None => 0,
        };
        let status = if session.is_paused() {
            CurrentStatus {
                day_key: session.day_key.clone(),
                current_lap_duration: 0,
                total_session_duration: closed,
                is_active: false,
            }
        } else {
            let current = get_current_lap_duration(&mut session, now.monotonic);
            CurrentStatus {
                day_key: session.day_key.clone(),
                current_lap_duration: current,
                total_session_duration: closed.saturating_add(current),
                is_active: true,
            }
        };
        self.current_session = Some(session);
        Some(status)
    }

    /// The laps of the day being tracked, in order; none without a session.
    pub fn get_current_day_laps(&self) -> (r: Vec<Lap>)
        requires
            self.wf(),
        ensures
            r@ == current_laps(self@),
    {
        match &self.current_session {
            Some(session) => match self.day_laps(&session.day_key) {
                Some((_, laps)) => laps,
                None => Vec::new(),
            },
            None => Vec::new(),
        }
    }
}

} // verus!
