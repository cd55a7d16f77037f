use vstd::prelude::*;

use crate::clock::Moment;
use crate::lap::{close_open_lap, has_open_lap, laps_wf, total_seconds};
use crate::ledger::{lemma_records_wf_ledger, records_view};
use crate::session::{GAP_THRESHOLD, PauseOrigin};
use crate::tracker::{
    AppState, SHORT_LAP_SECONDS, TrackerView, add_lap_next, end_day_next, status_next,
    status_of, stop_lap_next, system_pause_next, system_resume_next, with_laps,
};

verus! {

/// In every day of a well-formed tracker at most one lap is running, and
/// that lap is the last.
pub proof fn law_single_open_lap(st: AppState, key: Seq<char>, i: int, j: int)
    requires
        st.wf(),
        st@.ledger.contains_key(key),
        0 <= i < st@.ledger[key].laps.len(),
        0 <= j < st@.ledger[key].laps.len(),
        st@.ledger[key].laps[i].end_time is None,
        st@.ledger[key].laps[j].end_time is None,
    ensures
        i == j,
        i == st@.ledger[key].laps.len() - 1,
{
    lemma_records_wf_ledger(records_view(st.day_records@));
    assert(laps_wf(st@.ledger[key].laps));
    let laps = st@.ledger[key].laps;
    if i < laps.len() - 1 {
        assert(!laps[i].is_open());
    }
    if j < laps.len() - 1 {
        assert(!laps[j].is_open());
    }
}

/// Once a day is ended, its total is the exact sum of its laps' durations
/// (whenever that sum fits in a `u64`).
pub proof fn law_end_day_total(t: TrackerView, now: Moment)
    requires
        t.session is Some,
        t.ledger.contains_key(t.session->0.day_key),
        total_seconds(end_day_next(t, now).ledger[t.session->0.day_key].laps) <= u64::MAX,
    ensures
        end_day_next(t, now).ledger[t.session->0.day_key].total_duration == total_seconds(
            end_day_next(t, now).ledger[t.session->0.day_key].laps,
        ),
        !end_day_next(t, now).ledger[t.session->0.day_key].is_active,
        end_day_next(t, now).session is None,
{
}

/// Asking for the status twice at the same moment changes nothing the second
/// time, and reports the same figures.
pub proof fn law_status_idempotent(t: TrackerView, now: Moment)
    ensures
        status_next(status_next(t, now), now) == status_next(t, now),
        status_of(status_next(t, now), now) == status_of(t, now),
        status_next(t, now).ledger == t.ledger,
{
}

/// Two status queries add to the running lap no more seconds than the
/// monotonic clock advanced since the last tick before them.
pub proof fn law_status_counts_only_elapsed(t: TrackerView, first: Moment, second: Moment)
    requires
        t.session is Some,
        t.session->0.last_activity_time <= first.monotonic <= second.monotonic,
    ensures
        status_next(status_next(t, first), second).session->0.accumulated_seconds
            <= t.session->0.accumulated_seconds + (second.monotonic - t.session->0.last_activity_time),
        status_next(status_next(t, first), second).ledger == t.ledger,
{
}

/// A tick that comes more than `GAP_THRESHOLD` seconds after the last one
/// adds nothing to a running lap; it only moves the tick.
pub proof fn law_gap_excluded(t: TrackerView, now: Moment, k: u64)
    requires
        t.session is Some,
        t.session->0.pause_origin is None,
        k > 0,
        now.monotonic == t.session->0.last_activity_time + GAP_THRESHOLD + k,
    ensures
        status_next(t, now).session->0.accumulated_seconds == t.session->0.accumulated_seconds,
        status_next(t, now).session->0.last_activity_time == now.monotonic,
        status_of(t, now)->0.current_lap_duration == t.session->0.accumulated_seconds,
{
}

/// While the user has the session paused, a lock or a sleep keeps it paused
/// by the user, and an unlock or a wake changes nothing.
pub proof fn law_user_pause_survives_signals(t: TrackerView, now: Moment)
    requires
        t.session is Some,
        t.session->0.pause_origin == Some(PauseOrigin::User),
    ensures
        system_pause_next(t, now).session->0.pause_origin == Some(PauseOrigin::User),
        system_resume_next(t, now) == t,
{
}

/// After the user stops a lap, neither a lock or sleep followed by an unlock
/// or wake, nor an unlock or wake alone, resumes the session: it stays paused
/// by the user and no lap is opened. Starting a new lap resumes it.
pub proof fn law_user_pause_sticky(
    t: TrackerView,
    stop: Moment,
    pause: Moment,
    signal: Moment,
    resume: Moment,
)
    requires
        t.session is Some,
        t.session->0.pause_origin is None,
    ensures
        stop_lap_next(t, stop).session->0.pause_origin == Some(PauseOrigin::User),
        system_resume_next(stop_lap_next(t, stop), signal) == stop_lap_next(t, stop),
        system_pause_next(stop_lap_next(t, stop), pause).session->0.pause_origin == Some(
            PauseOrigin::User,
        ),
        system_resume_next(system_pause_next(stop_lap_next(t, stop), pause), signal)
            == system_pause_next(stop_lap_next(t, stop), pause),
        add_lap_next(stop_lap_next(t, stop), resume).session->0.pause_origin is None,
        add_lap_next(system_pause_next(stop_lap_next(t, stop), pause), resume).session->0.pause_origin
            is None,
{
}

/// Two status queries, each within `GAP_THRESHOLD` seconds of the tick before
/// it, add to the running lap exactly the seconds the monotonic clock advanced
/// (as long as the count fits in a `u64`).
pub proof fn law_status_counts_elapsed_exactly(t: TrackerView, first: Moment, second: Moment)
    requires
        t.session is Some,
        t.session->0.pause_origin is None,
        t.session->0.last_activity_time <= first.monotonic <= second.monotonic,
        first.monotonic - t.session->0.last_activity_time <= GAP_THRESHOLD,
        second.monotonic - first.monotonic <= GAP_THRESHOLD,
        t.session->0.accumulated_seconds + (second.monotonic - t.session->0.last_activity_time)
            <= u64::MAX,
    ensures
        status_next(status_next(t, first), second).session->0.accumulated_seconds
            == t.session->0.accumulated_seconds + (second.monotonic - t.session->0.last_activity_time),
{
}

/// Stopping a running lap that has counted fewer than `SHORT_LAP_SECONDS`
/// drops it and forgets its seconds; one that has counted that many or more
/// is closed with them.
pub proof fn law_short_lap_discard(t: TrackerView, now: Moment)
    requires
        t.session is Some,
        t.session->0.pause_origin is None,
        t.ledger.contains_key(t.session->0.day_key),
        has_open_lap(t.ledger[t.session->0.day_key].laps),
    ensures
        ({
            let s = t.session->0;
            let key = s.day_key;
            let seconds = s.accrue(now.monotonic).accumulated_seconds;
            let after = stop_lap_next(t, now);
            if seconds < SHORT_LAP_SECONDS {
                &&& after.ledger == with_laps(t.ledger, key, t.ledger[key].laps.drop_last())
                &&& after.session->0.accumulated_seconds == 0
            } else {
                &&& after.ledger == with_laps(
                    t.ledger,
                    key,
                    close_open_lap(t.ledger[key].laps, now.epoch, seconds),
                )
                &&& after.session->0.accumulated_seconds == seconds
            }
        }),
{
}

} // verus!
