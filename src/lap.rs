use vstd::prelude::*;

verus! {

/// One contiguous stretch of tracked work. Times are epoch seconds (UTC).
#[derive(Debug, Clone, Copy, PartialEq, Eq, Structural)]
pub struct Lap {
    pub start_time: u64,
    pub end_time: Option<u64>,
    /// Seconds worked in this lap; set once, when the lap is closed.
    pub duration: Option<u64>,
}

impl Lap {
    /// A lap that is still running.
    pub open spec fn is_open(self) -> bool {
        self.end_time is None
    }

    /// An open lap has neither an end nor a duration; a closed one has both.
    pub open spec fn is_consistent(self) -> bool {
        (self.end_time is None) == (self.duration is None)
    }

    pub open spec fn opened(start: u64) -> Lap {
        Lap { start_time: start, end_time: None, duration: None }
    }

    pub open spec fn closed(self, end: u64, seconds: u64) -> Lap {
        Lap { start_time: self.start_time, end_time: Some(end), duration: Some(seconds) }
    }

    /// A new running lap that started at `start`.
    pub fn open_at(start: u64) -> (r: Lap)
        ensures
            r == Lap::opened(start),
    {
        Lap { start_time: start, end_time: None, duration: None }
    }
}

/// Every lap is consistent, and only the last one may still be running.
pub open spec fn laps_wf(laps: Seq<Lap>) -> bool {
    &&& forall|i: int| 0 <= i < laps.len() ==> #[trigger] laps[i].is_consistent()
    &&& forall|i: int| 0 <= i < laps.len() - 1 ==> !(#[trigger] laps[i].is_open())
}

pub open spec fn has_open_lap(laps: Seq<Lap>) -> bool {
    laps.len() > 0 && laps.last().is_open()
}

pub open spec fn lap_seconds(lap: Lap) -> nat {
    match lap.duration {
        Some(d) => d as nat,
        None => 0,
    }
}

/// The sum of the durations of the closed laps.
pub open spec fn total_seconds(laps: Seq<Lap>) -> nat
    decreases laps.len(),
{
    if laps.len() == 0 {
        0
    } else {
        total_seconds(laps.drop_last()) + lap_seconds(laps.last())
    }
}

/// A count of seconds held in a `u64`, which stops at its largest value.
pub open spec fn capped(n: nat) -> u64 {
    if n > u64::MAX {
        u64::MAX
    } else {
        n as u64
    }
}

/// Closes the running lap, if there is one, at `end` with `seconds` worked.
pub open spec fn close_open_lap(laps: Seq<Lap>, end: u64, seconds: u64) -> Seq<Lap> {
    if has_open_lap(laps) {
        laps.update(laps.len() - 1, laps.last().closed(end, seconds))
    } else {
        laps
    }
}

/// Drops the running lap, if there is one.
pub open spec fn discard_open_lap(laps: Seq<Lap>) -> Seq<Lap> {
    if has_open_lap(laps) {
        laps.drop_last()
    } else {
        laps
    }
}

pub proof fn lemma_close_keeps_wf(laps: Seq<Lap>, end: u64, seconds: u64)
    requires
        laps_wf(laps),
    ensures
        laps_wf(close_open_lap(laps, end, seconds)),
        !has_open_lap(close_open_lap(laps, end, seconds)),
        close_open_lap(laps, end, seconds).len() == laps.len(),
{
    let r = close_open_lap(laps, end, seconds);
    if laps.len() > 0 {
        assert(r.last() == r[laps.len() - 1]);
    }
}

pub proof fn lemma_discard_keeps_wf(laps: Seq<Lap>)
    requires
        laps_wf(laps),
    ensures
        laps_wf(discard_open_lap(laps)),
        !has_open_lap(discard_open_lap(laps)),
{
    let r = discard_open_lap(laps);
    if has_open_lap(laps) && r.len() > 0 {
        assert(r.last() == laps[laps.len() - 2]);
    } else if r.len() > 0 {
        assert(r.last() == laps[laps.len() - 1]);
    }
}

pub proof fn lemma_push_open_keeps_wf(laps: Seq<Lap>, start: u64)
    requires
        laps_wf(laps),
        !has_open_lap(laps),
    ensures
        laps_wf(laps.push(Lap::opened(start))),
        has_open_lap(laps.push(Lap::opened(start))),
{
    let r = laps.push(Lap::opened(start));
    assert forall|i: int| 0 <= i < r.len() - 1 implies !(#[trigger] r[i].is_open()) by {
        if i == laps.len() - 1 {
            assert(laps.last() == laps[i]);
        }
    }
}

/// Whether the last lap is still running.
pub fn has_open(laps: &Vec<Lap>) -> (r: bool)
    ensures
        r == has_open_lap(laps@),
{
    let n = laps.len();
    if n == 0 {
        false
    } else {
        laps[n - 1].end_time.is_none()
    }
}

/// The sum of the durations of the closed laps, held at `u64::MAX` should it
/// not fit.
pub fn completed_total(laps: &Vec<Lap>) -> (r: u64)
    ensures
        r == capped(total_seconds(laps@)),
{
    let mut sum: u64 = 0;
    let mut i: usize = 0;
    while i < laps.len()
        invariant
            i <= laps@.len(),
            sum == capped(total_seconds(laps@.subrange(0, i as int))),
        decreases laps@.len() - i,
    {
        let lap = laps[i];
        let add: u64 = match lap.duration {
            Some(d) => d,
            None => 0,
        };
        proof {
            let next = laps@.subrange(0, i + 1);
            assert(next.drop_last() =~= laps@.subrange(0, i as int));
            assert(next.last() == lap);
        }
        sum = sum.saturating_add(add);
        i = i + 1;
    }
    assert(laps@.subrange(0, laps@.len() as int) =~= laps@);
    sum
}

/// Closes the running lap, if there is one.
pub fn close_open(laps: &mut Vec<Lap>, end: u64, seconds: u64)
    ensures
        final(laps)@ == close_open_lap(old(laps)@, end, seconds),
{
    if has_open(laps) {
        let last = laps.pop().unwrap();
        laps.push(Lap { start_time: last.start_time, end_time: Some(end), duration: Some(seconds) });
        assert(final(laps)@ =~= close_open_lap(old(laps)@, end, seconds));
    }
}

/// Drops the running lap, if there is one.
pub fn discard_open(laps: &mut Vec<Lap>)
    ensures
        final(laps)@ == discard_open_lap(old(laps)@),
{
    if has_open(laps) {
        let _ = laps.pop();
    }
}

} // verus!
