use vstd::prelude::*;

use crate::lap::{Lap, laps_wf};

verus! {

/// One calendar day's account, keyed by its date (YYYY-MM-DD, UTC).
#[derive(Debug)]
pub struct DayRecord {
    pub date: String,
    /// Seconds worked over the closed laps, fixed when the day is ended.
    pub total_duration: u64,
    /// In the order they were started.
    pub laps: Vec<Lap>,
    pub is_active: bool,
}

pub struct DayRecordView {
    pub date: Seq<char>,
    pub total_duration: u64,
    pub laps: Seq<Lap>,
    pub is_active: bool,
}

impl View for DayRecord {
    type V = DayRecordView;

    open spec fn view(&self) -> DayRecordView {
        DayRecordView {
            date: self.date@,
            total_duration: self.total_duration,
            laps: self.laps@,
            is_active: self.is_active,
        }
    }
}

impl DayRecord {
    /// A copy of this record.
    pub fn duplicate(&self) -> (r: DayRecord)
        ensures
            r@ == self@,
    {
        let laps = self.laps.clone();
        assert(laps@ =~= self.laps@);
        DayRecord {
            date: self.date.clone(),
            total_duration: self.total_duration,
            laps,
            is_active: self.is_active,
        }
    }
}

/// The ledger's records as values.
pub open spec fn records_view(records: Seq<DayRecord>) -> Seq<DayRecordView> {
    records.map_values(|r: DayRecord| r@)
}

pub open spec fn dates_unique(records: Seq<DayRecordView>) -> bool {
    forall|i: int, j: int|
        0 <= i < j < records.len() ==> #[trigger] records[i].date != #[trigger] records[j].date
}

/// The ledger, from date to that day's record.
pub open spec fn ledger_of(records: Seq<DayRecordView>) -> Map<Seq<char>, DayRecordView>
    decreases records.len(),
{
    if records.len() == 0 {
        Map::empty()
    } else {
        ledger_of(records.drop_last()).insert(records.last().date, records.last())
    }
}

/// Each date appears once, and every day's laps are well formed.
pub open spec fn records_wf(records: Seq<DayRecordView>) -> bool {
    &&& dates_unique(records)
    &&& forall|i: int| 0 <= i < records.len() ==> laps_wf(#[trigger] records[i].laps)
}

/// The same, over the ledger as a map.
pub open spec fn ledger_wf(ledger: Map<Seq<char>, DayRecordView>) -> bool {
    forall|k: Seq<char>| #[trigger] ledger.contains_key(k) ==> laps_wf(ledger[k].laps) && ledger[k].date == k
}

pub proof fn lemma_ledger_keys(records: Seq<DayRecordView>, k: Seq<char>)
    ensures
        ledger_of(records).contains_key(k) <==> exists|i: int| 0 <= i < records.len() && #[trigger] records[i].date == k,
    decreases records.len(),
{
    if records.len() > 0 {
        let front = records.drop_last();
        lemma_ledger_keys(front, k);
        if ledger_of(records).contains_key(k) {
            if records.last().date != k {
                let i = choose|i: int| 0 <= i < front.len() && #[trigger] front[i].date == k;
                assert(records[i] == front[i]);
            } else {
                assert(records[records.len() - 1].date == k);
            }
        }
        if exists|i: int| 0 <= i < records.len() && #[trigger] records[i].date == k {
            let i = choose|i: int| 0 <= i < records.len() && #[trigger] records[i].date == k;
            if i < records.len() - 1 {
                assert(front[i] == records[i]);
            }
        }
    }
}

pub proof fn lemma_ledger_lookup(records: Seq<DayRecordView>, i: int)
    requires
        dates_unique(records),
        0 <= i < records.len(),
    ensures
        ledger_of(records).contains_key(records[i].date),
        ledger_of(records)[records[i].date] == records[i],
    decreases records.len(),
{
    if i < records.len() - 1 {
        let front = records.drop_last();
        assert(front[i] == records[i]);
        lemma_ledger_lookup(front, i);
    }
}

pub proof fn lemma_ledger_update(records: Seq<DayRecordView>, i: int, v: DayRecordView)
    requires
        dates_unique(records),
        0 <= i < records.len(),
        v.date == records[i].date,
    ensures
        dates_unique(records.update(i, v)),
        ledger_of(records.update(i, v)) == ledger_of(records).insert(v.date, v),
    decreases records.len(),
{
    let r = records.update(i, v);
    assert(dates_unique(r)) by {
        assert forall|a: int, b: int| 0 <= a < b < r.len() implies #[trigger] r[a].date != #[trigger] r[b].date by {
            assert(r[a].date == records[a].date);
            assert(r[b].date == records[b].date);
        }
    }
    if i == records.len() - 1 {
        assert(r.drop_last() =~= records.drop_last());
        assert(ledger_of(r) =~= ledger_of(records).insert(v.date, v));
    } else {
        let front = records.drop_last();
        assert(r.drop_last() =~= front.update(i, v));
        lemma_ledger_update(front, i, v);
        assert(records.last().date != v.date) by {
            assert(records[records.len() - 1].date != records[i].date);
        }
        assert(ledger_of(r) =~= ledger_of(records).insert(v.date, v));
    }
}

pub proof fn lemma_ledger_push(records: Seq<DayRecordView>, v: DayRecordView)
    requires
        dates_unique(records),
        !ledger_of(records).contains_key(v.date),
    ensures
        dates_unique(records.push(v)),
        ledger_of(records.push(v)) == ledger_of(records).insert(v.date, v),
{
    let r = records.push(v);
    assert(r.drop_last() =~= records);
    assert forall|a: int, b: int| 0 <= a < b < r.len() implies #[trigger] r[a].date != #[trigger] r[b].date by {
        if b == records.len() {
            if r[a].date == v.date {
                assert(records[a].date == v.date);
                lemma_ledger_keys(records, v.date);
            }
        }
    }
}

pub proof fn lemma_records_wf_ledger(records: Seq<DayRecordView>)
    requires
        records_wf(records),
    ensures
        ledger_wf(ledger_of(records)),
{
    assert forall|k: Seq<char>| #[trigger] ledger_of(records).contains_key(k) implies laps_wf(
        ledger_of(records)[k].laps,
    ) && ledger_of(records)[k].date == k by {
        lemma_ledger_keys(records, k);
        let i = choose|i: int| 0 <= i < records.len() && #[trigger] records[i].date == k;
        lemma_ledger_lookup(records, i);
    }
}

/// Where the record of `date` stands in `records`, if it is there.
pub fn find_day(records: &Vec<DayRecord>, date: &String) -> (r: Option<usize>)
    ensures
        match r {
            Some(i) => i < records@.len() && records@[i as int].date@ == date@,
            None => forall|i: int| 0 <= i < records@.len() ==> #[trigger] records@[i].date@ != date@,
        },
{
    let mut i: usize = 0;
    while i < records.len()
        invariant
            i <= records@.len(),
            forall|j: int| 0 <= j < i ==> #[trigger] records@[j].date@ != date@,
        decreases records@.len() - i,
    {
        if records[i].date == *date {
            return Some(i);
        }
        i = i + 1;
    }
    None
}

} // verus!
