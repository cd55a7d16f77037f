use vstd::prelude::*;

verus! {

/// The last second of the year 9999: the latest epoch second whose date this
/// library keys a day by.
pub const MAX_EPOCH_SECONDS: u64 = 253402300799;

/// One reading of the two clocks. The monotonic one drives the accounting;
/// the wall clock (epoch seconds, UTC) is only recorded on laps and names the
/// day.
#[derive(Debug, Clone, Copy, PartialEq, Eq, Structural)]
pub struct Moment {
    pub monotonic: u64,
    pub epoch: u64,
}

/// The UTC calendar date of an epoch second, written YYYY-MM-DD.
pub uninterp spec fn utc_date_of(epoch: int) -> Seq<char>;

/// Relies on chrono's `DateTime::from_timestamp` and `DateTime::format` with
/// "%Y-%m-%d": the UTC date of the given second, which depends on it alone.
/// Every second up to `MAX_EPOCH_SECONDS` lies within chrono's range.
#[verifier::external_body]
fn utc_date(epoch: u64) -> (r: String)
    requires
        epoch <= MAX_EPOCH_SECONDS,
    ensures
        r@ == utc_date_of(epoch as int),
{
    match chrono::DateTime::from_timestamp(epoch as i64, 0) {
        Some(t) => t.format("%Y-%m-%d").to_string(),
        None => String::new(),
    }
}

/// The key of the day that `epoch` falls on.
pub fn day_key_at(epoch: u64) -> (r: String)
    requires
        epoch <= MAX_EPOCH_SECONDS,
    ensures
        r@ == utc_date_of(epoch as int),
{
    utc_date(epoch)
}

} // verus!
