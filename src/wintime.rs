//! Windows FILETIME conversion.
//!
//! A FILETIME counts 100-nanosecond ticks since 1601-01-01T00:00:00 UTC. The
//! library keeps a timestamp as whole microseconds since that epoch; the
//! calendar breakdown of a timestamp is computed by chrono.

use chrono::{Datelike, Timelike};
use vstd::prelude::*;

verus! {

/// Number of FILETIME ticks in one microsecond.
pub const TICKS_PER_MICRO: u64 = 10;

/// The largest microsecond count that a FILETIME can express.
pub const MAX_MICROS: u64 = 1844674407370955161;

/// A UTC instant, as whole microseconds since 1601-01-01T00:00:00 UTC.
#[derive(Clone, Copy, Debug, PartialEq, Eq, Structural, PartialOrd, Ord, Hash)]
pub struct WinTimestamp {
    pub micros: u64,
}

/// A UTC instant broken down into calendar fields (proleptic Gregorian).
#[derive(Clone, Copy, Debug, PartialEq, Eq, Structural, Hash)]
pub struct CivilDateTime {
    pub year: i32,
    pub month: u32,
    pub day: u32,
    pub hour: u32,
    pub minute: u32,
    pub second: u32,
    pub microsecond: u32,
}

/// The calendar fields of the instant `micros` microseconds after
/// 1601-01-01T00:00:00 UTC, as chrono computes them.
pub uninterp spec fn civil_of_micros(micros: int) -> CivilDateTime;

/// The epoch of Windows time, 1601-01-01T00:00:00.000000 UTC.
pub open spec fn win_epoch_civil() -> CivilDateTime {
    CivilDateTime {
        year: 1601,
        month: 1,
        day: 1,
        hour: 0,
        minute: 0,
        second: 0,
        microsecond: 0,
    }
}

impl WinTimestamp {
    /// A timestamp that a FILETIME can express.
    pub open spec fn wf(self) -> bool {
        self.micros <= MAX_MICROS
    }

    /// The calendar fields of this instant.
    pub fn to_civil(&self) -> (r: CivilDateTime)
        requires
            self.wf(),
        ensures
            r == civil_of_micros(self.micros as int),
            self.micros == 0 ==> r == win_epoch_civil(),
    {
        civil_from_micros(self.micros)
    }
}

/// Relies on chrono: `DateTime<Utc>` for 1601-01-01T00:00:00 plus
/// `TimeDelta::microseconds(micros)`, read back through `Datelike` and
/// `Timelike`. Adding a zero delta leaves the epoch unchanged.
#[verifier::external_body]
fn civil_from_micros(micros: u64) -> (r: CivilDateTime)
    requires
        micros <= MAX_MICROS,
    ensures
        r == civil_of_micros(micros as int),
        micros == 0 ==> r == win_epoch_civil(),
{
    let epoch = chrono::NaiveDate::from_ymd_opt(1601, 1, 1).unwrap().and_hms_opt(0, 0, 0).unwrap();
    let base = chrono::DateTime::<chrono::Utc>::from_naive_utc_and_offset(epoch, chrono::Utc);
    let t = base + chrono::TimeDelta::microseconds(micros as i64);
    CivilDateTime {
        year: t.year(),
        month: t.month(),
        day: t.day(),
        hour: t.hour(),
        minute: t.minute(),
        second: t.second(),
        microsecond: t.timestamp_subsec_micros(),
    }
}

/// Converts a FILETIME tick count to a timestamp. Ticks below one microsecond
/// are truncated.
pub fn convert_win_time(wintime: u64) -> (r: WinTimestamp)
    ensures
        r.micros == wintime / TICKS_PER_MICRO,
        r.wf(),
{
    WinTimestamp { micros: wintime / TICKS_PER_MICRO }
}

/// Encodes a timestamp as a FILETIME tick count, or `None` where the count
/// does not fit in 64 bits.
pub fn win_time_ticks(ts: WinTimestamp) -> (r: Option<u64>)
    ensures
        ts.wf() <==> r is Some,
        r matches Some(t) ==> t == ts.micros * TICKS_PER_MICRO,
{
    ts.micros.checked_mul(TICKS_PER_MICRO)
}

/// Converting ticks never reverses their order.
pub proof fn lemma_convert_monotonic(t1: u64, t2: u64)
    requires
        t1 <= t2,
    ensures
        t1 / TICKS_PER_MICRO <= t2 / TICKS_PER_MICRO,
{
    assert(t1 / 10 <= t2 / 10) by (nonlinear_arith)
        requires t1 <= t2;
}

/// Tick zero converts to zero microseconds, the epoch of Windows time. (That
/// the epoch's calendar fields are 1601-01-01T00:00:00 UTC is stated by the
/// `ensures` of `WinTimestamp::to_civil`.)
pub proof fn lemma_convert_zero_is_epoch()
    ensures
        0u64 / TICKS_PER_MICRO == 0,
{
}

/// Encoding a timestamp as ticks and converting back gives the same
/// timestamp; converting ticks and encoding them again loses only the ticks
/// below one microsecond.
pub proof fn lemma_round_trip(ts: WinTimestamp, ticks: u64)
    requires
        ts.wf(),
    ensures
        ts.micros * TICKS_PER_MICRO <= u64::MAX,
        ((ts.micros * TICKS_PER_MICRO) as u64) / TICKS_PER_MICRO == ts.micros,
        (ticks / TICKS_PER_MICRO) * TICKS_PER_MICRO <= ticks,
        ticks - (ticks / TICKS_PER_MICRO) * TICKS_PER_MICRO < TICKS_PER_MICRO as int,
{
    let m = ts.micros as int;
    assert(m * 10 <= u64::MAX) by (nonlinear_arith)
        requires m <= 1844674407370955161;
    assert((m * 10) / 10 == m) by (nonlinear_arith);
    let t = ticks as int;
    assert((t / 10) * 10 <= t && t - (t / 10) * 10 < 10) by (nonlinear_arith)
        requires t >= 0;
}

} // verus!
