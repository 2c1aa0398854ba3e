//! The per-day aggregation engine.
//!
//! Three ascending cutpoints partition the magnitude axis into four
//! half-open intensity bands: sedentary below `low`, low from `low` up to
//! `moderate`, moderate from `moderate` up to `vigorous`, and vigorous from
//! `vigorous` on. Separately, each magnitude has an occupancy: positive,
//! zero, or the sentinel -1 that marks an epoch with no reading. One day's
//! summary turns the counts per band and per occupancy into clock
//! durations of `epoch_seconds` per sample, and derives the signed
//! magnitude total and two exact average rates.
//!
//! The -1 sentinel is also below every sensible `low` cutpoint, so it
//! counts both into the sedentary band and into the empty occupancy; the
//! legacy behaviour is preserved deliberately.
//!
//! Rates are kept as exact integer fractions rather than floating-point
//! approximations; rendering a fraction is the report's business. A day
//! with no samples yields [`SummaryError::NoData`] from every computation,
//! rates included: the legacy sentinel value for rates of a missing day is
//! deliberately not reproduced.

use crate::date::{ClockDuration, Date};
use crate::errors::{ConfigError, SummaryError};
use crate::ingest::{buckets_wf, has_date, samples_of_date, DayBucket, SeriesWindow};
use crate::rows::Sample;
use vstd::arithmetic::mul::{lemma_mul_strictly_positive, lemma_mul_upper_bound};
use vstd::prelude::*;

verus! {

/// The three ascending magnitude thresholds separating the four intensity
/// bands. Constructed only in strictly ascending order.
#[derive(Clone, Copy, Debug, PartialEq, Eq, Structural)]
pub struct Cutpoints {
    pub low: i64,
    pub moderate: i64,
    pub vigorous: i64,
}

impl Cutpoints {
    /// Valid cutpoints ascend strictly.
    pub open spec fn wf(self) -> bool {
        self.low < self.moderate < self.vigorous
    }

    /// Builds cutpoints, rejecting any ordering that would leave a band
    /// empty or inverted.
    pub fn new(low: i64, moderate: i64, vigorous: i64) -> (r: Result<Cutpoints, ConfigError>)
        ensures
            match r {
                Ok(c) => low < moderate < vigorous && c.low == low && c.moderate == moderate
                    && c.vigorous == vigorous && c.wf(),
                Err(e) => !(low < moderate < vigorous) && e == ConfigError::CutpointsOutOfOrder,
            },
    {
        if low < moderate && moderate < vigorous {
            Ok(Cutpoints { low, moderate, vigorous })
        } else {
            Err(ConfigError::CutpointsOutOfOrder)
        }
    }
}

/// The full aggregation configuration: the epoch length in seconds and
/// the band cutpoints.
#[derive(Clone, Copy, Debug, PartialEq, Eq, Structural)]
pub struct AggregateConfig {
    /// Seconds represented by one sample; always positive.
    pub epoch_seconds: u32,
    /// The band thresholds.
    pub cutpoints: Cutpoints,
}

impl AggregateConfig {
    /// A valid configuration has a positive epoch and ascending cutpoints.
    pub open spec fn wf(self) -> bool {
        self.epoch_seconds >= 1 && self.cutpoints.wf()
    }

    /// Builds an aggregation configuration, rejecting a zero epoch.
    pub fn new(epoch_seconds: u32, cutpoints: Cutpoints) -> (r: Result<
        AggregateConfig,
        ConfigError,
    >)
        requires
            cutpoints.wf(),
        ensures
            match r {
                Ok(c) => epoch_seconds >= 1 && c.epoch_seconds == epoch_seconds && c.cutpoints
                    == cutpoints && c.wf(),
                Err(e) => epoch_seconds == 0 && e == ConfigError::ZeroEpoch,
            },
    {
        if epoch_seconds == 0 {
            Err(ConfigError::ZeroEpoch)
        } else {
            Ok(AggregateConfig { epoch_seconds, cutpoints })
        }
    }
}

/// The four intensity bands.
#[derive(Clone, Copy, Debug, PartialEq, Eq, Structural)]
pub enum Band {
    Sedentary,
    Low,
    Moderate,
    Vigorous,
}

/// The occupancy of one epoch: a positive reading, a zero reading, the
/// -1 sentinel for no reading, or any other negative value (which the
/// sensor never produces).
#[derive(Clone, Copy, Debug, PartialEq, Eq, Structural)]
pub enum Occupancy {
    NonZero,
    Zero,
    Empty,
    Negative,
}

/// The band a magnitude falls into: the bands tile the whole magnitude
/// axis, so every magnitude falls into exactly one. The -1 sentinel falls
/// into the sedentary band, as the legacy rules have it.
pub open spec fn band_of(m: int, c: Cutpoints) -> Band {
    if m < c.low {
        Band::Sedentary
    } else if m < c.moderate {
        Band::Low
    } else if m < c.vigorous {
        Band::Moderate
    } else {
        Band::Vigorous
    }
}

/// The occupancy of a magnitude; every magnitude has exactly one.
pub open spec fn occupancy_of(m: int) -> Occupancy {
    if m > 0 {
        Occupancy::NonZero
    } else if m == 0 {
        Occupancy::Zero
    } else if m == -1 {
        Occupancy::Empty
    } else {
        Occupancy::Negative
    }
}

/// How many samples of the sequence fall into the given band.
pub open spec fn count_in_band(samples: Seq<Sample>, c: Cutpoints, b: Band) -> nat
    decreases samples.len(),
{
    if samples.len() == 0 {
        0
    } else {
        count_in_band(samples.drop_last(), c, b) + if band_of(
            samples.last().magnitude as int,
            c,
        ) == b {
            1nat
        } else {
            0nat
        }
    }
}

/// How many samples of the sequence have the given occupancy.
pub open spec fn count_in_occupancy(samples: Seq<Sample>, o: Occupancy) -> nat
    decreases samples.len(),
{
    if samples.len() == 0 {
        0
    } else {
        count_in_occupancy(samples.drop_last(), o) + if occupancy_of(samples.last().magnitude as int)
            == o {
            1nat
        } else {
            0nat
        }
    }
}

/// The signed sum of all magnitudes; the -1 sentinels subtract from it.
pub open spec fn sum_magnitudes(samples: Seq<Sample>) -> int
    decreases samples.len(),
{
    if samples.len() == 0 {
        0
    } else {
        sum_magnitudes(samples.drop_last()) + samples.last().magnitude
    }
}

/// The four band counts always add up to the sample count: the bands are
/// a complete, non-overlapping partition of all magnitudes, whatever the
/// cutpoints are.
pub proof fn lemma_bands_partition(samples: Seq<Sample>, c: Cutpoints)
    ensures
        count_in_band(samples, c, Band::Sedentary) + count_in_band(samples, c, Band::Low)
            + count_in_band(samples, c, Band::Moderate) + count_in_band(samples, c, Band::Vigorous)
            == samples.len(),
    decreases samples.len(),
{
    if samples.len() > 0 {
        lemma_bands_partition(samples.drop_last(), c);
    }
}

/// The band durations of a day always add up to `epoch_seconds` per
/// sample: with `n` samples, Sedentary + Low + Moderate + Vigorous is
/// exactly `epoch_seconds * n` seconds.
pub proof fn lemma_band_durations_partition(samples: Seq<Sample>, c: Cutpoints, epoch_seconds: u32)
    ensures
        epoch_seconds * count_in_band(samples, c, Band::Sedentary) + epoch_seconds * count_in_band(
            samples,
            c,
            Band::Low,
        ) + epoch_seconds * count_in_band(samples, c, Band::Moderate) + epoch_seconds
            * count_in_band(samples, c, Band::Vigorous) == epoch_seconds * samples.len(),
{
    lemma_bands_partition(samples, c);
    let s = count_in_band(samples, c, Band::Sedentary);
    let l = count_in_band(samples, c, Band::Low);
    let m = count_in_band(samples, c, Band::Moderate);
    let v = count_in_band(samples, c, Band::Vigorous);
    assert(epoch_seconds * s + epoch_seconds * l + epoch_seconds * m + epoch_seconds * v
        == epoch_seconds * (s + l + m + v)) by (nonlinear_arith);
}

/// When every magnitude is either the -1 sentinel or non-negative — the
/// guarantee the sensor data gives — the three occupancy counts NonZero,
/// Zero and Empty add up to the sample count.
pub proof fn lemma_occupancies_partition(samples: Seq<Sample>)
    requires
        forall|i: int|
            0 <= i < samples.len() ==> (#[trigger] samples[i]).magnitude == -1 || samples[i].magnitude
                >= 0,
    ensures
        count_in_occupancy(samples, Occupancy::NonZero) + count_in_occupancy(samples, Occupancy::Zero)
            + count_in_occupancy(samples, Occupancy::Empty) == samples.len(),
    decreases samples.len(),
{
    if samples.len() > 0 {
        assert(forall|i: int|
            0 <= i < samples.drop_last().len() ==> (#[trigger] samples.drop_last()[i]).magnitude
                == -1 || samples.drop_last()[i].magnitude >= 0);
        assert(samples.last() == samples[samples.len() - 1]);
        lemma_occupancies_partition(samples.drop_last());
    }
}

/// The occupancy durations under the same data guarantee: NonZero + Zero
/// + Empty is exactly `epoch_seconds * n` seconds.
pub proof fn lemma_occupancy_durations_partition(samples: Seq<Sample>, epoch_seconds: u32)
    requires
        forall|i: int|
            0 <= i < samples.len() ==> (#[trigger] samples[i]).magnitude == -1 || samples[i].magnitude
                >= 0,
    ensures
        epoch_seconds * count_in_occupancy(samples, Occupancy::NonZero) + epoch_seconds
            * count_in_occupancy(samples, Occupancy::Zero) + epoch_seconds * count_in_occupancy(
            samples,
            Occupancy::Empty,
        ) == epoch_seconds * samples.len(),
{
    lemma_occupancies_partition(samples);
    let nz = count_in_occupancy(samples, Occupancy::NonZero);
    let z = count_in_occupancy(samples, Occupancy::Zero);
    let e = count_in_occupancy(samples, Occupancy::Empty);
    assert(epoch_seconds * nz + epoch_seconds * z + epoch_seconds * e == epoch_seconds * (nz + z
        + e)) by (nonlinear_arith);
}

/// The magnitude sum is bounded by the sample count times the magnitude
/// range; this is what keeps the running total inside a 128-bit integer.
proof fn lemma_sum_magnitudes_bound(samples: Seq<Sample>)
    ensures
        -(samples.len() as int) * 0x8000_0000_0000_0000 <= sum_magnitudes(samples) <= (
        samples.len() as int) * 0x7fff_ffff_ffff_ffff,
    decreases samples.len(),
{
    if samples.len() > 0 {
        lemma_sum_magnitudes_bound(samples.drop_last());
    }
}

/// The band a magnitude falls into.
pub fn band_of_value(m: i64, c: &Cutpoints) -> (b: Band)
    ensures
        b == band_of(m as int, *c),
{
    if m < c.low {
        Band::Sedentary
    } else if m < c.moderate {
        Band::Low
    } else if m < c.vigorous {
        Band::Moderate
    } else {
        Band::Vigorous
    }
}

/// The occupancy of a magnitude.
pub fn occupancy_of_value(m: i64) -> (o: Occupancy)
    ensures
        o == occupancy_of(m as int),
{
    if m > 0 {
        Occupancy::NonZero
    } else if m == 0 {
        Occupancy::Zero
    } else if m == -1 {
        Occupancy::Empty
    } else {
        Occupancy::Negative
    }
}

/// Counts the samples falling into one band.
fn count_band_samples(samples: &Vec<Sample>, c: &Cutpoints, b: Band) -> (n: usize)
    ensures
        n == count_in_band(samples@, *c, b),
        n <= samples@.len(),
{
    let mut n: usize = 0;
    let mut i: usize = 0;
    while i < samples.len()
        invariant
            i <= samples@.len(),
            n == count_in_band(samples@.take(i as int), *c, b),
            n <= i,
        decreases samples@.len() - i,
    {
        proof {
            assert(samples@.take(i + 1).drop_last() =~= samples@.take(i as int));
            assert(samples@.take(i + 1).last() == samples@[i as int]);
        }
        if band_of_value(samples[i].magnitude, c) == b {
            n += 1;
        }
        i += 1;
    }
    proof {
        assert(samples@.take(samples@.len() as int) =~= samples@);
    }
    n
}

/// Counts the samples having one occupancy.
fn count_occupancy_samples(samples: &Vec<Sample>, o: Occupancy) -> (n: usize)
    ensures
        n == count_in_occupancy(samples@, o),
        n <= samples@.len(),
{
    let mut n: usize = 0;
    let mut i: usize = 0;
    while i < samples.len()
        invariant
            i <= samples@.len(),
            n == count_in_occupancy(samples@.take(i as int), o),
            n <= i,
        decreases samples@.len() - i,
    {
        proof {
            assert(samples@.take(i + 1).drop_last() =~= samples@.take(i as int));
            assert(samples@.take(i + 1).last() == samples@[i as int]);
        }
        if occupancy_of_value(samples[i].magnitude) == o {
            n += 1;
        }
        i += 1;
    }
    proof {
        assert(samples@.take(samples@.len() as int) =~= samples@);
    }
    n
}

/// Turns a sample count into a duration of `epoch_seconds` per sample.
fn count_to_duration(count: usize, epoch_seconds: u32) -> (d: ClockDuration)
    requires
        count <= u32::MAX,
    ensures
        d.total_seconds() == epoch_seconds * count,
{
    proof {
        lemma_mul_upper_bound(count as int, u32::MAX as int, epoch_seconds as int, u32::MAX as int);
    }
    ClockDuration::from_seconds((count as u64) * (epoch_seconds as u64))
}

/// The signed total of all magnitudes of a day.
fn total_counts(samples: &Vec<Sample>) -> (t: i128)
    ensures
        t == sum_magnitudes(samples@),
{
    let mut t: i128 = 0;
    let mut i: usize = 0;
    while i < samples.len()
        invariant
            i <= samples@.len(),
            t == sum_magnitudes(samples@.take(i as int)),
            -(i as int) * 0x8000_0000_0000_0000 <= t <= (i as int) * 0x7fff_ffff_ffff_ffff,
        decreases samples@.len() - i,
    {
        proof {
            assert(samples@.take(i + 1).drop_last() =~= samples@.take(i as int));
            assert(samples@.take(i + 1).last() == samples@[i as int]);
        }
        t = t + samples[i].magnitude as i128;
        i += 1;
    }
    proof {
        assert(samples@.take(samples@.len() as int) =~= samples@);
    }
    t
}

/// An exact average, kept as the integer fraction `num / den` with a
/// positive denominator; how many digits to show is the report's choice.
#[derive(Clone, Copy, Debug, PartialEq, Eq, Structural)]
pub struct Rate {
    pub num: i128,
    pub den: i128,
}

/// The duration spent in the sedentary band: `epoch_seconds` for every
/// sample with magnitude below `low` (the -1 sentinel included).
pub fn calc_total_sed(day: Option<&Vec<Sample>>, epoch_seconds: u32, cutpoints: &Cutpoints) -> (r:
    Result<ClockDuration, SummaryError>)
    requires
        day matches Some(s) ==> s@.len() <= u32::MAX,
    ensures
        match r {
            Ok(d) => day matches Some(s) && d.total_seconds() == epoch_seconds * count_in_band(
                s@,
                *cutpoints,
                Band::Sedentary,
            ),
            Err(e) => day is None && e == SummaryError::NoData,
        },
{
    match day {
        Some(s) => Ok(
            count_to_duration(count_band_samples(s, cutpoints, Band::Sedentary), epoch_seconds),
        ),
        None => Err(SummaryError::NoData),
    }
}

/// The duration spent in the low band: magnitudes from `low` up to but
/// excluding `moderate`.
pub fn calc_total_low(day: Option<&Vec<Sample>>, epoch_seconds: u32, cutpoints: &Cutpoints) -> (r:
    Result<ClockDuration, SummaryError>)
    requires
        day matches Some(s) ==> s@.len() <= u32::MAX,
    ensures
        match r {
            Ok(d) => day matches Some(s) && d.total_seconds() == epoch_seconds * count_in_band(
                s@,
                *cutpoints,
                Band::Low,
            ),
            Err(e) => day is None && e == SummaryError::NoData,
        },
{
    match day {
        Some(s) => Ok(count_to_duration(count_band_samples(s, cutpoints, Band::Low), epoch_seconds)),
        None => Err(SummaryError::NoData),
    }
}

/// The duration spent in the moderate band: magnitudes from `moderate`
/// up to but excluding `vigorous`.
pub fn calc_total_mod(day: Option<&Vec<Sample>>, epoch_seconds: u32, cutpoints: &Cutpoints) -> (r:
    Result<ClockDuration, SummaryError>)
    requires
        day matches Some(s) ==> s@.len() <= u32::MAX,
    ensures
        match r {
            Ok(d) => day matches Some(s) && d.total_seconds() == epoch_seconds * count_in_band(
                s@,
                *cutpoints,
                Band::Moderate,
            ),
            Err(e) => day is None && e == SummaryError::NoData,
        },
{
    match day {
        Some(s) => Ok(
            count_to_duration(count_band_samples(s, cutpoints, Band::Moderate), epoch_seconds),
        ),
        None => Err(SummaryError::NoData),
    }
}

/// The duration spent in the vigorous band: magnitudes at or above
/// `vigorous`.
pub fn calc_total_vig(day: Option<&Vec<Sample>>, epoch_seconds: u32, cutpoints: &Cutpoints) -> (r:
    Result<ClockDuration, SummaryError>)
    requires
        day matches Some(s) ==> s@.len() <= u32::MAX,
    ensures
        match r {
            Ok(d) => day matches Some(s) && d.total_seconds() == epoch_seconds * count_in_band(
                s@,
                *cutpoints,
                Band::Vigorous,
            ),
            Err(e) => day is None && e == SummaryError::NoData,
        },
{
    match day {
        Some(s) => Ok(
            count_to_duration(count_band_samples(s, cutpoints, Band::Vigorous), epoch_seconds),
        ),
        None => Err(SummaryError::NoData),
    }
}

/// The duration covered by positive readings.
pub fn calc_t_non_zero(day: Option<&Vec<Sample>>, epoch_seconds: u32) -> (r: Result<
    ClockDuration,
    SummaryError,
>)
    requires
        day matches Some(s) ==> s@.len() <= u32::MAX,
    ensures
        match r {
            Ok(d) => day matches Some(s) && d.total_seconds() == epoch_seconds * count_in_occupancy(
                s@,
                Occupancy::NonZero,
            ),
            Err(e) => day is None && e == SummaryError::NoData,
        },
{
    match day {
        Some(s) => Ok(
            count_to_duration(count_occupancy_samples(s, Occupancy::NonZero), epoch_seconds),
        ),
        None => Err(SummaryError::NoData),
    }
}

/// The duration covered by zero readings.
pub fn calc_t_zero(day: Option<&Vec<Sample>>, epoch_seconds: u32) -> (r: Result<
    ClockDuration,
    SummaryError,
>)
    requires
        day matches Some(s) ==> s@.len() <= u32::MAX,
    ensures
        match r {
            Ok(d) => day matches Some(s) && d.total_seconds() == epoch_seconds * count_in_occupancy(
                s@,
                Occupancy::Zero,
            ),
            Err(e) => day is None && e == SummaryError::NoData,
        },
{
    match day {
        Some(s) => Ok(count_to_duration(count_occupancy_samples(s, Occupancy::Zero), epoch_seconds)),
        None => Err(SummaryError::NoData),
    }
}

/// The duration covered by epochs with no reading (the -1 sentinel).
pub fn calc_t_empty(day: Option<&Vec<Sample>>, epoch_seconds: u32) -> (r: Result<
    ClockDuration,
    SummaryError,
>)
    requires
        day matches Some(s) ==> s@.len() <= u32::MAX,
    ensures
        match r {
            Ok(d) => day matches Some(s) && d.total_seconds() == epoch_seconds * count_in_occupancy(
                s@,
                Occupancy::Empty,
            ),
            Err(e) => day is None && e == SummaryError::NoData,
        },
{
    match day {
        Some(s) => Ok(
            count_to_duration(count_occupancy_samples(s, Occupancy::Empty), epoch_seconds),
        ),
        None => Err(SummaryError::NoData),
    }
}

/// The signed total of the day's magnitudes.
pub fn calc_tot_counts(day: Option<&Vec<Sample>>) -> (r: Result<i128, SummaryError>)
    ensures
        match r {
            Ok(t) => day matches Some(s) && t == sum_magnitudes(s@),
            Err(e) => day is None && e == SummaryError::NoData,
        },
{
    match day {
        Some(s) => Ok(total_counts(s)),
        None => Err(SummaryError::NoData),
    }
}

/// The average counts per minute, as the exact fraction
/// `60 * total / (n * epoch_seconds)`: the total divided by the minutes
/// the day's samples cover.
pub fn calc_ave_counts_min(day: Option<&Vec<Sample>>, epoch_seconds: u32) -> (r: Result<
    Rate,
    SummaryError,
>)
    requires
        epoch_seconds >= 1,
        day matches Some(s) ==> s@.len() <= u32::MAX,
    ensures
        match r {
            Ok(rate) => day matches Some(s) && s@.len() > 0 && rate.num == 60 * sum_magnitudes(s@)
                && rate.den == s@.len() * epoch_seconds && rate.den > 0,
            Err(e) => e == SummaryError::NoData && match day {
                Some(s) => s@.len() == 0,
                None => true,
            },
        },
{
    match day {
        Some(s) => {
            if s.len() == 0 {
                return Err(SummaryError::NoData);
            }
            let total = total_counts(s);
            proof {
                lemma_sum_magnitudes_bound(s@);
                lemma_mul_upper_bound(
                    s@.len() as int,
                    u32::MAX as int,
                    epoch_seconds as int,
                    u32::MAX as int,
                );
                lemma_mul_strictly_positive(s@.len() as int, epoch_seconds as int);
            }
            let num: i128 = 60 * total;
            let den: i128 = (s.len() as i128) * (epoch_seconds as i128);
            Ok(Rate { num, den })
        },
        None => Err(SummaryError::NoData),
    }
}

/// The average counts per epoch, as the exact fraction `total / n`: the
/// per-minute average divided by the epochs per minute reduces to it.
pub fn calc_ave_counts_epoch(day: Option<&Vec<Sample>>) -> (r: Result<Rate, SummaryError>)
    ensures
        match r {
            Ok(rate) => day matches Some(s) && s@.len() > 0 && rate.num == sum_magnitudes(s@)
                && rate.den == s@.len() && rate.den > 0,
            Err(e) => e == SummaryError::NoData && match day {
                Some(s) => s@.len() == 0,
                None => true,
            },
        },
{
    match day {
        Some(s) => {
            if s.len() == 0 {
                return Err(SummaryError::NoData);
            }
            let total = total_counts(s);
            Ok(Rate { num: total, den: s.len() as i128 })
        },
        None => Err(SummaryError::NoData),
    }
}

/// The weekday name of a date.
pub fn calc_weekday(date: &Date) -> (s: &'static str)
    ensures
        s@ == Date::spec_weekday_label(date.spec_weekday_index()),
{
    date.weekday_label()
}

/// One calendar day's summary row: the ordinal day number, the date and
/// its weekday, the four band durations, the three occupancy durations,
/// the signed magnitude total, and the two exact average rates.
#[derive(Clone, Copy, Debug)]
pub struct DaySummary {
    /// Ordinal position of the day in the report, starting at 1.
    pub day_index: usize,
    pub date: Date,
    /// Three-letter English weekday name.
    pub weekday: &'static str,
    /// Whether the date falls on Saturday or Sunday.
    pub weekend: bool,
    pub total_vigorous: ClockDuration,
    pub total_moderate: ClockDuration,
    pub total_low: ClockDuration,
    pub total_sedentary: ClockDuration,
    pub total_non_zero: ClockDuration,
    pub total_zero: ClockDuration,
    pub total_empty: ClockDuration,
    pub total_counts: i128,
    pub ave_counts_min: Rate,
    pub ave_counts_epoch: Rate,
}

/// Every field of a day's summary, pinned to the day's samples: the
/// durations count `epoch_seconds` per sample in each band and occupancy,
/// the total is the signed magnitude sum, and the rates are the exact
/// fractions the averages reduce to.
pub open spec fn summary_matches(
    s: DaySummary,
    day_index: int,
    date: Date,
    samples: Seq<Sample>,
    cfg: AggregateConfig,
) -> bool {
    &&& s.day_index == day_index
    &&& s.date == date
    &&& s.weekday@ == Date::spec_weekday_label(date.spec_weekday_index())
    &&& s.weekend == date.spec_is_weekend()
    &&& s.total_vigorous.total_seconds() == cfg.epoch_seconds * count_in_band(
        samples,
        cfg.cutpoints,
        Band::Vigorous,
    )
    &&& s.total_moderate.total_seconds() == cfg.epoch_seconds * count_in_band(
        samples,
        cfg.cutpoints,
        Band::Moderate,
    )
    &&& s.total_low.total_seconds() == cfg.epoch_seconds * count_in_band(
        samples,
        cfg.cutpoints,
        Band::Low,
    )
    &&& s.total_sedentary.total_seconds() == cfg.epoch_seconds * count_in_band(
        samples,
        cfg.cutpoints,
        Band::Sedentary,
    )
    &&& s.total_non_zero.total_seconds() == cfg.epoch_seconds * count_in_occupancy(
        samples,
        Occupancy::NonZero,
    )
    &&& s.total_zero.total_seconds() == cfg.epoch_seconds * count_in_occupancy(
        samples,
        Occupancy::Zero,
    )
    &&& s.total_empty.total_seconds() == cfg.epoch_seconds * count_in_occupancy(
        samples,
        Occupancy::Empty,
    )
    &&& s.total_counts == sum_magnitudes(samples)
    &&& s.ave_counts_min.num == 60 * sum_magnitudes(samples)
    &&& s.ave_counts_min.den == samples.len() * cfg.epoch_seconds
    &&& s.ave_counts_min.den > 0
    &&& s.ave_counts_epoch.num == sum_magnitudes(samples)
    &&& s.ave_counts_epoch.den == samples.len()
}

/// Summarizes one day's bucket into its report row. A day with no
/// samples yields `NoData`; nothing else fails.
pub fn summarize_day(day_index: usize, bucket: &DayBucket, config: &AggregateConfig) -> (r: Result<
    DaySummary,
    SummaryError,
>)
    requires
        config.wf(),
        bucket.samples@.len() <= u32::MAX,
    ensures
        match r {
            Ok(s) => bucket.samples@.len() > 0 && summary_matches(
                s,
                day_index as int,
                bucket.date,
                bucket.samples@,
                *config,
            ),
            Err(e) => bucket.samples@.len() == 0 && e == SummaryError::NoData,
        },
{
    if bucket.samples.len() == 0 {
        return Err(SummaryError::NoData);
    }
    let samples = &bucket.samples;
    let epoch = config.epoch_seconds;
    let c = &config.cutpoints;
    let total_vigorous = count_to_duration(count_band_samples(samples, c, Band::Vigorous), epoch);
    let total_moderate = count_to_duration(count_band_samples(samples, c, Band::Moderate), epoch);
    let total_low = count_to_duration(count_band_samples(samples, c, Band::Low), epoch);
    let total_sedentary = count_to_duration(count_band_samples(samples, c, Band::Sedentary), epoch);
    let total_non_zero = count_to_duration(
        count_occupancy_samples(samples, Occupancy::NonZero),
        epoch,
    );
    let total_zero = count_to_duration(count_occupancy_samples(samples, Occupancy::Zero), epoch);
    let total_empty = count_to_duration(count_occupancy_samples(samples, Occupancy::Empty), epoch);
    let total = total_counts(samples);
    proof {
        lemma_sum_magnitudes_bound(samples@);
        lemma_mul_upper_bound(samples@.len() as int, u32::MAX as int, epoch as int, u32::MAX as int);
        lemma_mul_strictly_positive(samples@.len() as int, epoch as int);
    }
    let ave_counts_min = Rate { num: 60 * total, den: (samples.len() as i128) * (epoch as i128) };
    let ave_counts_epoch = Rate { num: total, den: samples.len() as i128 };
    Ok(
        DaySummary {
            day_index,
            date: bucket.date,
            weekday: bucket.date.weekday_label(),
            weekend: bucket.date.is_weekend(),
            total_vigorous,
            total_moderate,
            total_low,
            total_sedentary,
            total_non_zero,
            total_zero,
            total_empty,
            total_counts: total,
            ave_counts_min,
            ave_counts_epoch,
        },
    )
}

/// The dates of a sequence of summary rows, in row order.
pub open spec fn summary_dates(r: Seq<DaySummary>) -> Seq<Date> {
    r.map_values(|s: DaySummary| s.date)
}

/// Summarizes a whole series window into its report rows, one per
/// collected date, in ascending calendar order, with ordinal day numbers
/// starting at 1.
pub fn summarize(window: &SeriesWindow, config: &AggregateConfig) -> (r: Vec<DaySummary>)
    requires
        config.wf(),
        buckets_wf(window@),
        forall|q: int| 0 <= q < window@.len() ==> (#[trigger] window@[q]).1.len() <= u32::MAX,
    ensures
        r@.len() == window@.len(),
        forall|i: int, j: int| 0 <= i < j < r@.len() ==> r@[i].date.days < r@[j].date.days,
        forall|i: int|
            #![trigger r@[i]]
            0 <= i < r@.len() ==> has_date(window@, r@[i].date) && summary_matches(
                r@[i],
                i + 1,
                r@[i].date,
                samples_of_date(window@, r@[i].date),
                *config,
            ),
        forall|q: int|
            0 <= q < window@.len() ==> summary_dates(r@).contains((#[trigger] window@[q]).0),
{
    let dates = window.sorted_dates();
    let mut out: Vec<DaySummary> = Vec::new();
    let n: usize = dates.len();
    let mut i: usize = 0;
    while i < n
        invariant
            config.wf(),
            buckets_wf(window@),
            forall|q: int| 0 <= q < window@.len() ==> (#[trigger] window@[q]).1.len() <= u32::MAX,
            n == dates@.len(),
            n == window@.len(),
            i <= n,
            forall|p: int, q: int| 0 <= p < q < dates@.len() ==> dates@[p].days < dates@[q].days,
            forall|k: int| 0 <= k < dates@.len() ==> has_date(window@, dates@[k]),
            forall|q: int| 0 <= q < window@.len() ==> dates@.contains((#[trigger] window@[q]).0),
            out@.len() == i,
            forall|k: int| 0 <= k < i ==> (#[trigger] out@[k]).date == dates@[k],
            forall|k: int|
                #![trigger out@[k]]
                0 <= k < i ==> has_date(window@, out@[k].date) && summary_matches(
                    out@[k],
                    k + 1,
                    out@[k].date,
                    samples_of_date(window@, out@[k].date),
                    *config,
                ),
        decreases n - i,
    {
        let d = dates[i];
        match window.get_bucket(&d) {
            Some(bucket) => {
                proof {
                    let q = choose|q: int|
                        0 <= q < window@.len() && window@[q] == (bucket.date, bucket.samples@);
                    assert(window@[q].1.len() <= u32::MAX);
                    assert(window@[q].1.len() > 0);
                }
                let s = match summarize_day(i + 1, bucket, config) {
                    Ok(s) => s,
                    Err(_) => unreached(),
                };
                let ghost old_out = out@;
                out.push(s);
                proof {
                    assert(forall|k: int|
                        0 <= k < old_out.len() ==> (#[trigger] out@[k]) == old_out[k]);
                    assert(out@[i as int] == s);
                    assert(s.date == d && bucket.samples@ == samples_of_date(window@, d));
                    assert(summary_matches(
                        s,
                        i + 1,
                        s.date,
                        samples_of_date(window@, s.date),
                        *config,
                    ));
                }
            },
            None => {
                proof {
                    assert(has_date(window@, d));
                }
                unreached()
            },
        }
        i += 1;
    }
    proof {
        assert(summary_dates(out@) =~= dates@);
    }
    out
}

} // verus!
