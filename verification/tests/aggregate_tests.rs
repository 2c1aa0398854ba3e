//! Tests of the daily aggregation engine: band and occupancy durations,
//! totals, exact rates, the band partition identities, and the error
//! taxonomy.

use activity_report::aggregate::{
    calc_ave_counts_epoch, calc_ave_counts_min, calc_t_empty, calc_t_non_zero, calc_t_zero,
    calc_tot_counts, calc_total_low, calc_total_mod, calc_total_sed, calc_total_vig, calc_weekday,
    summarize, summarize_day, AggregateConfig, Cutpoints, Rate,
};
use activity_report::date::{ClockDuration, Date, TimeOfDay};
use activity_report::errors::{ConfigError, SummaryError};
use activity_report::ingest::{DayBucket, SeriesWindow};
use activity_report::rows::Sample;

fn sample(day: u32, magnitude: i64) -> Sample {
    Sample {
        date: Date { days: day },
        time: TimeOfDay { seconds: 3600 },
        magnitude,
        vigorous: false,
        moderate: false,
        low: false,
        sedentary: false,
        con_vigorous: false,
        con_moderate: false,
    }
}

fn bucket(day: u32, magnitudes: &[i64]) -> DayBucket {
    DayBucket {
        date: Date { days: day },
        samples: magnitudes.iter().map(|m| sample(day, *m)).collect(),
    }
}

fn scenario_cutpoints() -> Cutpoints {
    Cutpoints::new(100, 2000, 6000).unwrap()
}

fn scenario_config() -> AggregateConfig {
    AggregateConfig::new(15, scenario_cutpoints()).unwrap()
}

fn seconds(d: ClockDuration) -> u64 {
    d.hours * 3600 + d.minutes as u64 * 60 + d.seconds as u64
}

#[test]
fn scenario_day_summary() {
    // Cutpoints (100, 2000, 6000), a 15-second epoch, and magnitudes
    // [-1, 0, 50, 150, 2500, 7000]. The -1 sentinel counts both into the
    // empty occupancy and into the sedentary band, which therefore holds
    // three samples: -1, 0 and 50.
    let b = bucket(3, &[-1, 0, 50, 150, 2500, 7000]);
    let s = summarize_day(1, &b, &scenario_config()).unwrap();
    assert_eq!(seconds(s.total_sedentary), 45);
    assert_eq!(seconds(s.total_low), 15);
    assert_eq!(seconds(s.total_moderate), 15);
    assert_eq!(seconds(s.total_vigorous), 15);
    assert_eq!(seconds(s.total_empty), 15);
    assert_eq!(seconds(s.total_zero), 15);
    assert_eq!(seconds(s.total_non_zero), 60);
    assert_eq!(s.total_counts, 9699);
}

#[test]
fn band_durations_sum_to_epoch_times_samples() {
    // Sedentary + Low + Moderate + Vigorous is the whole day's sampled
    // time: 6 samples of 15 seconds each.
    let b = bucket(3, &[-1, 0, 50, 150, 2500, 7000]);
    let s = summarize_day(1, &b, &scenario_config()).unwrap();
    let total = seconds(s.total_sedentary) + seconds(s.total_low) + seconds(s.total_moderate)
        + seconds(s.total_vigorous);
    assert_eq!(total, 15 * 6);
}

#[test]
fn occupancy_durations_sum_to_epoch_times_samples() {
    // NonZero + Zero + Empty covers the whole day as long as every
    // magnitude is the -1 sentinel, zero, or positive.
    let b = bucket(3, &[-1, 0, 50, 150, 2500, 7000]);
    let s = summarize_day(1, &b, &scenario_config()).unwrap();
    let total = seconds(s.total_non_zero) + seconds(s.total_zero) + seconds(s.total_empty);
    assert_eq!(total, 15 * 6);
}

#[test]
fn scenario_rates_are_exact_fractions() {
    // Average counts per minute is 60 * 9699 / (6 * 15) and average
    // counts per epoch is 9699 / 6, both kept exact.
    let b = bucket(3, &[-1, 0, 50, 150, 2500, 7000]);
    let s = summarize_day(1, &b, &scenario_config()).unwrap();
    assert_eq!(s.ave_counts_min, Rate { num: 60 * 9699, den: 90 });
    assert_eq!(s.ave_counts_epoch, Rate { num: 9699, den: 6 });
    // 60 * 9699 / 90 reduces to the whole number 6466.
    assert_eq!(s.ave_counts_min.num / s.ave_counts_min.den, 6466);
}

#[test]
fn calc_functions_on_a_present_day() {
    let b = bucket(3, &[-1, 0, 50, 150, 2500, 7000]);
    let day = Some(&b.samples);
    let c = scenario_cutpoints();
    assert_eq!(seconds(calc_total_sed(day, 15, &c).unwrap()), 45);
    assert_eq!(seconds(calc_total_low(day, 15, &c).unwrap()), 15);
    assert_eq!(seconds(calc_total_mod(day, 15, &c).unwrap()), 15);
    assert_eq!(seconds(calc_total_vig(day, 15, &c).unwrap()), 15);
    assert_eq!(seconds(calc_t_non_zero(day, 15).unwrap()), 60);
    assert_eq!(seconds(calc_t_zero(day, 15).unwrap()), 15);
    assert_eq!(seconds(calc_t_empty(day, 15).unwrap()), 15);
    assert_eq!(calc_tot_counts(day).unwrap(), 9699);
    assert_eq!(calc_ave_counts_min(day, 15).unwrap(), Rate { num: 581940, den: 90 });
    assert_eq!(calc_ave_counts_epoch(day).unwrap(), Rate { num: 9699, den: 6 });
}

#[test]
fn band_boundaries_are_half_open() {
    // A magnitude exactly at a cutpoint belongs to the band above it.
    let b = bucket(0, &[99, 100, 1999, 2000, 5999, 6000]);
    let s = summarize_day(1, &b, &scenario_config()).unwrap();
    assert_eq!(seconds(s.total_sedentary), 15);
    assert_eq!(seconds(s.total_low), 30);
    assert_eq!(seconds(s.total_moderate), 30);
    assert_eq!(seconds(s.total_vigorous), 15);
}

#[test]
fn missing_day_yields_no_data_everywhere() {
    let c = scenario_cutpoints();
    assert_eq!(calc_total_sed(None, 15, &c), Err(SummaryError::NoData));
    assert_eq!(calc_total_low(None, 15, &c), Err(SummaryError::NoData));
    assert_eq!(calc_total_mod(None, 15, &c), Err(SummaryError::NoData));
    assert_eq!(calc_total_vig(None, 15, &c), Err(SummaryError::NoData));
    assert_eq!(calc_t_non_zero(None, 15), Err(SummaryError::NoData));
    assert_eq!(calc_t_zero(None, 15), Err(SummaryError::NoData));
    assert_eq!(calc_t_empty(None, 15), Err(SummaryError::NoData));
    assert_eq!(calc_tot_counts(None), Err(SummaryError::NoData));
    assert_eq!(calc_ave_counts_min(None, 15), Err(SummaryError::NoData));
    assert_eq!(calc_ave_counts_epoch(None), Err(SummaryError::NoData));
}

#[test]
fn empty_bucket_yields_no_data() {
    let b = bucket(0, &[]);
    assert_eq!(
        summarize_day(1, &b, &scenario_config()).unwrap_err(),
        SummaryError::NoData
    );
}

#[test]
fn negative_total_counts() {
    // A day of nothing but sentinels sums below zero.
    let b = bucket(0, &[-1, -1, -1]);
    let s = summarize_day(1, &b, &scenario_config()).unwrap();
    assert_eq!(s.total_counts, -3);
    assert_eq!(seconds(s.total_empty), 45);
    assert_eq!(seconds(s.total_non_zero), 0);
}

#[test]
fn out_of_order_cutpoints_are_rejected() {
    assert_eq!(Cutpoints::new(100, 100, 6000), Err(ConfigError::CutpointsOutOfOrder));
    assert_eq!(Cutpoints::new(2000, 100, 6000), Err(ConfigError::CutpointsOutOfOrder));
    assert_eq!(Cutpoints::new(100, 6000, 2000), Err(ConfigError::CutpointsOutOfOrder));
    assert!(Cutpoints::new(100, 2000, 6000).is_ok());
}

#[test]
fn zero_epoch_is_rejected() {
    assert_eq!(
        AggregateConfig::new(0, scenario_cutpoints()),
        Err(ConfigError::ZeroEpoch)
    );
    assert!(AggregateConfig::new(15, scenario_cutpoints()).is_ok());
}

#[test]
fn weekday_of_summary_row() {
    let b = bucket(44925, &[5]);
    let s = summarize_day(1, &b, &scenario_config()).unwrap();
    // 2023-01-01 was a Sunday.
    assert_eq!(s.weekday, "Sun");
    assert!(s.weekend);
    assert_eq!(calc_weekday(&Date { days: 44925 }), "Sun");
}

#[test]
fn summarize_window_orders_days_and_numbers_them() {
    let mut w = SeriesWindow::new();
    w.append(sample(7, 1));
    w.append(sample(5, 2));
    w.append(sample(5, 3));
    w.append(sample(6, 4));
    let rows = summarize(&w, &scenario_config());
    assert_eq!(rows.len(), 3);
    let days: Vec<u32> = rows.iter().map(|r| r.date.days).collect();
    assert_eq!(days, vec![5, 6, 7]);
    let ordinals: Vec<usize> = rows.iter().map(|r| r.day_index).collect();
    assert_eq!(ordinals, vec![1, 2, 3]);
    assert_eq!(rows[0].total_counts, 5);
    assert_eq!(rows[1].total_counts, 4);
    assert_eq!(rows[2].total_counts, 1);
}
