//! Accelerometer epoch summaries.
//!
//! This library ingests a stream of spreadsheet-shaped rows holding wearable
//! sensor readings, restricts them to a configurable window of calendar days,
//! and aggregates each retained day into activity-band durations, occupancy
//! counts and count-rate statistics.
//!
//! The crate is organised as the data flows:
//! [`date`] holds the calendar model, [`rows`] classifies one raw row,
//! [`ingest`] folds classified rows into per-day buckets, and [`aggregate`]
//! turns one day's bucket into its summary row.

pub mod aggregate;
pub mod date;
pub mod errors;
pub mod ingest;
pub mod rows;
