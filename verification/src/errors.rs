//! Error taxonomy.
//!
//! Row-level malformation is never an error: the ingestion machine recovers
//! from it locally. Only two conditions surface to callers: a configuration
//! that the core must reject, and a day lookup that finds no samples. The
//! legacy behaviour returned a sentinel rate for a missing day but failed
//! hard for durations; this library resolves that inconsistency by making
//! every missing-day computation return [`SummaryError::NoData`].

use vstd::prelude::*;

verus! {

/// An invalid configuration value, rejected when the configuration is
/// constructed so that aggregation never runs with inverted bands or an
/// empty window.
#[derive(Clone, Copy, Debug, PartialEq, Eq, Structural)]
pub enum ConfigError {
    /// The cutpoints are not strictly ascending.
    CutpointsOutOfOrder,
    /// The epoch length is zero.
    ZeroEpoch,
    /// The day window holds no days.
    EmptyWindow,
}

/// A failure of a per-day summary computation.
#[derive(Clone, Copy, Debug, PartialEq, Eq, Structural)]
pub enum SummaryError {
    /// The requested day has no samples.
    NoData,
}

impl ConfigError {
    /// A short description of the error.
    pub fn message(&self) -> &'static str {
        match self {
            ConfigError::CutpointsOutOfOrder => "cutpoints must satisfy low < moderate < vigorous",
            ConfigError::ZeroEpoch => "epoch_seconds must be positive",
            ConfigError::EmptyWindow => "window_days must be positive",
        }
    }
}

impl SummaryError {
    /// A short description of the error.
    pub fn message(&self) -> &'static str {
        match self {
            SummaryError::NoData => "no data for the requested day",
        }
    }
}

} // verus!
