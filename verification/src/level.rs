//! Severity levels and the filter thresholds they map to.
use vstd::prelude::*;

verus! {

/// Severity of an event, or the threshold requested for a sink.
///
/// `Off` admits nothing, `Error` admits only error events, and each later
/// tier admits one more severity; `Trace` admits everything.
#[derive(Debug, Clone, Copy, PartialEq, Eq, Structural)]
pub enum Level {
    Error,
    Warn,
    Info,
    Debug,
    Trace,
    Off,
}

/// The threshold a sink currently applies to incoming events.
#[derive(Debug, Clone, Copy, PartialEq, Eq, Structural)]
pub enum SeverityFilter {
    Off,
    Error,
    Warn,
    Info,
    Debug,
    Trace,
}

impl Level {
    /// How many severity tiers a threshold of this level lets through.
    pub open spec fn verbosity(self) -> nat {
        match self {
            Level::Off => 0,
            Level::Error => 1,
            Level::Warn => 2,
            Level::Info => 3,
            Level::Debug => 4,
            Level::Trace => 5,
        }
    }

    /// The filter of the same tier as this level.
    pub open spec fn filter(self) -> SeverityFilter {
        match self {
            Level::Off => SeverityFilter::Off,
            Level::Error => SeverityFilter::Error,
            Level::Warn => SeverityFilter::Warn,
            Level::Info => SeverityFilter::Info,
            Level::Debug => SeverityFilter::Debug,
            Level::Trace => SeverityFilter::Trace,
        }
    }

    /// Maps the level to the filter threshold of the same tier.
    pub fn to_filter(&self) -> (f: SeverityFilter)
        ensures
            f == self.filter(),
            f.verbosity() == self.verbosity(),
    {
        match self {
            Level::Trace => SeverityFilter::Trace,
            Level::Debug => SeverityFilter::Debug,
            Level::Info => SeverityFilter::Info,
            Level::Warn => SeverityFilter::Warn,
            Level::Error => SeverityFilter::Error,
            Level::Off => SeverityFilter::Off,
        }
    }
}

impl SeverityFilter {
    /// How many severity tiers the filter lets through.
    pub open spec fn verbosity(self) -> nat {
        match self {
            SeverityFilter::Off => 0,
            SeverityFilter::Error => 1,
            SeverityFilter::Warn => 2,
            SeverityFilter::Info => 3,
            SeverityFilter::Debug => 4,
            SeverityFilter::Trace => 5,
        }
    }

    /// Whether an event tagged `event` passes the filter. No event is tagged
    /// `Off`, so that tag never passes.
    pub open spec fn admits(self, event: Level) -> bool {
        event != Level::Off && event.verbosity() <= self.verbosity()
    }

    /// Decides whether an event tagged `event` passes the filter.
    pub fn accepts(&self, event: Level) -> (yes: bool)
        ensures
            yes == self.admits(event),
    {
        let limit: u8 = match self {
            SeverityFilter::Off => 0,
            SeverityFilter::Error => 1,
            SeverityFilter::Warn => 2,
            SeverityFilter::Info => 3,
            SeverityFilter::Debug => 4,
            SeverityFilter::Trace => 5,
        };
        match event {
            Level::Off => false,
            Level::Error => 1 <= limit,
            Level::Warn => 2 <= limit,
            Level::Info => 3 <= limit,
            Level::Debug => 4 <= limit,
            Level::Trace => 5 <= limit,
        }
    }
}

} // verus!
