//! The threshold-crossing alert state machine.

use vstd::prelude::*;

verus! {

/// The side of the threshold that the last processed sample fell on, or
/// `Unset` before any sample has been processed.
///
/// A sample equal to the threshold counts as below it (the `<=` rule).
#[derive(Clone, Copy, Debug, PartialEq, Eq, Structural)]
pub enum AlertState {
    Unset,
    BelowThreshold,
    AboveThreshold,
}

/// Which side of the threshold a metric falls on: at most the threshold is
/// below, strictly more is above. Never `Unset`.
pub open spec fn side_of(threshold: u64, metric: u64) -> AlertState {
    if metric <= threshold {
        AlertState::BelowThreshold
    } else {
        AlertState::AboveThreshold
    }
}

/// Computes the side of the threshold that `metric` falls on.
pub fn classify(threshold: u64, metric: u64) -> (r: AlertState)
    ensures
        r == side_of(threshold, metric),
{
    if metric <= threshold {
        AlertState::BelowThreshold
    } else {
        AlertState::AboveThreshold
    }
}

/// An alert: the metric crossed the threshold onto `side`, with the sample
/// `metric` that revealed the crossing.
#[derive(Clone, Copy, Debug, PartialEq, Eq, Structural)]
pub struct AlertEvent {
    pub side: AlertState,
    pub metric: u64,
}

/// One reading of the recommended-fee endpoint, reduced to the plain
/// values the library consumes. The fastest-fee rate is the metric that
/// drives the alert decision; the other two rates only appear in the
/// startup summary.
#[derive(Clone, Copy, Debug, PartialEq, Eq, Structural)]
pub struct FeeData {
    pub fastest_fee: u64,
    pub half_hour_fee: u64,
    pub hour_fee: u64,
}

/// A failed attempt to fetch the metric. All three variants are treated
/// identically: the tick is skipped and the state machine is left unchanged.
#[derive(Clone, Copy, Debug, PartialEq, Eq, Structural)]
pub enum FetchError {
    NetworkError,
    DecodeError,
    Timeout,
}

/// The state a debounced alerter moves to on processing `metric`: always the
/// side that `metric` falls on.
pub open spec fn next_state(threshold: u64, state: AlertState, metric: u64) -> AlertState {
    side_of(threshold, metric)
}

/// The event a debounced alerter emits on processing `metric` from `state`:
/// an alert exactly when a previous sample had been processed (`state` is not
/// `Unset`) and `metric` falls on the other side of the threshold.
pub open spec fn event_of(threshold: u64, state: AlertState, metric: u64) -> Option<AlertEvent> {
    if state == AlertState::Unset {
        None
    } else if side_of(threshold, metric) != state {
        Some(AlertEvent { side: side_of(threshold, metric), metric })
    } else {
        None
    }
}

/// Turns a stream of metric samples into a stream of alert events, with
/// exactly one event per threshold crossing.
///
/// The threshold and the poll interval are fixed at construction; only the
/// debounce state changes, and only through [`ThresholdAlerter::observe`]
/// (directly or via [`ThresholdAlerter::tick`]). The alerter performs no I/O:
/// the surrounding process fetches samples, hands them in, and delivers the
/// alerts that come back out.
pub struct ThresholdAlerter {
    threshold: u64,
    poll_interval_ms: u64,
    state: AlertState,
}

impl ThresholdAlerter {
    /// The fixed comparison value; crossing it triggers an alert.
    pub closed spec fn threshold(self) -> u64 {
        self.threshold
    }

    /// The fixed pause between ticks, in milliseconds.
    pub closed spec fn poll_interval_ms(self) -> u64 {
        self.poll_interval_ms
    }

    /// The side of the threshold that the last processed sample fell on, or
    /// `Unset` before any sample.
    pub closed spec fn state(self) -> AlertState {
        self.state
    }

    /// A fresh alerter: nothing observed yet, so no side to cross from.
    pub fn new(threshold: u64, poll_interval_ms: u64) -> (r: ThresholdAlerter)
        requires
            poll_interval_ms > 0,
        ensures
            r.threshold() == threshold,
            r.poll_interval_ms() == poll_interval_ms,
            r.state() == AlertState::Unset,
    {
        ThresholdAlerter { threshold, poll_interval_ms, state: AlertState::Unset }
    }

    /// Reads the threshold.
    pub fn get_threshold(&self) -> (r: u64)
        ensures
            r == self.threshold(),
    {
        self.threshold
    }

    /// Reads the poll interval, in milliseconds.
    pub fn get_poll_interval_ms(&self) -> (r: u64)
        ensures
            r == self.poll_interval_ms(),
    {
        self.poll_interval_ms
    }

    /// Reads the current debounce state.
    pub fn get_state(&self) -> (r: AlertState)
        ensures
            r == self.state(),
    {
        self.state
    }

    /// Feeds one successfully fetched sample into the state machine.
    ///
    /// The state always moves to the side `metric` falls on. An event comes
    /// back exactly when that side differs from the current state and the
    /// state is not `Unset`: the first sample only sets the initial side and
    /// never alerts, and repeat samples on the same side are suppressed.
    pub fn observe(&mut self, metric: u64) -> (r: Option<AlertEvent>)
        ensures
            final(self).threshold() == old(self).threshold(),
            final(self).poll_interval_ms() == old(self).poll_interval_ms(),
            final(self).state() == next_state(old(self).threshold(), old(self).state(), metric),
            r == event_of(old(self).threshold(), old(self).state(), metric),
    {
        let side = classify(self.threshold, metric);
        if self.state == AlertState::Unset {
            self.state = side;
            None
        } else if side != self.state {
            self.state = side;
            Some(AlertEvent { side, metric })
        } else {
            None
        }
    }

    /// Processes the outcome of one tick's fetch.
    ///
    /// A failed fetch never mutates the state and never produces an event:
    /// the tick is simply skipped, and the next successful sample is judged
    /// against the state from before the failure. A successful fetch is
    /// handed to [`ThresholdAlerter::observe`].
    pub fn tick(&mut self, outcome: Result<u64, FetchError>) -> (r: Option<AlertEvent>)
        ensures
            final(self).threshold() == old(self).threshold(),
            final(self).poll_interval_ms() == old(self).poll_interval_ms(),
            outcome matches Err(_) ==> *final(self) == *old(self) && r is None,
            outcome matches Ok(metric) ==> {
                &&& final(self).state() == next_state(old(self).threshold(), old(self).state(), metric)
                &&& r == event_of(old(self).threshold(), old(self).state(), metric)
            },
    {
        match outcome {
            Ok(metric) => self.observe(metric),
            Err(_) => None,
        }
    }
}

} // verus!
