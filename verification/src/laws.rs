//! The laws the alerter obeys, stated and proved over the stream model.
//!
//! Each proof function here states a guarantee of the library for every
//! input its `requires` admits, in terms of the spec functions that the
//! contracts of [`crate::alerter::ThresholdAlerter`] and the stream model
//! in [`crate::stream`] are written with.

use vstd::prelude::*;

use crate::alerter::AlertEvent;
use crate::alerter::AlertState;
use crate::alerter::FetchError;
use crate::alerter::event_of;
use crate::alerter::next_state;
use crate::alerter::side_of;
use crate::stream::emitted;
use crate::stream::events_of;
use crate::stream::events_of_ticks;
use crate::stream::lemma_cons_step;
use crate::stream::lemma_emitted_cons;
use crate::stream::lemma_events_len;
use crate::stream::ok_metrics;
use crate::stream::state_after;
use crate::stream::state_after_ticks;
use crate::stream::tick_event;

verus! {

/// First-sample silence: whatever the threshold and the sample, a freshly
/// constructed alerter (state `Unset`) emits nothing — there is no side to
/// cross from.
pub proof fn lemma_first_sample_silent(threshold: u64, metric: u64)
    ensures
        event_of(threshold, AlertState::Unset, metric) is None,
        next_state(threshold, AlertState::Unset, metric) == side_of(threshold, metric),
{
}

/// Single alert per crossing: once a side has been set, a run of samples
/// that all fall on one side `s` of the threshold alerts at most once — at
/// its first sample, and only if `s` differs from the side already recorded.
/// Every later sample of the run is silent, and the run leaves the state at
/// `s`.
pub proof fn lemma_single_alert_per_crossing(
    threshold: u64,
    state: AlertState,
    metrics: Seq<u64>,
    s: AlertState,
)
    requires
        state != AlertState::Unset,
        forall|i: int| 0 <= i < metrics.len() ==> side_of(threshold, #[trigger] metrics[i]) == s,
    ensures
        metrics.len() > 0 ==> (events_of(threshold, state, metrics)[0] is Some <==> s != state),
        forall|i: int|
            1 <= i < metrics.len() ==> #[trigger] events_of(threshold, state, metrics)[i] is None,
        state_after(threshold, state, metrics) == if metrics.len() == 0 {
            state
        } else {
            s
        },
    decreases metrics.len(),
{
    if metrics.len() > 0 {
        let next = next_state(threshold, state, metrics[0]);
        assert(side_of(threshold, metrics[0]) == s);
        assert(next == s && s != AlertState::Unset);
        let rest = metrics.drop_first();
        assert(forall|i: int|
            0 <= i < rest.len() ==> side_of(threshold, #[trigger] rest[i]) == s) by {
            assert(forall|i: int| 0 <= i < rest.len() ==> rest[i] == metrics[i + 1]);
        }
        lemma_single_alert_per_crossing(threshold, next, rest, s);
        lemma_events_len(threshold, state, metrics);
        lemma_events_len(threshold, next, rest);
        let evs = events_of(threshold, state, metrics);
        let evs_rest = events_of(threshold, next, rest);
        assert(evs == seq![event_of(threshold, state, metrics[0])] + evs_rest);
        assert(forall|i: int| 1 <= i < metrics.len() ==> #[trigger] evs[i] == evs_rest[i - 1]);
        assert(rest.len() > 0 ==> (evs_rest[0] is Some <==> s != next));
        assert(forall|i: int| 1 <= i < metrics.len() ==> #[trigger] evs[i] is None);
    }
}

/// The debounce invariant over any stream: after at least one sample, the
/// state is exactly the side of the last sample processed, whatever it was
/// before.
pub proof fn lemma_state_tracks_last_sample(threshold: u64, state: AlertState, metrics: Seq<u64>)
    requires
        metrics.len() > 0,
    ensures
        state_after(threshold, state, metrics) == side_of(threshold, metrics.last()),
    decreases metrics.len(),
{
    if metrics.len() == 1 {
    } else {
        lemma_state_tracks_last_sample(
            threshold,
            next_state(threshold, state, metrics[0]),
            metrics.drop_first(),
        );
        assert(metrics.drop_first().last() == metrics.last());
    }
}

/// Fetch-failure transparency: a stream of tick outcomes drives the alerter
/// exactly as the successfully fetched samples alone would. Failed ticks
/// neither produce an alert nor suppress one, and leave the state where it
/// was.
pub proof fn lemma_fetch_failure_transparent(
    threshold: u64,
    state: AlertState,
    outcomes: Seq<Result<u64, FetchError>>,
)
    ensures
        state_after_ticks(threshold, state, outcomes) == state_after(
            threshold,
            state,
            ok_metrics(outcomes),
        ),
        emitted(events_of_ticks(threshold, state, outcomes)) == emitted(
            events_of(threshold, state, ok_metrics(outcomes)),
        ),
    decreases outcomes.len(),
{
    if outcomes.len() > 0 {
        let rest = outcomes.drop_first();
        match outcomes[0] {
            Ok(metric) => {
                let next = next_state(threshold, state, metric);
                lemma_fetch_failure_transparent(threshold, next, rest);
                assert(ok_metrics(outcomes) == seq![metric] + ok_metrics(rest));
                lemma_cons_step(threshold, state, metric, ok_metrics(rest));
                lemma_emitted_cons(
                    event_of(threshold, state, metric),
                    events_of(threshold, next, ok_metrics(rest)),
                );
                lemma_emitted_cons(
                    tick_event(threshold, state, outcomes[0]),
                    events_of_ticks(threshold, next, rest),
                );
            },
            Err(_) => {
                lemma_fetch_failure_transparent(threshold, state, rest);
                assert(ok_metrics(outcomes) =~= ok_metrics(rest));
                lemma_emitted_cons(None, events_of_ticks(threshold, state, rest));
            },
        }
    }
}

/// Oscillation: with threshold `T`, the stream `[T + 1, T - 1, T + 1]` fed
/// to a fresh alerter produces exactly two alerts — a down-crossing at the
/// second sample and an up-crossing at the third; the first sample only sets
/// the initial side.
pub proof fn lemma_oscillation(threshold: u64)
    requires
        1 <= threshold < u64::MAX,
    ensures
        ({
            let up = (threshold + 1) as u64;
            let down = (threshold - 1) as u64;
            let evs = events_of(threshold, AlertState::Unset, seq![up, down, up]);
            &&& evs.len() == 3
            &&& evs[0] is None
            &&& evs[1] == Some(AlertEvent { side: AlertState::BelowThreshold, metric: down })
            &&& evs[2] == Some(AlertEvent { side: AlertState::AboveThreshold, metric: up })
        }),
{
    let up = (threshold + 1) as u64;
    let down = (threshold - 1) as u64;
    lemma_cons_step(threshold, AlertState::Unset, up, seq![down, up]);
    lemma_cons_step(threshold, AlertState::AboveThreshold, down, seq![up]);
    lemma_cons_step(threshold, AlertState::BelowThreshold, up, Seq::empty());
    assert(seq![up, down, up] =~= seq![up] + seq![down, up]);
    assert(seq![down, up] =~= seq![down] + seq![up]);
    assert(seq![up] =~= seq![up] + Seq::<u64>::empty());
}

/// Boundary inclusivity: a sample exactly at the threshold counts as below
/// it, so `[T + 1, T]` down-crosses at the second sample, and `[T, T + 1]`
/// up-crosses at the second sample.
pub proof fn lemma_boundary_inclusive(threshold: u64)
    ensures
        side_of(threshold, threshold) == AlertState::BelowThreshold,
        threshold < u64::MAX ==> ({
            let up = (threshold + 1) as u64;
            let down_run = events_of(threshold, AlertState::Unset, seq![up, threshold]);
            let up_run = events_of(threshold, AlertState::Unset, seq![threshold, up]);
            &&& down_run =~= seq![
                None,
                Some(AlertEvent { side: AlertState::BelowThreshold, metric: threshold }),
            ]
            &&& up_run =~= seq![
                None,
                Some(AlertEvent { side: AlertState::AboveThreshold, metric: up }),
            ]
        }),
{
    if threshold < u64::MAX {
        let up = (threshold + 1) as u64;
        lemma_cons_step(threshold, AlertState::Unset, up, seq![threshold]);
        lemma_cons_step(threshold, AlertState::AboveThreshold, threshold, Seq::empty());
        lemma_cons_step(threshold, AlertState::Unset, threshold, seq![up]);
        lemma_cons_step(threshold, AlertState::BelowThreshold, up, Seq::empty());
        assert(seq![up, threshold] =~= seq![up] + seq![threshold]);
        assert(seq![threshold, up] =~= seq![threshold] + seq![up]);
        assert(seq![threshold] =~= seq![threshold] + Seq::<u64>::empty());
        assert(seq![up] =~= seq![up] + Seq::<u64>::empty());
    }
}

/// Delivery-failure independence: the delivery outcome is not an input to
/// the state machine, so a failed delivery cannot roll a transition back.
/// Once a sample emits an alert, the state already records the alert's side,
/// and the next sample on that same side is silent — the crossing is never
/// re-reported, whether or not the alert reached its channel.
pub proof fn lemma_delivery_failure_independent(
    threshold: u64,
    state: AlertState,
    metric: u64,
    later: u64,
)
    requires
        event_of(threshold, state, metric) is Some,
        side_of(threshold, later) == side_of(threshold, metric),
    ensures
        next_state(threshold, state, metric) == event_of(threshold, state, metric)->0.side,
        event_of(threshold, next_state(threshold, state, metric), later) is None,
{
}

} // verus!
