//! Stream-level model of the alerter, and a verified driver over it.
//!
//! [`crate::alerter::ThresholdAlerter::observe`] and
//! [`crate::alerter::ThresholdAlerter::tick`] are specified one step at a
//! time, over [`crate::alerter::next_state`] and
//! [`crate::alerter::event_of`]. The spec functions here iterate that step
//! over a whole stream of samples (or of fetch outcomes); the laws in
//! [`crate::laws`] are stated over them, and
//! [`ThresholdAlerter::run_ticks`] is the executable counterpart: it feeds
//! a whole stream of fetch outcomes through the machine and provably
//! produces exactly the modelled results.

use vstd::prelude::*;

use crate::alerter::AlertEvent;
use crate::alerter::AlertState;
use crate::alerter::FetchError;
use crate::alerter::ThresholdAlerter;
use crate::alerter::event_of;
use crate::alerter::next_state;

verus! {

/// The debounce state after feeding every sample of `metrics`, in order,
/// into an alerter currently in `state`.
pub open spec fn state_after(threshold: u64, state: AlertState, metrics: Seq<u64>) -> AlertState
    decreases metrics.len(),
{
    if metrics.len() == 0 {
        state
    } else {
        state_after(threshold, next_state(threshold, state, metrics[0]), metrics.drop_first())
    }
}

/// The per-sample results of feeding every sample of `metrics`, in order,
/// into an alerter currently in `state`: one `Option<AlertEvent>` per sample.
pub open spec fn events_of(threshold: u64, state: AlertState, metrics: Seq<u64>) -> Seq<
    Option<AlertEvent>,
>
    decreases metrics.len(),
{
    if metrics.len() == 0 {
        Seq::empty()
    } else {
        seq![event_of(threshold, state, metrics[0])] + events_of(
            threshold,
            next_state(threshold, state, metrics[0]),
            metrics.drop_first(),
        )
    }
}

/// What one tick does to the debounce state: a fetch failure leaves it
/// unchanged, a sample moves it to the sample's side.
pub open spec fn tick_next(
    threshold: u64,
    state: AlertState,
    outcome: Result<u64, FetchError>,
) -> AlertState {
    match outcome {
        Ok(metric) => next_state(threshold, state, metric),
        Err(_) => state,
    }
}

/// What one tick emits: nothing on a fetch failure, otherwise whatever the
/// sample produces.
pub open spec fn tick_event(
    threshold: u64,
    state: AlertState,
    outcome: Result<u64, FetchError>,
) -> Option<AlertEvent> {
    match outcome {
        Ok(metric) => event_of(threshold, state, metric),
        Err(_) => None,
    }
}

/// The debounce state after a whole stream of fetch outcomes.
pub open spec fn state_after_ticks(
    threshold: u64,
    state: AlertState,
    outcomes: Seq<Result<u64, FetchError>>,
) -> AlertState
    decreases outcomes.len(),
{
    if outcomes.len() == 0 {
        state
    } else {
        state_after_ticks(threshold, tick_next(threshold, state, outcomes[0]), outcomes.drop_first())
    }
}

/// The per-tick results of a whole stream of fetch outcomes.
pub open spec fn events_of_ticks(
    threshold: u64,
    state: AlertState,
    outcomes: Seq<Result<u64, FetchError>>,
) -> Seq<Option<AlertEvent>>
    decreases outcomes.len(),
{
    if outcomes.len() == 0 {
        Seq::empty()
    } else {
        seq![tick_event(threshold, state, outcomes[0])] + events_of_ticks(
            threshold,
            tick_next(threshold, state, outcomes[0]),
            outcomes.drop_first(),
        )
    }
}

/// The successfully fetched samples of a stream of outcomes, in order.
pub open spec fn ok_metrics(outcomes: Seq<Result<u64, FetchError>>) -> Seq<u64>
    decreases outcomes.len(),
{
    if outcomes.len() == 0 {
        Seq::empty()
    } else {
        (match outcomes[0] {
            Ok(metric) => seq![metric],
            Err(_) => Seq::empty(),
        }) + ok_metrics(outcomes.drop_first())
    }
}

/// The alerts actually delivered out of a stream of per-tick results: the
/// `Some` entries, in order.
pub open spec fn emitted(events: Seq<Option<AlertEvent>>) -> Seq<AlertEvent>
    decreases events.len(),
{
    if events.len() == 0 {
        Seq::empty()
    } else {
        (match events[0] {
            Some(event) => seq![event],
            None => Seq::empty(),
        }) + emitted(events.drop_first())
    }
}

/// A stream of samples yields one per-sample result each.
pub proof fn lemma_events_len(threshold: u64, state: AlertState, metrics: Seq<u64>)
    ensures
        events_of(threshold, state, metrics).len() == metrics.len(),
    decreases metrics.len(),
{
    if metrics.len() > 0 {
        lemma_events_len(threshold, next_state(threshold, state, metrics[0]), metrics.drop_first());
    }
}

/// A stream of tick outcomes yields one per-tick result each.
pub proof fn lemma_events_of_ticks_len(
    threshold: u64,
    state: AlertState,
    outcomes: Seq<Result<u64, FetchError>>,
)
    ensures
        events_of_ticks(threshold, state, outcomes).len() == outcomes.len(),
    decreases outcomes.len(),
{
    if outcomes.len() > 0 {
        lemma_events_of_ticks_len(
            threshold,
            tick_next(threshold, state, outcomes[0]),
            outcomes.drop_first(),
        );
    }
}

/// Unfolding a one-step extension of a sample stream.
pub proof fn lemma_cons_step(threshold: u64, state: AlertState, metric: u64, rest: Seq<u64>)
    ensures
        state_after(threshold, state, seq![metric] + rest) == state_after(
            threshold,
            next_state(threshold, state, metric),
            rest,
        ),
        events_of(threshold, state, seq![metric] + rest) == seq![
            event_of(threshold, state, metric),
        ] + events_of(threshold, next_state(threshold, state, metric), rest),
{
    assert((seq![metric] + rest)[0] == metric);
    assert((seq![metric] + rest).drop_first() =~= rest);
}

/// Unfolding a one-step extension of a per-tick result stream.
pub proof fn lemma_emitted_cons(event: Option<AlertEvent>, rest: Seq<Option<AlertEvent>>)
    ensures
        emitted(seq![event] + rest) == (match event {
            Some(e) => seq![e],
            None => Seq::<AlertEvent>::empty(),
        }) + emitted(rest),
{
    assert((seq![event] + rest)[0] == event);
    assert((seq![event] + rest).drop_first() =~= rest);
}

impl ThresholdAlerter {
    /// Feeds a whole stream of fetch outcomes through the machine, in
    /// order, collecting each tick's result: the executable counterpart of
    /// [`events_of_ticks`] and [`state_after_ticks`].
    pub fn run_ticks(&mut self, outcomes: &Vec<Result<u64, FetchError>>) -> (results: Vec<
        Option<AlertEvent>,
    >)
        ensures
            final(self).threshold() == old(self).threshold(),
            final(self).poll_interval_ms() == old(self).poll_interval_ms(),
            final(self).state() == state_after_ticks(
                old(self).threshold(),
                old(self).state(),
                outcomes@,
            ),
            results@ == events_of_ticks(old(self).threshold(), old(self).state(), outcomes@),
    {
        let threshold = self.get_threshold();
        let ghost all = events_of_ticks(self.threshold(), self.state(), outcomes@);
        let ghost end = state_after_ticks(self.threshold(), self.state(), outcomes@);
        let mut results: Vec<Option<AlertEvent>> = Vec::new();
        let mut i: usize = 0;
        proof {
            assert(outcomes@.skip(0) =~= outcomes@);
            assert(results@ + all =~= all);
        }
        while i < outcomes.len()
            invariant
                i <= outcomes@.len(),
                self.threshold() == threshold,
                self.poll_interval_ms() == old(self).poll_interval_ms(),
                results@.len() == i,
                state_after_ticks(threshold, self.state(), outcomes@.skip(i as int)) == end,
                results@ + events_of_ticks(threshold, self.state(), outcomes@.skip(i as int))
                    == all,
            decreases outcomes@.len() - i,
        {
            proof {
                assert(outcomes@.skip(i as int)[0] == outcomes@[i as int]);
                assert(outcomes@.skip(i as int).drop_first() =~= outcomes@.skip(i as int + 1));
            }
            let ghost pending = events_of_ticks(threshold, self.state(), outcomes@.skip(i as int));
            let outcome = outcomes[i];
            let event = self.tick(outcome);
            results.push(event);
            i = i + 1;
            proof {
                let rest = events_of_ticks(threshold, self.state(), outcomes@.skip(i as int));
                assert(pending == seq![event] + rest);
                assert(results@ + rest =~= (results@.drop_last() + (seq![event] + rest)));
            }
        }
        proof {
            assert(outcomes@.skip(outcomes@.len() as int) =~= Seq::<Result<u64, FetchError>>::empty());
            assert(results@ + Seq::<Option<AlertEvent>>::empty() =~= results@);
        }
        results
    }
}

} // verus!
