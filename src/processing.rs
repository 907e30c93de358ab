use vstd::prelude::*;
use crate::distance::{calculate_distance_inches, distance_outcome};
use crate::error::AppError;
use crate::input::InputEvent;
use crate::platform::MonitorRegistry;
use crate::state::{sat_add, IntervalMetrics, MetricsState};

verus! {

/// Magnitude of a scroll amount.
pub open spec fn scroll_steps_of(amount: i32) -> u64 {
    if amount < 0 { (-amount) as u64 } else { amount as u64 }
}

/// The state after one event: counters grow, a move only records the position.
pub open spec fn apply_event_spec(s: MetricsState, e: InputEvent) -> MetricsState {
    match e {
        InputEvent::KeyPress => MetricsState {
            interval: IntervalMetrics { keypresses: sat_add(s.interval.keypresses, 1), ..s.interval },
            ..s
        },
        InputEvent::MouseClick => MetricsState {
            interval: IntervalMetrics { mouse_clicks: sat_add(s.interval.mouse_clicks, 1), ..s.interval },
            ..s
        },
        InputEvent::Scroll(d) => MetricsState {
            interval: IntervalMetrics {
                scroll_steps: sat_add(s.interval.scroll_steps, scroll_steps_of(d)),
                ..s.interval
            },
            ..s
        },
        InputEvent::MouseMove(x, y) => MetricsState { latest_mouse_x: x, latest_mouse_y: y, ..s },
    }
}

/// Applies a sequence of events in order.
pub open spec fn apply_events(s: MetricsState, evs: Seq<InputEvent>) -> MetricsState
    decreases evs.len(),
{
    if evs.len() == 0 {
        s
    } else {
        apply_event_spec(apply_events(s, evs.drop_last()), evs.last())
    }
}

/// What one processing tick did.
#[derive(Clone, Debug, PartialEq, Eq)]
pub enum TickOutcome {
    /// The pointer has not moved since the previous tick.
    Unchanged,
    /// The pointer moved; the distance in micro-inches was added.
    Moved(u64),
    /// The pointer moved but the distance could not be measured; nothing was added.
    Failed(AppError),
}

/// What the aggregator loop received: an event, a timer tick, or the end of the event source.
#[derive(Clone, Copy, Debug, PartialEq, Eq, Structural)]
pub enum AggregatorInput {
    Event(InputEvent),
    Tick,
    Closed,
}

/// What the aggregator loop does after handling one input.
#[derive(Clone, Debug, PartialEq, Eq)]
pub enum AggregatorStep {
    /// An event was applied; wait for the next input.
    Applied,
    /// A tick ran; wait for the next input.
    Ticked(TickOutcome),
    /// The event source closed; the loop ends and what was applied stays.
    Stop,
}

/// One turn of the aggregator loop: events are applied, ticks measure pointer travel,
/// and a closed source ends the loop without touching the state.
pub fn aggregate_metrics_step(state: &mut MetricsState, registry: &MonitorRegistry, input: AggregatorInput) -> (r: AggregatorStep)
    ensures
        match input {
            AggregatorInput::Event(e) => r == AggregatorStep::Applied && *final(state) == apply_event_spec(*old(state), e),
            AggregatorInput::Tick => r is Ticked,
            AggregatorInput::Closed => r == AggregatorStep::Stop && *final(state) == *old(state),
        },
        input is Tick && old(state).latest_mouse_x == old(state).last_calc_mouse_x
            && old(state).latest_mouse_y == old(state).last_calc_mouse_y ==> {
            &&& r == AggregatorStep::Ticked(TickOutcome::Unchanged)
            &&& *final(state) == *old(state)
        },
        input is Tick && !(old(state).latest_mouse_x == old(state).last_calc_mouse_x
            && old(state).latest_mouse_y == old(state).last_calc_mouse_y) ==> {
            &&& final(state).last_calc_mouse_x == old(state).latest_mouse_x
            &&& final(state).last_calc_mouse_y == old(state).latest_mouse_y
            &&& final(state).total == old(state).total
            &&& match r {
                AggregatorStep::Ticked(TickOutcome::Moved(d)) => {
                    &&& distance_outcome(*registry, old(state).last_calc_mouse_x, old(state).last_calc_mouse_y,
                        old(state).latest_mouse_x, old(state).latest_mouse_y, Ok(d))
                    &&& final(state).interval == (IntervalMetrics {
                        mouse_distance_micro_in: sat_add(old(state).interval.mouse_distance_micro_in, d),
                        ..old(state).interval
                    })
                },
                AggregatorStep::Ticked(TickOutcome::Failed(e)) => {
                    &&& distance_outcome(*registry, old(state).last_calc_mouse_x, old(state).last_calc_mouse_y,
                        old(state).latest_mouse_x, old(state).latest_mouse_y, Err(e))
                    &&& final(state).interval == old(state).interval
                },
                _ => false,
            }
        },
{
    match input {
        AggregatorInput::Event(e) => {
            apply_event(state, e);
            AggregatorStep::Applied
        },
        AggregatorInput::Tick => AggregatorStep::Ticked(processing_tick(state, registry)),
        AggregatorInput::Closed => AggregatorStep::Stop,
    }
}

/// Classifies one event and applies it to the shared state.
pub fn apply_event(state: &mut MetricsState, event: InputEvent)
    ensures
        *final(state) == apply_event_spec(*old(state), event),
{
    match event {
        InputEvent::KeyPress => state.interval.record_keypress(),
        InputEvent::MouseClick => state.interval.record_click(),
        InputEvent::Scroll(d) => {
            let steps: u64 = if d < 0 { (0i64 - d as i64) as u64 } else { d as u64 };
            state.interval.record_scroll(steps);
        },
        InputEvent::MouseMove(x, y) => {
            state.latest_mouse_x = x;
            state.latest_mouse_y = y;
        },
    }
}

/// Starts measuring from the latest known pointer position.
pub fn begin_processing(state: &mut MetricsState)
    ensures
        *final(state) == (MetricsState {
            last_calc_mouse_x: old(state).latest_mouse_x,
            last_calc_mouse_y: old(state).latest_mouse_y,
            ..*old(state)
        }),
{
    state.last_calc_mouse_x = state.latest_mouse_x;
    state.last_calc_mouse_y = state.latest_mouse_y;
}

/// The periodic step of the aggregator: when the pointer moved since the last
/// measurement, measures the move, adds it to the interval's travel and advances the
/// measured position. A failed measurement adds nothing but still advances the position.
pub fn processing_tick(state: &mut MetricsState, registry: &MonitorRegistry) -> (r: TickOutcome)
    ensures
        old(state).latest_mouse_x == old(state).last_calc_mouse_x
            && old(state).latest_mouse_y == old(state).last_calc_mouse_y ==> {
            &&& r == TickOutcome::Unchanged
            &&& *final(state) == *old(state)
        },
        !(old(state).latest_mouse_x == old(state).last_calc_mouse_x
            && old(state).latest_mouse_y == old(state).last_calc_mouse_y) ==> {
            let moved = MetricsState {
                last_calc_mouse_x: old(state).latest_mouse_x,
                last_calc_mouse_y: old(state).latest_mouse_y,
                ..*old(state)
            };
            match r {
                TickOutcome::Moved(d) => {
                    &&& distance_outcome(*registry, old(state).last_calc_mouse_x, old(state).last_calc_mouse_y,
                        old(state).latest_mouse_x, old(state).latest_mouse_y, Ok(d))
                    &&& *final(state) == (MetricsState {
                        interval: IntervalMetrics {
                            mouse_distance_micro_in: sat_add(old(state).interval.mouse_distance_micro_in, d),
                            ..old(state).interval
                        },
                        ..moved
                    })
                },
                TickOutcome::Failed(e) => {
                    &&& distance_outcome(*registry, old(state).last_calc_mouse_x, old(state).last_calc_mouse_y,
                        old(state).latest_mouse_x, old(state).latest_mouse_y, Err(e))
                    &&& *final(state) == moved
                },
                TickOutcome::Unchanged => false,
            }
        },
{
    let current_x = state.latest_mouse_x;
    let current_y = state.latest_mouse_y;
    let last_x = state.last_calc_mouse_x;
    let last_y = state.last_calc_mouse_y;
    if current_x == last_x && current_y == last_y {
        return TickOutcome::Unchanged;
    }
    let outcome = match calculate_distance_inches(registry, last_x, last_y, current_x, current_y) {
        Ok(d) => {
            state.interval.record_distance(d);
            TickOutcome::Moved(d)
        },
        Err(e) => TickOutcome::Failed(e),
    };
    state.last_calc_mouse_x = current_x;
    state.last_calc_mouse_y = current_y;
    outcome
}

pub open spec fn count_keypresses(evs: Seq<InputEvent>) -> int
    decreases evs.len(),
{
    if evs.len() == 0 {
        0
    } else {
        count_keypresses(evs.drop_last()) + if evs.last() is KeyPress { 1int } else { 0int }
    }
}

pub open spec fn count_clicks(evs: Seq<InputEvent>) -> int
    decreases evs.len(),
{
    if evs.len() == 0 {
        0
    } else {
        count_clicks(evs.drop_last()) + if evs.last() is MouseClick { 1int } else { 0int }
    }
}

pub open spec fn sum_scroll_steps(evs: Seq<InputEvent>) -> int
    decreases evs.len(),
{
    if evs.len() == 0 {
        0
    } else {
        sum_scroll_steps(evs.drop_last()) + match evs.last() {
            InputEvent::Scroll(d) => scroll_steps_of(d) as int,
            _ => 0int,
        }
    }
}

proof fn lemma_counts_nonneg(evs: Seq<InputEvent>)
    ensures
        count_keypresses(evs) >= 0,
        count_clicks(evs) >= 0,
        sum_scroll_steps(evs) >= 0,
    decreases evs.len(),
{
    if evs.len() > 0 {
        lemma_counts_nonneg(evs.drop_last());
    }
}

/// Conservation: applying events adds to the interval counters exactly the key presses,
/// clicks and scroll magnitudes among them, no more and no less (while the counts fit),
/// and leaves the travel and the totals alone; so the next reset hands out exactly what
/// was recorded since the previous one.
pub proof fn lemma_events_conserved(s: MetricsState, evs: Seq<InputEvent>)
    requires
        s.interval.keypresses + count_keypresses(evs) <= u64::MAX,
        s.interval.mouse_clicks + count_clicks(evs) <= u64::MAX,
        s.interval.scroll_steps + sum_scroll_steps(evs) <= u64::MAX,
    ensures
        apply_events(s, evs).interval.keypresses == s.interval.keypresses + count_keypresses(evs),
        apply_events(s, evs).interval.mouse_clicks == s.interval.mouse_clicks + count_clicks(evs),
        apply_events(s, evs).interval.scroll_steps == s.interval.scroll_steps + sum_scroll_steps(evs),
        apply_events(s, evs).interval.mouse_distance_micro_in == s.interval.mouse_distance_micro_in,
        apply_events(s, evs).total == s.total,
        apply_events(s, evs).interval.snapshot() == (crate::state::MetricsData {
            keypresses: (s.interval.keypresses + count_keypresses(evs)) as u64,
            mouse_clicks: (s.interval.mouse_clicks + count_clicks(evs)) as u64,
            scroll_steps: (s.interval.scroll_steps + sum_scroll_steps(evs)) as u64,
            mouse_distance_micro_in: s.interval.mouse_distance_micro_in,
        }),
    decreases evs.len(),
{
    if evs.len() > 0 {
        lemma_counts_nonneg(evs.drop_last());
        lemma_events_conserved(s, evs.drop_last());
    }
}

} // verus!
