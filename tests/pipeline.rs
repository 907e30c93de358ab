use etsu::config::{default_log_level, default_processing_interval, default_saving_interval, RemoteDatabaseSettings, Settings};
use etsu::input::{convert_event, InputEvent, MouseButton, RawEvent};
use etsu::lifecycle::{Lifecycle, LifecyclePhase, ShutdownReport};
use etsu::persistence::{
    after_action, load_initial_totals_from_metrics, load_initial_totals_from_summary, persistence_tick,
    seed_totals, totals_from_columns, transaction_action, StoredTotals, TxAction, TxPhase,
};
use etsu::platform::{MonitorInfo, MonitorRegistry};
use etsu::processing::{aggregate_metrics_step, begin_processing, processing_tick, AggregatorInput, AggregatorStep, TickOutcome};
use etsu::state::{MetricsData, MetricsState, TotalMetrics};
use std::time::Duration;

fn default_registry() -> MonitorRegistry {
    MonitorRegistry::initialized(vec![MonitorInfo {
        id_hash: 1,
        name: "default".to_string(),
        x: 0,
        y: 0,
        width_px: 1920,
        height_px: 1080,
        width_mm: 0,
        height_mm: 0,
        ppi_milli: 96_000,
    }])
}

/// Drives one transaction with the given outcomes; returns the actions asked for and the end phase.
fn drive(outcomes: &[bool]) -> (Vec<TxAction>, TxPhase) {
    let mut phase = TxPhase::Beginning;
    let mut actions = Vec::new();
    let mut i = 0;
    while let Some(a) = transaction_action(phase) {
        actions.push(a);
        let ok = if i < outcomes.len() { outcomes[i] } else { true };
        phase = after_action(phase, ok);
        i += 1;
    }
    (actions, phase)
}

#[test]
fn end_to_end_interval() {
    let registry = default_registry();
    let mut s = MetricsState::new();
    begin_processing(&mut s);
    for _ in 0..3 {
        assert_eq!(aggregate_metrics_step(&mut s, &registry, AggregatorInput::Event(InputEvent::KeyPress)), AggregatorStep::Applied);
    }
    aggregate_metrics_step(&mut s, &registry, AggregatorInput::Event(InputEvent::MouseClick));
    aggregate_metrics_step(&mut s, &registry, AggregatorInput::Event(InputEvent::MouseMove(0, 0)));
    aggregate_metrics_step(&mut s, &registry, AggregatorInput::Event(InputEvent::MouseMove(300, 0)));
    assert_eq!(
        aggregate_metrics_step(&mut s, &registry, AggregatorInput::Tick),
        AggregatorStep::Ticked(TickOutcome::Moved(3_125_000))
    );
    let delta = persistence_tick(&mut s).unwrap();
    assert_eq!(delta, MetricsData { keypresses: 3, mouse_clicks: 1, scroll_steps: 0, mouse_distance_micro_in: 3_125_000 });
    assert_eq!(s.total, TotalMetrics { keypresses: 3, mouse_clicks: 1, scroll_steps: 0, mouse_distance_micro_in: 3_125_000 });
    let (actions, end) = drive(&[true, true, true, true]);
    assert_eq!(actions, vec![TxAction::Begin, TxAction::InsertMetricsRow, TxAction::ApplySummaryDelta, TxAction::Commit]);
    assert_eq!(end, TxPhase::Done(true));
}

#[test]
fn tick_without_movement_changes_nothing() {
    let registry = default_registry();
    let mut s = MetricsState::new();
    let before = s;
    assert_eq!(processing_tick(&mut s, &registry), TickOutcome::Unchanged);
    assert_eq!(s, before);
}

#[test]
fn failed_measurement_still_advances_position() {
    let registry = MonitorRegistry::uninitialized();
    let mut s = MetricsState::new();
    aggregate_metrics_step(&mut s, &registry, AggregatorInput::Event(InputEvent::MouseMove(5, 5)));
    match processing_tick(&mut s, &registry) {
        TickOutcome::Failed(_) => {}
        other => panic!("unexpected {:?}", other),
    }
    assert_eq!(s.interval.mouse_distance_micro_in, 0);
    assert_eq!((s.last_calc_mouse_x, s.last_calc_mouse_y), (5, 5));
    assert_eq!(aggregate_metrics_step(&mut s, &registry, AggregatorInput::Closed), AggregatorStep::Stop);
}

#[test]
fn summary_failure_rolls_back() {
    let (actions, end) = drive(&[true, true, false]);
    assert_eq!(actions, vec![TxAction::Begin, TxAction::InsertMetricsRow, TxAction::ApplySummaryDelta, TxAction::Rollback]);
    assert_eq!(end, TxPhase::Done(false));
}

#[test]
fn insert_and_begin_failures() {
    let (actions, end) = drive(&[true, false]);
    assert_eq!(actions, vec![TxAction::Begin, TxAction::InsertMetricsRow, TxAction::Rollback]);
    assert_eq!(end, TxPhase::Done(false));
    let (actions, end) = drive(&[false]);
    assert_eq!(actions, vec![TxAction::Begin]);
    assert_eq!(end, TxPhase::Done(false));
    let (_, end) = drive(&[true, true, true, false]);
    assert_eq!(end, TxPhase::Done(false));
}

#[test]
fn secondary_failure_is_isolated() {
    let mut s = MetricsState::new();
    s.interval.record_keypress();
    let delta = persistence_tick(&mut s).unwrap();
    let (_, primary) = drive(&[true, true, true, true]);
    let (_, secondary) = drive(&[true, false]);
    assert_eq!(primary, TxPhase::Done(true));
    assert_eq!(secondary, TxPhase::Done(false));
    assert_eq!(s.total.keypresses, 1);
    assert_eq!(delta.keypresses, 1);
    s.interval.record_click();
    assert_eq!(persistence_tick(&mut s).unwrap().mouse_clicks, 1);
    assert_eq!(s.total.keypresses, 1);
    assert_eq!(s.total.mouse_clicks, 1);
}

#[test]
fn startup_totals_fallbacks() {
    let t = totals_from_columns(10, -3, 4, 2_000_000);
    assert_eq!(t, TotalMetrics { keypresses: 10, mouse_clicks: 0, scroll_steps: 4, mouse_distance_micro_in: 2_000_000 });
    assert_eq!(load_initial_totals_from_summary(StoredTotals::Found(t)), Some(t));
    assert_eq!(load_initial_totals_from_summary(StoredTotals::Absent), None);
    assert_eq!(load_initial_totals_from_summary(StoredTotals::Unreadable), None);
    assert_eq!(load_initial_totals_from_metrics(StoredTotals::Found(t)), t);
    assert_eq!(load_initial_totals_from_metrics(StoredTotals::Unreadable), TotalMetrics::new());
    assert_eq!(load_initial_totals_from_metrics(StoredTotals::Absent), TotalMetrics::new());
    let mut s = MetricsState::new();
    seed_totals(&mut s, t);
    s.interval.record_scroll(6);
    persistence_tick(&mut s);
    assert_eq!(s.total.scroll_steps, 10);
}

#[test]
fn event_conversion() {
    assert_eq!(convert_event(&RawEvent::KeyPress), Some(InputEvent::KeyPress));
    assert_eq!(convert_event(&RawEvent::ButtonPress(MouseButton::Left)), Some(InputEvent::MouseClick));
    assert_eq!(convert_event(&RawEvent::ButtonPress(MouseButton::Right)), Some(InputEvent::MouseClick));
    assert_eq!(convert_event(&RawEvent::ButtonPress(MouseButton::Middle)), None);
    assert_eq!(convert_event(&RawEvent::MouseMove { x: 3, y: -4 }), Some(InputEvent::MouseMove(3, -4)));
    assert_eq!(convert_event(&RawEvent::Wheel { delta_y: -2 }), Some(InputEvent::Scroll(2)));
    assert_eq!(convert_event(&RawEvent::Wheel { delta_y: 0 }), None);
    assert_eq!(convert_event(&RawEvent::Wheel { delta_y: i64::MIN }), Some(InputEvent::Scroll(i32::MAX)));
    assert_eq!(convert_event(&RawEvent::Other), None);
}

#[test]
fn settings_defaults() {
    let s = Settings::default();
    assert_eq!(s.intervals_ms.processing, 250);
    assert_eq!(s.intervals_ms.saving, 60000);
    assert_eq!(s.log_level, "info");
    assert_eq!(default_log_level(), "info");
    assert_eq!(default_processing_interval(), 250);
    assert_eq!(default_saving_interval(), 60000);
    assert_eq!(s.processing_interval(), Duration::from_millis(250));
    assert_eq!(s.saving_interval(), Duration::from_millis(60000));
    assert!(s.database.remote_url().is_none());
}

#[test]
fn remote_url_only_when_set() {
    let empty = RemoteDatabaseSettings { postgres_url: Some(String::new()) };
    assert!(empty.remote_url().is_none());
    let set = RemoteDatabaseSettings { postgres_url: Some("postgres://db".to_string()) };
    assert_eq!(set.remote_url().map(|u| u.as_str()), Some("postgres://db"));
}

#[test]
fn shutdown_sequence() {
    let mut l = Lifecycle::new();
    assert_eq!(l.on_tasks_settled(true, true), ShutdownReport { processing_abandoned: false, persistence_abandoned: false, close_stores: false });
    assert!(l.on_shutdown_signal());
    assert!(!l.on_shutdown_signal());
    assert_eq!(l.phase, LifecyclePhase::ShuttingDown);
    assert_eq!(l.on_tasks_settled(true, false), ShutdownReport { processing_abandoned: false, persistence_abandoned: true, close_stores: true });
    assert_eq!(l.phase, LifecyclePhase::Stopped);
    assert!(!l.on_shutdown_signal());
}
