use etsu::input::InputEvent;
use etsu::persistence::persistence_tick;
use etsu::processing::apply_event;
use etsu::state::{IntervalMetrics, MetricsData, MetricsState, TotalMetrics};

fn data(k: u64, c: u64, s: u64, d: u64) -> MetricsData {
    MetricsData { keypresses: k, mouse_clicks: c, scroll_steps: s, mouse_distance_micro_in: d }
}

#[test]
fn double_reset_yields_zero() {
    let mut m = IntervalMetrics::new();
    m.record_keypress();
    m.record_click();
    m.record_scroll(4);
    m.record_distance(1_500_000);
    assert_eq!(m.reset(), data(1, 1, 4, 1_500_000));
    assert_eq!(m.reset(), data(0, 0, 0, 0));
    assert!(m.reset().is_empty());
}

#[test]
fn conservation_across_resets() {
    let mut s = MetricsState::new();
    let events = [
        InputEvent::KeyPress,
        InputEvent::Scroll(-3),
        InputEvent::MouseClick,
        InputEvent::KeyPress,
        InputEvent::MouseMove(10, 20),
        InputEvent::Scroll(2),
    ];
    for e in events.iter() {
        apply_event(&mut s, *e);
    }
    let first = s.interval.reset();
    assert_eq!(first, data(2, 1, 5, 0));
    apply_event(&mut s, InputEvent::KeyPress);
    apply_event(&mut s, InputEvent::MouseClick);
    let second = s.interval.reset();
    assert_eq!(second, data(1, 1, 0, 0));
    assert_eq!(first.keypresses + second.keypresses, 3);
    assert_eq!(s.latest_mouse_x, 10);
    assert_eq!(s.latest_mouse_y, 20);
}

#[test]
fn conservation_many_events() {
    let mut s = MetricsState::new();
    let mut issued_keys: u64 = 0;
    let mut issued_clicks: u64 = 0;
    let mut issued_scroll: u64 = 0;
    let mut returned = TotalMetrics::new();
    for i in 0..10_000u64 {
        match i % 3 {
            0 => {
                apply_event(&mut s, InputEvent::KeyPress);
                issued_keys += 1;
            }
            1 => {
                apply_event(&mut s, InputEvent::MouseClick);
                issued_clicks += 1;
            }
            _ => {
                apply_event(&mut s, InputEvent::Scroll((i % 7) as i32));
                issued_scroll += i % 7;
            }
        }
        if i % 997 == 0 {
            let d = s.interval.reset();
            returned.add_interval(&d);
        }
    }
    let d = s.interval.reset();
    returned.add_interval(&d);
    assert_eq!(returned.keypresses, issued_keys);
    assert_eq!(returned.mouse_clicks, issued_clicks);
    assert_eq!(returned.scroll_steps, issued_scroll);
}

#[test]
fn counters_saturate_at_max() {
    let mut m = IntervalMetrics { keypresses: u64::MAX, mouse_clicks: 0, scroll_steps: u64::MAX - 1, mouse_distance_micro_in: 0 };
    m.record_keypress();
    m.record_scroll(5);
    assert_eq!(m.keypresses, u64::MAX);
    assert_eq!(m.scroll_steps, u64::MAX);
}

#[test]
fn totals_accumulate_from_startup_values() {
    let mut t = TotalMetrics { keypresses: 100, mouse_clicks: 20, scroll_steps: 7, mouse_distance_micro_in: 5_000_000 };
    let deltas = [data(1, 2, 3, 4), data(10, 0, 0, 250_000), data(0, 5, 1, 0)];
    for d in deltas.iter() {
        t.add_interval(d);
    }
    assert_eq!(t, TotalMetrics { keypresses: 111, mouse_clicks: 27, scroll_steps: 11, mouse_distance_micro_in: 5_250_004 });
}

#[test]
fn persistence_tick_merges_and_skips_empty() {
    let mut s = MetricsState::new();
    s.total = TotalMetrics { keypresses: 5, mouse_clicks: 5, scroll_steps: 5, mouse_distance_micro_in: 5 };
    assert_eq!(persistence_tick(&mut s), None);
    assert_eq!(s.total, TotalMetrics { keypresses: 5, mouse_clicks: 5, scroll_steps: 5, mouse_distance_micro_in: 5 });
    apply_event(&mut s, InputEvent::KeyPress);
    s.interval.record_distance(40);
    assert_eq!(persistence_tick(&mut s), Some(data(1, 0, 0, 40)));
    assert_eq!(s.total, TotalMetrics { keypresses: 6, mouse_clicks: 5, scroll_steps: 5, mouse_distance_micro_in: 45 });
    assert_eq!(s.interval, IntervalMetrics::new());
}
