//! The tuning state machine, the debounce gate, the silence timeout and
//! the session fence, driven with an explicit clock.

use guitar_tuner::analyzer::Analyzer;
use guitar_tuner::analyzer::SampleBuffer;
use guitar_tuner::analyzer::SessionControl;
use guitar_tuner::analyzer::SilenceTracker;
use guitar_tuner::analyzer::peak_exceeds_threshold;
use guitar_tuner::analyzer::select_channel;
use guitar_tuner::config::TunerConfig;
use guitar_tuner::tray::determine_color_with_hysteresis;
use guitar_tuner::tray::indicator_position;
use guitar_tuner::tray::TrayIconState;
use guitar_tuner::tray::TuningColor;

#[test]
fn hysteresis_settles_green_across_the_boundary() {
    // Cents oscillating 2, 4, 2, 4, 2 cross the 3-cent boundary but stay
    // within the hysteresis margin, so the zone settles and stays Green.
    let mut color: Option<TuningColor> = None;
    for cents in [200i64, 400, 200, 400, 200] {
        let next = determine_color_with_hysteresis(cents, color);
        assert_eq!(next, TuningColor::Green);
        color = Some(next);
    }
}

#[test]
fn hysteresis_requires_a_margin_to_leave_a_zone() {
    // Entering Yellow from Green takes more than 4 cents.
    let y = determine_color_with_hysteresis(450, Some(TuningColor::Green));
    assert_eq!(y, TuningColor::Yellow);
    // Returning to Green from Yellow takes 2 cents or less.
    assert_eq!(
        determine_color_with_hysteresis(250, Some(TuningColor::Yellow)),
        TuningColor::Yellow
    );
    assert_eq!(
        determine_color_with_hysteresis(200, Some(TuningColor::Yellow)),
        TuningColor::Green
    );
    // Red holds until the value drops below 9 cents.
    assert_eq!(
        determine_color_with_hysteresis(950, Some(TuningColor::Red)),
        TuningColor::Red
    );
    assert_eq!(
        determine_color_with_hysteresis(850, Some(TuningColor::Red)),
        TuningColor::Yellow
    );
    // First classification has no hysteresis.
    assert_eq!(determine_color_with_hysteresis(-1200, None), TuningColor::Red);
    assert_eq!(determine_color_with_hysteresis(500, None), TuningColor::Yellow);
}

#[test]
fn indicator_position_clamps_and_rounds() {
    assert_eq!(indicator_position(0), 0);
    assert_eq!(indicator_position(249), 2);
    assert_eq!(indicator_position(250), 3);
    assert_eq!(indicator_position(-250), -3);
    assert_eq!(indicator_position(9_000), 50);
    assert_eq!(indicator_position(-9_000), -50);
}

#[test]
fn debounce_applies_exactly_one_of_two_rapid_updates() {
    let mut state = TrayIconState::new();
    let mut applied = 0;

    // First request always passes.
    if state.should_update(TuningColor::Green, 0, 1_000) {
        state.update(TuningColor::Green, 0, 1_000);
        applied += 1;
    }
    // A second request 100 ms later with the same zone and a 1-unit move
    // must be a no-op.
    if state.should_update(TuningColor::Green, 1, 1_100) {
        state.update(TuningColor::Green, 1, 1_100);
        applied += 1;
    }
    assert_eq!(applied, 1);
    assert_eq!(state.last_update_millis, Some(1_000));

    // Past the interval but with the same zone and movement under three
    // units it is still a no-op.
    assert!(!state.should_update(TuningColor::Green, 2, 1_300));
    // A zone change past the interval passes.
    assert!(state.should_update(TuningColor::Red, 2, 1_300));
    // A three-unit move past the interval passes.
    assert!(state.should_update(TuningColor::Green, 3, 1_300));
}

#[test]
fn silence_fires_exactly_one_reset_per_quiet_spell() {
    let mut tracker = SilenceTracker::new();
    // Quiet before any detection fires nothing.
    assert!(!tracker.check_timeout(10_000));

    tracker.note_detection(10_000);
    assert!(!tracker.check_timeout(12_000));
    // More than three seconds without a detection: exactly one reset.
    assert!(tracker.check_timeout(13_001));
    // A second idle period without an intervening detection stays quiet.
    assert!(!tracker.check_timeout(20_000));
    assert!(!tracker.check_timeout(60_000));

    // A new detection re-arms the timeout.
    tracker.note_detection(60_000);
    assert!(tracker.check_timeout(63_500));
    assert!(!tracker.check_timeout(63_600));
}

#[test]
fn analyzer_reset_clears_history_and_tray() {
    let mut a = Analyzer::new();
    let stable = a.on_fundamental(82_000, 1_000);
    assert_eq!(stable, None);
    let stable = a.on_fundamental(82_400, 1_050);
    assert_eq!(stable, Some(82_400));

    let cfg = TunerConfig::new();
    let up = a.on_stable_frequency(82_400, 0, &cfg, 1_050);
    assert!(up.apply);
    assert_eq!(a.tray.last_color, Some(TuningColor::Green));

    // Silence for more than three seconds: one reset, everything cleared.
    assert!(a.on_tick(4_051));
    assert_eq!(a.history.len(), 0);
    assert_eq!(a.tray.last_color, None);
    assert_eq!(a.last_info.note_name.len(), 0);
    // And only one.
    assert!(!a.on_tick(8_000));
}

#[test]
fn analyzer_ignores_frequencies_outside_guitar_range() {
    let mut a = Analyzer::new();
    assert_eq!(a.on_fundamental(50_000, 100), None);
    assert_eq!(a.on_fundamental(500_000, 200), None);
    assert_eq!(a.history.len(), 0);
}

#[test]
fn analyzer_debounces_the_second_visual_update() {
    let mut a = Analyzer::new();
    let cfg = TunerConfig::new();
    let first = a.on_stable_frequency(440_000, 0, &cfg, 1_000);
    assert!(first.apply);
    let second = a.on_stable_frequency(440_000, 100, &cfg, 1_100);
    assert!(!second.apply);
    assert_eq!(a.tray.last_update_millis, Some(1_000));
}

#[test]
fn session_fence_stops_stale_loops() {
    let mut control = SessionControl::new();
    let first = control.begin_session();
    assert!(control.may_continue(first));

    control.request_stop();
    assert!(!control.may_continue(first));

    let second = control.begin_session();
    assert!(second > first);
    assert!(control.may_continue(second));
    // The stale session's identifier no longer passes the fence.
    assert!(!control.may_continue(first));
}

#[test]
fn sample_buffer_drops_oldest_on_overflow() {
    let mut buffer = SampleBuffer::new(1);
    let chunk: Vec<u32> = (0..16_390u32).collect();
    buffer.push_chunk(&chunk);
    assert_eq!(buffer.len(), 16_384);
    let snap = buffer.snapshot();
    // The six oldest samples were discarded from the front.
    assert_eq!(snap[0], 6);
    assert_eq!(snap[16_383], 16_389);

    buffer.clear();
    assert_eq!(buffer.len(), 0);
}

#[test]
fn sample_buffer_keeps_order_below_capacity() {
    let mut buffer = SampleBuffer::new(2);
    buffer.push_chunk(&vec![1, 2, 3]);
    buffer.push_chunk(&vec![4, 5]);
    assert_eq!(buffer.snapshot(), vec![1, 2, 3, 4, 5]);
}

#[test]
fn channel_selection_takes_every_other_sample() {
    let samples: Vec<u32> = vec![1, 2, 3, 4, 5];
    assert_eq!(select_channel(&samples, 2, 0), vec![1, 3, 5]);
    assert_eq!(select_channel(&samples, 2, 1), vec![2, 4, 5]);
}

#[test]
fn threshold_gate_is_strict() {
    // Ratio 2.0 in thousandths: the peak must strictly exceed twice the
    // noise floor.
    assert!(peak_exceeds_threshold(21, 10, 2_000));
    assert!(!peak_exceeds_threshold(20, 10, 2_000));
    assert!(!peak_exceeds_threshold(0, 0, 2_000));
}
