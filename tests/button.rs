use pd_switch::button::{input_event_for, ButtonEvent, ButtonInternal, ButtonState, InputEvent};
use pd_switch::pins::{ButtonPin, MockButtonPin, MockTimeProvider, RealTimeProvider, TimeProvider};

fn create_test_button() -> (ButtonInternal, MockTimeProvider, MockButtonPin) {
    (ButtonInternal::new(50, 1000), MockTimeProvider::new(), MockButtonPin::new())
}

#[test]
fn test_mock_time_provider() {
    let mut provider = MockTimeProvider::new();
    let start_time = provider.now();
    provider.advance_time(100);
    let end_time = provider.now();
    assert_eq!(end_time - start_time, 100);
}

#[test]
fn test_mock_button_pin() {
    let mut pin = MockButtonPin::new();
    assert!(!pin.is_high());
    assert!(pin.is_low());
    pin.set_high();
    assert!(pin.is_high());
    assert!(!pin.is_low());
    pin.set_low();
    assert!(!pin.is_high());
    assert!(pin.is_low());
}

#[test]
fn mock_time_provider_set_time() {
    let mut provider = MockTimeProvider::new();
    provider.set_time(1234);
    assert_eq!(provider.now(), 1234);
    let _real = RealTimeProvider::new();
}

#[test]
fn test_short_press() {
    let (mut button, mut time, mut pin) = create_test_button();
    pin.set_high();
    assert_eq!(button.check_event(&time, &pin), ButtonEvent::NoEvent);
    time.advance_time(500);
    pin.set_low();
    assert_eq!(button.check_event(&time, &pin), ButtonEvent::ShortPress);
}

#[test]
fn test_button_standalone_test_long_press_immediate_trigger() {
    let (mut button, mut time, mut pin) = create_test_button();
    pin.set_high();
    assert_eq!(button.check_event(&time, &pin), ButtonEvent::NoEvent);
    time.advance_time(1000);
    assert_eq!(button.check_event(&time, &pin), ButtonEvent::LongPressStart);
    pin.set_low();
    assert_eq!(button.check_event(&time, &pin), ButtonEvent::LongPressEnd);
}

#[test]
fn test_button_standalone_test_bounce_filter() {
    let (mut button, mut time, mut pin) = create_test_button();
    pin.set_high();
    assert_eq!(button.check_event(&time, &pin), ButtonEvent::NoEvent);
    time.advance_time(30);
    pin.set_low();
    assert_eq!(button.check_event(&time, &pin), ButtonEvent::NoEvent);
}

#[test]
fn test_boundary_conditions() {
    let (mut button, mut time, mut pin) = create_test_button();
    pin.set_high();
    button.check_event(&time, &pin);
    time.advance_time(50);
    pin.set_low();
    assert_eq!(button.check_event(&time, &pin), ButtonEvent::ShortPress);

    button.reset();

    pin.set_high();
    button.check_event(&time, &pin);
    time.advance_time(1000);
    assert_eq!(button.check_event(&time, &pin), ButtonEvent::LongPressStart);
}

#[test]
fn test_double_trigger_prevention() {
    let (mut button, mut time, mut pin) = create_test_button();
    pin.set_high();
    assert_eq!(button.check_event(&time, &pin), ButtonEvent::NoEvent);
    time.advance_time(1000);
    assert_eq!(button.check_event(&time, &pin), ButtonEvent::LongPressStart);
    time.advance_time(2000);
    pin.set_low();
    assert_eq!(button.check_event(&time, &pin), ButtonEvent::LongPressEnd);
}

/// Presses the button, holds it for `duration_ms` and releases it, observing
/// it at the press and at the release only.
fn press_for(
    button: &mut ButtonInternal,
    time: &mut MockTimeProvider,
    pin: &mut MockButtonPin,
    duration_ms: u64,
) -> (ButtonEvent, ButtonEvent) {
    pin.set_high();
    let first = button.check_event(&*time, &*pin);
    time.advance_time(duration_ms);
    pin.set_low();
    let second = button.check_event(&*time, &*pin);
    (first, second)
}

#[test]
fn test_short_press_valid_range() {
    let (mut button, mut time, mut pin) = create_test_button();
    for duration_ms in [50u64, 100, 500, 999] {
        let (_, event) = press_for(&mut button, &mut time, &mut pin, duration_ms);
        assert_eq!(event, ButtonEvent::ShortPress, "Duration {}ms should trigger short press", duration_ms);
        assert_eq!(button.get_state(), ButtonState::Idle);
    }
}

#[test]
fn tests_test_long_press_immediate_trigger() {
    let (mut button, mut time, mut pin) = create_test_button();
    pin.set_high();
    button.check_event(&time, &pin);
    time.advance_time(1000);
    assert_eq!(
        button.check_event(&time, &pin),
        ButtonEvent::LongPressStart,
        "Long press should trigger immediately at 1000ms"
    );
    assert_eq!(button.get_state(), ButtonState::LongPressed);
    assert!(button.is_long_press_triggered());
}

#[test]
fn test_long_press_release_event() {
    let (mut button, mut time, mut pin) = create_test_button();
    pin.set_high();
    button.check_event(&time, &pin);
    time.advance_time(1000);
    assert_eq!(button.check_event(&time, &pin), ButtonEvent::LongPressStart);
    time.advance_time(2000);
    pin.set_low();
    assert_eq!(button.check_event(&time, &pin), ButtonEvent::LongPressEnd);
    assert_eq!(button.get_state(), ButtonState::Idle);
}

#[test]
fn tests_test_bounce_filter() {
    let (mut button, mut time, mut pin) = create_test_button();
    for duration_ms in [0u64, 10, 30, 49] {
        let (_, event) = press_for(&mut button, &mut time, &mut pin, duration_ms);
        assert_eq!(event, ButtonEvent::NoEvent, "Duration {}ms should be filtered as bounce", duration_ms);
        assert_eq!(button.get_state(), ButtonState::Idle);
    }
}

#[test]
fn test_exactly_boundary_conditions() {
    let (mut button, mut time, mut pin) = create_test_button();
    let (_, event) = press_for(&mut button, &mut time, &mut pin, 50);
    assert_eq!(event, ButtonEvent::ShortPress, "Exactly 50ms should be short press");
    let (_, event) = press_for(&mut button, &mut time, &mut pin, 999);
    assert_eq!(event, ButtonEvent::ShortPress, "Exactly 999ms should be short press");
    pin.set_high();
    button.check_event(&time, &pin);
    time.advance_time(1000);
    assert_eq!(
        button.check_event(&time, &pin),
        ButtonEvent::LongPressStart,
        "Exactly 1000ms should trigger long press"
    );
}

#[test]
fn test_long_press_no_duplicate_trigger() {
    let (mut button, mut time, mut pin) = create_test_button();
    pin.set_high();
    button.check_event(&time, &pin);
    time.advance_time(1000);
    assert_eq!(button.check_event(&time, &pin), ButtonEvent::LongPressStart);
    for _ in 0..10 {
        time.advance_time(1000);
        assert_eq!(button.check_event(&time, &pin), ButtonEvent::NoEvent);
    }
    assert!(button.is_long_press_triggered(), "Long press should remain triggered");
    pin.set_low();
    assert_eq!(button.check_event(&time, &pin), ButtonEvent::LongPressEnd);
}

#[test]
fn test_state_transitions() {
    let (mut button, mut time, mut pin) = create_test_button();
    pin.set_high();
    button.check_event(&time, &pin);
    assert_eq!(button.get_state(), ButtonState::WaitingRelease);
    time.advance_time(1000);
    assert_eq!(button.check_event(&time, &pin), ButtonEvent::LongPressStart);
    assert_eq!(button.get_state(), ButtonState::LongPressed);
    pin.set_low();
    assert_eq!(button.check_event(&time, &pin), ButtonEvent::LongPressEnd);
    assert_eq!(button.get_state(), ButtonState::Idle);
}

#[test]
fn test_very_long_press_scenarios() {
    let (mut button, mut time, mut pin) = create_test_button();
    pin.set_high();
    button.check_event(&time, &pin);
    time.advance_time(1000);
    assert_eq!(button.check_event(&time, &pin), ButtonEvent::LongPressStart);
    time.advance_time(29000);
    pin.set_low();
    assert_eq!(button.check_event(&time, &pin), ButtonEvent::LongPressEnd);
}

#[test]
fn test_double_trigger_bug() {
    let (mut button, mut time, mut pin) = create_test_button();
    pin.set_high();
    button.check_event(&time, &pin);
    time.advance_time(1000);
    let event1 = button.check_event(&time, &pin);
    assert_eq!(event1, ButtonEvent::LongPressStart, "Should trigger LongPressStart at 1000ms");
    time.advance_time(2000);
    pin.set_low();
    let event2 = button.check_event(&time, &pin);
    assert_eq!(event2, ButtonEvent::LongPressEnd, "Should trigger LongPressEnd on release");
    // only the end of the press toggles the mode
    assert_eq!(input_event_for(event1), None);
    assert_eq!(input_event_for(event2), Some(InputEvent::LongReleased));
}

#[test]
fn test_multiple_long_press_cycles() {
    let (mut button, mut time, mut pin) = create_test_button();
    for i in 0..3 {
        pin.set_high();
        button.check_event(&time, &pin);
        time.advance_time(1000);
        assert_eq!(button.check_event(&time, &pin), ButtonEvent::LongPressStart, "Cycle {}: LongPressStart", i);
        pin.set_low();
        assert_eq!(button.check_event(&time, &pin), ButtonEvent::LongPressEnd, "Cycle {}: LongPressEnd", i);
        assert_eq!(button.get_state(), ButtonState::Idle);
        time.advance_time(100);
    }
}

#[test]
fn test_rapid_press_after_long_press() {
    let (mut button, mut time, mut pin) = create_test_button();
    pin.set_high();
    button.check_event(&time, &pin);
    time.advance_time(1000);
    assert_eq!(button.check_event(&time, &pin), ButtonEvent::LongPressStart);
    pin.set_low();
    assert_eq!(button.check_event(&time, &pin), ButtonEvent::LongPressEnd);
    let (_, event3) = press_for(&mut button, &mut time, &mut pin, 100);
    assert_eq!(event3, ButtonEvent::ShortPress);
}

#[test]
fn test_edge_case_exactly_1000ms_hold() {
    let (mut button, mut time, mut pin) = create_test_button();
    pin.set_high();
    button.check_event(&time, &pin);
    time.advance_time(1000);
    // released at the very instant of the deadline: the deadline wins
    pin.set_low();
    assert_eq!(
        button.check_event(&time, &pin),
        ButtonEvent::LongPressStart,
        "Should trigger LongPressStart at exactly 1000ms"
    );
    assert_eq!(
        button.check_event(&time, &pin),
        ButtonEvent::LongPressEnd,
        "Should trigger LongPressEnd immediately after"
    );
}

#[test]
fn click_after_500ms() {
    let (mut button, mut time, mut pin) = create_test_button();
    let (first, second) = press_for(&mut button, &mut time, &mut pin, 500);
    assert_eq!(first, ButtonEvent::NoEvent);
    assert_eq!(second, ButtonEvent::ShortPress);
    assert_eq!(input_event_for(second), Some(InputEvent::Click));
}

#[test]
fn hold_start_fires_at_threshold_not_at_release() {
    let (mut button, mut time, mut pin) = create_test_button();
    time.set_time(10_000);
    pin.set_high();
    button.check_event(&time, &pin);
    assert_eq!(button.long_press_deadline(), Some(11_000));
    time.set_time(10_999);
    assert_eq!(button.check_event(&time, &pin), ButtonEvent::NoEvent);
    time.set_time(11_000);
    assert_eq!(button.check_event(&time, &pin), ButtonEvent::LongPressStart);
    time.set_time(40_000);
    assert_eq!(button.check_event(&time, &pin), ButtonEvent::NoEvent);
    pin.set_low();
    assert_eq!(button.check_event(&time, &pin), ButtonEvent::LongPressEnd);
    assert_eq!(button.long_press_deadline(), None);
}

#[test]
fn press_durations_classified() {
    for (d, expected) in [
        (0u64, ButtonEvent::NoEvent),
        (49, ButtonEvent::NoEvent),
        (50, ButtonEvent::ShortPress),
        (999, ButtonEvent::ShortPress),
    ] {
        let (mut button, mut time, mut pin) = create_test_button();
        let (_, event) = press_for(&mut button, &mut time, &mut pin, d);
        assert_eq!(event, expected, "duration {}", d);
    }
}

#[test]
fn repeated_cycles_return_to_idle() {
    let (mut button, mut time, mut pin) = create_test_button();
    let mut clicks = 0;
    for _ in 0..5 {
        let (_, event) = press_for(&mut button, &mut time, &mut pin, 200);
        if event == ButtonEvent::ShortPress {
            clicks += 1;
        }
        assert_eq!(button.get_state(), ButtonState::Idle);
        assert!(!button.is_long_press_triggered());
        time.advance_time(300);
    }
    assert_eq!(clicks, 5);
}

#[test]
fn clock_reading_earlier_than_press_counts_as_zero() {
    let (mut button, mut time, mut pin) = create_test_button();
    time.set_time(500);
    pin.set_high();
    button.check_event(&time, &pin);
    time.set_time(100);
    pin.set_low();
    assert_eq!(button.check_event(&time, &pin), ButtonEvent::NoEvent);
    assert_eq!(button.get_state(), ButtonState::Idle);
}

#[test]
fn button_active_follows_pin() {
    let (button, _time, mut pin) = create_test_button();
    assert!(!button.is_button_active(&pin));
    pin.set_high();
    assert!(button.is_button_active(&pin));
    assert_eq!(pin.get_state(), true);
}

#[test]
fn update_takes_plain_observations() {
    let mut button = ButtonInternal::new(50, 1000);
    assert_eq!(button.update(true, 0), ButtonEvent::NoEvent);
    assert_eq!(button.update(false, 60), ButtonEvent::ShortPress);
    assert_eq!(input_event_for(ButtonEvent::NoEvent), None);
}
