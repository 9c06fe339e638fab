use vstd::prelude::*;

use crate::pins::{ButtonPin, TimeProvider};

verus! {

/// Where the detector stands within one press.
#[derive(PartialEq, Eq, Structural, Clone, Copy, Debug)]
pub enum ButtonState {
    /// Released, waiting for a press.
    Idle,
    /// Pressed, racing the release against the long-press deadline.
    WaitingRelease,
    /// Held past the long-press threshold, waiting for the release.
    LongPressed,
}

/// What one observation of the button produced.
#[derive(PartialEq, Eq, Structural, Clone, Copy, Debug)]
pub enum ButtonEvent {
    NoEvent,
    /// Released after at least the debounce interval and before the threshold.
    ShortPress,
    /// The long-press threshold was reached while held.
    LongPressStart,
    /// Released after a long press.
    LongPressEnd,
}

/// The gesture that the coordinators receive.
#[derive(PartialEq, Eq, Structural, Clone, Copy, Debug)]
pub enum InputEvent {
    /// A short press.
    Click,
    /// The end of a long press.
    LongReleased,
}

/// The detector's state as a plain value.
pub struct ButtonModel {
    pub debounce: u64,
    pub long_press: u64,
    pub state: ButtonState,
    pub press_start: Option<u64>,
    pub long_press_triggered: bool,
}

impl ButtonModel {
    /// A start time is known exactly while a press is in progress, and the
    /// long-press flag is set exactly while the press is a long one.
    pub open spec fn wf(self) -> bool {
        match self.state {
            ButtonState::Idle => self.press_start.is_none() && !self.long_press_triggered,
            ButtonState::WaitingRelease => self.press_start.is_some() && !self.long_press_triggered,
            ButtonState::LongPressed => self.press_start.is_some() && self.long_press_triggered,
        }
    }

    /// At rest, between presses.
    pub open spec fn is_idle(self) -> bool {
        self.state == ButtonState::Idle && self.press_start.is_none() && !self.long_press_triggered
    }
}

/// Time from `start` to `now`; zero if the clock reads earlier than `start`.
pub open spec fn elapsed_ms(start: u64, now: u64) -> int {
    if now >= start {
        now - start
    } else {
        0
    }
}

/// The same detector, back at rest.
pub open spec fn reset_model(m: ButtonModel) -> ButtonModel {
    ButtonModel { state: ButtonState::Idle, press_start: None, long_press_triggered: false, ..m }
}

/// One observation of the input level at time `now`: the next state and the
/// event it produces. The long-press deadline wins over a release seen at or
/// after it.
pub open spec fn step(m: ButtonModel, pin_high: bool, now: u64) -> (ButtonModel, ButtonEvent) {
    match m.state {
        ButtonState::Idle => {
            if pin_high {
                (
                    ButtonModel {
                        state: ButtonState::WaitingRelease,
                        press_start: Some(now),
                        long_press_triggered: false,
                        ..m
                    },
                    ButtonEvent::NoEvent,
                )
            } else {
                (m, ButtonEvent::NoEvent)
            }
        },
        ButtonState::WaitingRelease => match m.press_start {
            None => (reset_model(m), ButtonEvent::NoEvent),
            Some(start) => {
                let d = elapsed_ms(start, now);
                if d >= m.long_press {
                    (
                        ButtonModel {
                            state: ButtonState::LongPressed,
                            long_press_triggered: true,
                            ..m
                        },
                        ButtonEvent::LongPressStart,
                    )
                } else if pin_high {
                    (m, ButtonEvent::NoEvent)
                } else if d >= m.debounce {
                    (reset_model(m), ButtonEvent::ShortPress)
                } else {
                    (reset_model(m), ButtonEvent::NoEvent)
                }
            },
        },
        ButtonState::LongPressed => {
            if pin_high {
                (m, ButtonEvent::NoEvent)
            } else {
                (reset_model(m), ButtonEvent::LongPressEnd)
            }
        },
    }
}

/// The gesture that a detector event is published as: a short press is a
/// click, and the end of a long press toggles the system mode. The start of a
/// long press is feedback only and is not published.
pub open spec fn input_event_spec(e: ButtonEvent) -> Option<InputEvent> {
    match e {
        ButtonEvent::ShortPress => Some(InputEvent::Click),
        ButtonEvent::LongPressEnd => Some(InputEvent::LongReleased),
        _ => None,
    }
}

/// Maps a detector event to the gesture published on the event bus.
pub fn input_event_for(event: ButtonEvent) -> (r: Option<InputEvent>)
    ensures
        r == input_event_spec(event),
{
    match event {
        ButtonEvent::ShortPress => Some(InputEvent::Click),
        ButtonEvent::LongPressEnd => Some(InputEvent::LongReleased),
        _ => None,
    }
}

/// Debounce and click / long-press detection for one button.
pub struct ButtonInternal {
    debounce: u64,
    long_press: u64,
    state: ButtonState,
    press_start: Option<u64>,
    long_press_triggered: bool,
}

impl View for ButtonInternal {
    type V = ButtonModel;

    closed spec fn view(&self) -> ButtonModel {
        ButtonModel {
            debounce: self.debounce,
            long_press: self.long_press,
            state: self.state,
            press_start: self.press_start,
            long_press_triggered: self.long_press_triggered,
        }
    }
}

impl ButtonInternal {
    /// A detector at rest with the given debounce interval and long-press
    /// threshold, both in milliseconds.
    pub fn new(debounce_ms: u64, long_press_ms: u64) -> (r: ButtonInternal)
        ensures
            r@.is_idle(),
            r@.debounce == debounce_ms,
            r@.long_press == long_press_ms,
    {
        ButtonInternal {
            debounce: debounce_ms,
            long_press: long_press_ms,
            state: ButtonState::Idle,
            press_start: None,
            long_press_triggered: false,
        }
    }

    /// Forgets any press in progress.
    pub fn reset(&mut self)
        ensures
            final(self)@ == reset_model(old(self)@),
    {
        self.state = ButtonState::Idle;
        self.press_start = None;
        self.long_press_triggered = false;
    }

    /// Takes one observation: the input level and the time it was seen at.
    pub fn update(&mut self, pin_high: bool, now: u64) -> (r: ButtonEvent)
        requires
            old(self)@.wf(),
        ensures
            final(self)@ == step(old(self)@, pin_high, now).0,
            r == step(old(self)@, pin_high, now).1,
            final(self)@.wf(),
    {
        match self.state {
            ButtonState::Idle => {
                if pin_high {
                    self.press_start = Some(now);
                    self.state = ButtonState::WaitingRelease;
                    self.long_press_triggered = false;
                }
                ButtonEvent::NoEvent
            },
            ButtonState::WaitingRelease => {
                let start = match self.press_start {
                    Some(t) => t,
                    None => {
                        self.reset();
                        return ButtonEvent::NoEvent;
                    },
                };
                let duration: u64 = if now >= start {
                    now - start
                } else {
                    0
                };
                if duration >= self.long_press {
                    self.state = ButtonState::LongPressed;
                    self.long_press_triggered = true;
                    ButtonEvent::LongPressStart
                } else if pin_high {
                    ButtonEvent::NoEvent
                } else if duration >= self.debounce {
                    self.reset();
                    ButtonEvent::ShortPress
                } else {
                    self.reset();
                    ButtonEvent::NoEvent
                }
            },
            ButtonState::LongPressed => {
                if pin_high {
                    ButtonEvent::NoEvent
                } else {
                    self.reset();
                    ButtonEvent::LongPressEnd
                }
            },
        }
    }

    /// Reads the pin and the clock once and takes that observation.
    pub fn check_event<T: TimeProvider, P: ButtonPin>(&mut self, time: &T, pin: &P) -> (r:
        ButtonEvent)
        requires
            old(self)@.wf(),
        ensures
            final(self)@ == step(old(self)@, pin.level(), time.current()).0,
            r == step(old(self)@, pin.level(), time.current()).1,
            final(self)@.wf(),
    {
        let pin_high = pin.is_high();
        let now = time.now();
        self.update(pin_high, now)
    }
    /// The time at which the press in progress becomes a long press, if one
    /// is in progress; `u64::MAX` if that lies beyond the clock's range.
    pub fn long_press_deadline(&self) -> (r: Option<u64>)
        ensures
            r == match self@.press_start {
                Some(t) => Some(
                    if t + self@.long_press <= u64::MAX {
                        (t + self@.long_press) as u64
                    } else {
                        u64::MAX
                    },
                ),
                None => None::<u64>,
            },
    {
        match self.press_start {
            Some(t) => Some(t.saturating_add(self.long_press)),
            None => None,
        }
    }

    /// Whether the button is down right now.
    pub fn is_button_active<P: ButtonPin>(&self, pin: &P) -> (r: bool)
        ensures
            r == pin.level(),
    {
        pin.is_high()
    }

    pub fn get_state(&self) -> (r: ButtonState)
        ensures
            r == self@.state,
    {
        self.state
    }

    pub fn is_long_press_triggered(&self) -> (r: bool)
        ensures
            r == self@.long_press_triggered,
    {
        self.long_press_triggered
    }
}

} // verus!
