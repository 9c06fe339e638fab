use vstd::prelude::*;

use crate::app_manager::SystemState;
use crate::button::InputEvent;

verus! {

/// Secondary-rail voltage from which the LED shows red, in millivolts.
pub const VBUS_VOLTAGE_THRESHOLD_MV: u32 = 5500;

/// Cycles between two changes of a blinking LED.
pub const BLINK_HALF_PERIOD_TICKS: u32 = 25;

/// The secondary output.
#[derive(PartialEq, Eq, Structural, Clone, Copy, Debug)]
pub enum VbusState {
    Disabled,
    Enabled,
}

impl Default for VbusState {
    fn default() -> (r: VbusState)
        ensures
            r == VbusState::Disabled,
    {
        VbusState::Disabled
    }
}

/// Colour of the bicolour LED.
#[derive(PartialEq, Eq, Structural, Clone, Copy, Debug)]
pub enum VbusLedColor {
    /// Below the voltage threshold.
    Green,
    /// At or above it.
    Red,
}

/// How the bicolour LED is lit.
#[derive(PartialEq, Eq, Structural, Clone, Copy, Debug)]
pub enum VbusLedMode {
    /// While the output is off.
    Blinking,
    /// While the output is on.
    Solid,
}

/// What one cycle of the coordinator asks of the outside world.
#[derive(PartialEq, Eq, Structural, Clone, Copy, Debug)]
pub struct VbusAction {
    /// Level of the secondary output-enable line, also published to the
    /// other coordinators.
    pub vbus_enabled: bool,
    /// Level of the LED pin: high shows red; low shows green, or nothing
    /// during the dark half of a blink.
    pub led_high: bool,
    /// Whether the pending reset was consumed and must be cleared.
    pub clear_reset: bool,
}

/// The coordinator's state as a plain value.
pub struct VbusModel {
    pub vbus_state: VbusState,
    pub vbus_mv: u32,
    pub vin_mv: u32,
    pub led_color: VbusLedColor,
    pub led_mode: VbusLedMode,
    pub led_blink_state: bool,
    pub led_blink_counter: u32,
}

impl VbusModel {
    pub open spec fn wf(self) -> bool {
        self.led_blink_counter < BLINK_HALF_PERIOD_TICKS
    }
}

/// The LED colour for a secondary-rail voltage.
pub open spec fn color_for(vbus_mv: u32) -> VbusLedColor {
    if vbus_mv < VBUS_VOLTAGE_THRESHOLD_MV {
        VbusLedColor::Green
    } else {
        VbusLedColor::Red
    }
}

/// The LED mode for the output state.
pub open spec fn mode_for(s: VbusState) -> VbusLedMode {
    match s {
        VbusState::Disabled => VbusLedMode::Blinking,
        VbusState::Enabled => VbusLedMode::Solid,
    }
}

/// The other output state.
pub open spec fn flipped(s: VbusState) -> VbusState {
    match s {
        VbusState::Disabled => VbusState::Enabled,
        VbusState::Enabled => VbusState::Disabled,
    }
}

/// The output state after the event and the reset latch of one cycle: a click
/// toggles the output in working mode only, and a pending reset then forces
/// it off whatever happened before.
pub open spec fn next_vbus_state(
    s: VbusState,
    event: Option<InputEvent>,
    mode: SystemState,
    reset: bool,
) -> VbusState {
    let after_event = if event == Some(InputEvent::Click) && mode == SystemState::Working {
        flipped(s)
    } else {
        s
    };
    if reset {
        VbusState::Disabled
    } else {
        after_event
    }
}

/// One cycle: take at most one event, check and clear the reset latch,
/// recompute the LED and drive it.
pub open spec fn vbus_tick(
    m: VbusModel,
    event: Option<InputEvent>,
    mode: SystemState,
    reset: bool,
) -> (VbusModel, VbusAction) {
    let s = next_vbus_state(m.vbus_state, event, mode, reset);
    let color = color_for(m.vbus_mv);
    let led_mode = mode_for(s);
    let (blink, counter) = if led_mode == VbusLedMode::Blinking {
        if m.led_blink_counter + 1 >= BLINK_HALF_PERIOD_TICKS {
            (!m.led_blink_state, 0u32)
        } else {
            (m.led_blink_state, (m.led_blink_counter + 1) as u32)
        }
    } else {
        (m.led_blink_state, m.led_blink_counter)
    };
    let lit = led_mode == VbusLedMode::Solid || blink;
    (
        VbusModel {
            vbus_state: s,
            led_color: color,
            led_mode,
            led_blink_state: blink,
            led_blink_counter: counter,
            ..m
        },
        VbusAction {
            vbus_enabled: s == VbusState::Enabled,
            led_high: lit && color == VbusLedColor::Red,
            clear_reset: reset,
        },
    )
}

/// The secondary-output coordinator: owns the output state, its enable line
/// and the bicolour LED.
pub struct VbusManager {
    vbus_state: VbusState,
    vbus_mv: u32,
    vin_mv: u32,
    led_color: VbusLedColor,
    led_mode: VbusLedMode,
    led_blink_state: bool,
    led_blink_counter: u32,
}

impl View for VbusManager {
    type V = VbusModel;

    closed spec fn view(&self) -> VbusModel {
        VbusModel {
            vbus_state: self.vbus_state,
            vbus_mv: self.vbus_mv,
            vin_mv: self.vin_mv,
            led_color: self.led_color,
            led_mode: self.led_mode,
            led_blink_state: self.led_blink_state,
            led_blink_counter: self.led_blink_counter,
        }
    }
}

impl VbusManager {
    /// A coordinator with the output off and the LED green and blinking.
    pub fn new() -> (r: VbusManager)
        ensures
            r@ == (VbusModel {
                vbus_state: VbusState::Disabled,
                vbus_mv: 0,
                vin_mv: 0,
                led_color: VbusLedColor::Green,
                led_mode: VbusLedMode::Blinking,
                led_blink_state: false,
                led_blink_counter: 0,
            }),
    {
        VbusManager {
            vbus_state: VbusState::Disabled,
            vbus_mv: 0,
            vin_mv: 0,
            led_color: VbusLedColor::Green,
            led_mode: VbusLedMode::Blinking,
            led_blink_state: false,
            led_blink_counter: 0,
        }
    }

    /// Records the latest telemetry.
    pub fn update_voltages(&mut self, vbus_mv: u32, vin_mv: u32)
        ensures
            final(self)@ == (VbusModel { vbus_mv, vin_mv, ..old(self)@ }),
    {
        self.vbus_mv = vbus_mv;
        self.vin_mv = vin_mv;
    }

    /// Switches the output to the other state.
    pub fn toggle_vbus(&mut self)
        ensures
            final(self)@ == (VbusModel { vbus_state: flipped(old(self)@.vbus_state), ..old(self)@ }),
    {
        self.vbus_state = match self.vbus_state {
            VbusState::Disabled => VbusState::Enabled,
            VbusState::Enabled => VbusState::Disabled,
        };
    }

    /// Applies a gesture: a click toggles the output in working mode only.
    fn handle_button_event(&mut self, event: Option<InputEvent>, mode: SystemState)
        ensures
            final(self)@ == (VbusModel {
                vbus_state: next_vbus_state(old(self)@.vbus_state, event, mode, false),
                ..old(self)@
            }),
    {
        if event == Some(InputEvent::Click) && mode == SystemState::Working {
            self.toggle_vbus();
        }
    }

    /// Recomputes the LED and returns the level of its pin.
    fn update_led_display(&mut self) -> (led_high: bool)
        requires
            old(self)@.wf(),
        ensures
            final(self)@.wf(),
            ({
                let (m, a) = vbus_tick(old(self)@, None, SystemState::Standby, false);
                final(self)@ == m && led_high == a.led_high
            }),
    {
        self.led_color = if self.vbus_mv < VBUS_VOLTAGE_THRESHOLD_MV {
            VbusLedColor::Green
        } else {
            VbusLedColor::Red
        };
        self.led_mode = match self.vbus_state {
            VbusState::Disabled => VbusLedMode::Blinking,
            VbusState::Enabled => VbusLedMode::Solid,
        };
        if self.led_mode == VbusLedMode::Blinking {
            self.led_blink_counter = self.led_blink_counter + 1;
            if self.led_blink_counter >= BLINK_HALF_PERIOD_TICKS {
                self.led_blink_state = !self.led_blink_state;
                self.led_blink_counter = 0;
            }
        }
        let lit = self.led_mode == VbusLedMode::Solid || self.led_blink_state;
        lit && self.led_color == VbusLedColor::Red
    }

    /// One cycle of the coordinator, given the gesture drained from its
    /// subscription, the latest system mode and the reset latch.
    pub fn tick(&mut self, event: Option<InputEvent>, mode: SystemState, reset: bool) -> (r:
        VbusAction)
        requires
            old(self)@.wf(),
        ensures
            final(self)@ == vbus_tick(old(self)@, event, mode, reset).0,
            r == vbus_tick(old(self)@, event, mode, reset).1,
            final(self)@.wf(),
    {
        self.handle_button_event(event, mode);
        if reset {
            self.vbus_state = VbusState::Disabled;
        }
        let led_high = self.update_led_display();
        VbusAction {
            vbus_enabled: self.vbus_state == VbusState::Enabled,
            led_high,
            clear_reset: reset,
        }
    }

    pub fn vbus_state(&self) -> (r: VbusState)
        ensures
            r == self@.vbus_state,
    {
        self.vbus_state
    }

    pub fn led_color(&self) -> (r: VbusLedColor)
        ensures
            r == self@.led_color,
    {
        self.led_color
    }

    pub fn led_mode(&self) -> (r: VbusLedMode)
        ensures
            r == self@.led_mode,
    {
        self.led_mode
    }
}

} // verus!
