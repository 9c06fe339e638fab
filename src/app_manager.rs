use vstd::prelude::*;

use crate::button::InputEvent;

verus! {

/// Breathing period of the status LED, in cycles of the coordinator's loop.
pub const BREATHING_PERIOD_TICKS: u32 = 150;

/// Half of the breathing period: the ramp rises over it, then falls.
pub const BREATHING_HALF_TICKS: u32 = 75;

/// The system mode.
#[derive(PartialEq, Eq, Structural, Clone, Copy, Debug)]
pub enum SystemState {
    /// Input power off; the status LED breathes.
    Standby,
    /// Input power on; the secondary output can be switched.
    Working,
}

impl Default for SystemState {
    fn default() -> (r: SystemState)
        ensures
            r == SystemState::Standby,
    {
        SystemState::Standby
    }
}

/// The style of the status LED.
#[derive(PartialEq, Eq, Structural, Clone, Copy, Debug)]
pub enum PowerLedState {
    Off,
    Breathing,
    SolidOn,
}

impl Default for PowerLedState {
    fn default() -> (r: PowerLedState)
        ensures
            r == PowerLedState::Off,
    {
        PowerLedState::Off
    }
}

/// What one cycle of the coordinator asks of the outside world.
#[derive(PartialEq, Eq, Structural, Clone, Copy, Debug)]
pub struct PowerAction {
    /// Level of the primary power-enable line.
    pub vin_enabled: bool,
    /// Brightness of the status LED, 0 to 100 percent.
    pub led_duty: u8,
    /// Whether to broadcast the reset of the secondary output.
    pub vbus_reset: bool,
}

/// The coordinator's state as a plain value.
pub struct PowerModel {
    pub system_state: SystemState,
    pub led_state: PowerLedState,
    pub vin_mv: u32,
    pub vbus_mv: u32,
    pub vbus_enabled: bool,
    pub breathing_counter: u32,
}

impl PowerModel {
    pub open spec fn wf(self) -> bool {
        self.breathing_counter < BREATHING_PERIOD_TICKS
    }
}

/// The other mode.
pub open spec fn toggled(s: SystemState) -> SystemState {
    match s {
        SystemState::Standby => SystemState::Working,
        SystemState::Working => SystemState::Standby,
    }
}

/// The LED style: breathing in standby; in working mode, solid while the
/// secondary output is on and off otherwise.
pub open spec fn led_state_for(s: SystemState, vbus_enabled: bool) -> PowerLedState {
    match s {
        SystemState::Standby => PowerLedState::Breathing,
        SystemState::Working => if vbus_enabled {
            PowerLedState::SolidOn
        } else {
            PowerLedState::Off
        },
    }
}

/// Triangular ramp over the breathing period: up from 0 to 100 percent over
/// the first half, back down over the second.
pub open spec fn breathing_duty(counter: int) -> int {
    if counter < BREATHING_HALF_TICKS {
        counter * 100 / BREATHING_HALF_TICKS as int
    } else {
        (BREATHING_PERIOD_TICKS - counter) * 100 / BREATHING_HALF_TICKS as int
    }
}

/// The breathing phase after one more cycle.
pub open spec fn next_breathing(counter: u32) -> u32 {
    if counter + 1 >= BREATHING_PERIOD_TICKS {
        0
    } else {
        (counter + 1) as u32
    }
}

/// Toggling the mode: entering working mode forgets that the secondary
/// output was on and asks for the reset broadcast; the LED style follows the
/// new mode at once.
pub open spec fn toggle_spec(m: PowerModel) -> (PowerModel, bool) {
    let entering = m.system_state == SystemState::Standby;
    let mode = toggled(m.system_state);
    let vbus_enabled = if entering {
        false
    } else {
        m.vbus_enabled
    };
    (
        PowerModel {
            system_state: mode,
            vbus_enabled,
            led_state: led_state_for(mode, vbus_enabled),
            ..m
        },
        entering,
    )
}

/// One cycle: a long-press release toggles the mode, any other event is
/// ignored; then the LED style is recomputed and the LED driven.
pub open spec fn power_tick(m: PowerModel, event: Option<InputEvent>) -> (PowerModel, PowerAction) {
    let (t, reset) = if event == Some(InputEvent::LongReleased) {
        toggle_spec(m)
    } else {
        (m, false)
    };
    let led = led_state_for(t.system_state, t.vbus_enabled);
    let counter = if led == PowerLedState::Breathing {
        next_breathing(t.breathing_counter)
    } else {
        t.breathing_counter
    };
    let duty: int = match led {
        PowerLedState::Off => 0,
        PowerLedState::SolidOn => 100,
        PowerLedState::Breathing => breathing_duty(counter as int),
    };
    (
        PowerModel { led_state: led, breathing_counter: counter, ..t },
        PowerAction {
            vin_enabled: t.system_state == SystemState::Working,
            led_duty: duty as u8,
            vbus_reset: reset,
        },
    )
}

/// Compare value for an open-drain LED: the driver's duty is the complement
/// of the brightness, `max_duty * (100 - duty_percent) / 100`.
pub fn inverted_duty(max_duty: u32, duty_percent: u8) -> (r: u32)
    requires
        duty_percent <= 100,
    ensures
        r as int == max_duty as int * (100 - duty_percent as int) / 100,
        r <= max_duty,
{
    let off: u64 = (100 - duty_percent) as u64;
    assert(max_duty as int * off as int <= max_duty as int * 100) by (nonlinear_arith)
        requires
            off <= 100,
    ;
    let scaled: u64 = max_duty as u64 * off;
    (scaled / 100) as u32
}

/// The system-mode coordinator: owns the mode, the primary power enable and
/// the status LED.
pub struct PowerManager {
    system_state: SystemState,
    led_state: PowerLedState,
    vin_mv: u32,
    vbus_mv: u32,
    vbus_enabled: bool,
    breathing_counter: u32,
}

impl View for PowerManager {
    type V = PowerModel;

    closed spec fn view(&self) -> PowerModel {
        PowerModel {
            system_state: self.system_state,
            led_state: self.led_state,
            vin_mv: self.vin_mv,
            vbus_mv: self.vbus_mv,
            vbus_enabled: self.vbus_enabled,
            breathing_counter: self.breathing_counter,
        }
    }
}

impl PowerManager {
    /// A coordinator in standby with the LED off.
    pub fn new() -> (r: PowerManager)
        ensures
            r@ == (PowerModel {
                system_state: SystemState::Standby,
                led_state: PowerLedState::Off,
                vin_mv: 0,
                vbus_mv: 0,
                vbus_enabled: false,
                breathing_counter: 0,
            }),
    {
        PowerManager {
            system_state: SystemState::Standby,
            led_state: PowerLedState::Off,
            vin_mv: 0,
            vbus_mv: 0,
            vbus_enabled: false,
            breathing_counter: 0,
        }
    }

    /// Records the latest telemetry and whether the secondary output is on.
    pub fn update_voltages(&mut self, vin_mv: u32, vbus_mv: u32, vbus_enabled: bool)
        ensures
            final(self)@ == (PowerModel { vin_mv, vbus_mv, vbus_enabled, ..old(self)@ }),
    {
        self.vin_mv = vin_mv;
        self.vbus_mv = vbus_mv;
        self.vbus_enabled = vbus_enabled;
    }

    /// Toggles the mode; the result says whether the secondary output must be
    /// reset, which is so exactly when working mode is entered.
    pub fn toggle_system_state(&mut self) -> (reset: bool)
        ensures
            final(self)@ == toggle_spec(old(self)@).0,
            reset == toggle_spec(old(self)@).1,
    {
        let entering = self.system_state == SystemState::Standby;
        self.system_state = match self.system_state {
            SystemState::Standby => SystemState::Working,
            SystemState::Working => SystemState::Standby,
        };
        if entering {
            self.vbus_enabled = false;
        }
        self.update_led_state();
        entering
    }

    /// Recomputes the LED style from the mode and the secondary output.
    fn update_led_state(&mut self)
        ensures
            final(self)@ == (PowerModel {
                led_state: led_state_for(old(self)@.system_state, old(self)@.vbus_enabled),
                ..old(self)@
            }),
    {
        self.led_state = match self.system_state {
            SystemState::Standby => PowerLedState::Breathing,
            SystemState::Working => if self.vbus_enabled {
                PowerLedState::SolidOn
            } else {
                PowerLedState::Off
            },
        };
    }

    /// Advances the LED effect by one cycle and returns the brightness.
    fn update_led_display(&mut self) -> (duty: u8)
        requires
            old(self)@.wf(),
        ensures
            final(self)@.wf(),
            ({
                let m = old(self)@;
                let counter = if m.led_state == PowerLedState::Breathing {
                    next_breathing(m.breathing_counter)
                } else {
                    m.breathing_counter
                };
                &&& final(self)@ == (PowerModel { breathing_counter: counter, ..m })
                &&& duty as int == match m.led_state {
                    PowerLedState::Off => 0,
                    PowerLedState::SolidOn => 100,
                    PowerLedState::Breathing => breathing_duty(counter as int),
                }
            }),
    {
        match self.led_state {
            PowerLedState::Off => 0,
            PowerLedState::SolidOn => 100,
            PowerLedState::Breathing => {
                self.breathing_counter = self.breathing_counter + 1;
                if self.breathing_counter >= BREATHING_PERIOD_TICKS {
                    self.breathing_counter = 0;
                }
                let c = self.breathing_counter;
                let level: u32 = if c < BREATHING_HALF_TICKS {
                    c * 100 / BREATHING_HALF_TICKS
                } else {
                    (BREATHING_PERIOD_TICKS - c) * 100 / BREATHING_HALF_TICKS
                };
                level as u8
            },
        }
    }

    /// One cycle of the coordinator, given the gesture drained from its
    /// subscription, if any.
    pub fn tick(&mut self, event: Option<InputEvent>) -> (r: PowerAction)
        requires
            old(self)@.wf(),
        ensures
            final(self)@ == power_tick(old(self)@, event).0,
            r == power_tick(old(self)@, event).1,
            final(self)@.wf(),
    {
        let mut reset = false;
        if event == Some(InputEvent::LongReleased) {
            reset = self.toggle_system_state();
        }
        self.update_led_state();
        let duty = self.update_led_display();
        PowerAction {
            vin_enabled: self.system_state == SystemState::Working,
            led_duty: duty,
            vbus_reset: reset,
        }
    }

    pub fn system_state(&self) -> (r: SystemState)
        ensures
            r == self@.system_state,
    {
        self.system_state
    }

    pub fn led_state(&self) -> (r: PowerLedState)
        ensures
            r == self@.led_state,
    {
        self.led_state
    }

    /// The input voltage last recorded, in millivolts.
    pub fn vin_mv(&self) -> (r: u32)
        ensures
            r == self@.vin_mv,
    {
        self.vin_mv
    }

    /// The secondary-rail voltage last recorded, in millivolts.
    pub fn vbus_mv(&self) -> (r: u32)
        ensures
            r == self@.vbus_mv,
    {
        self.vbus_mv
    }
}

} // verus!
