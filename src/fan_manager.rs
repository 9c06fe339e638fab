use vstd::prelude::*;

verus! {

/// Temperature from which a stopped fan starts, in millidegrees Celsius.
pub const HIGH_TEMP_THRESHOLD_MC: i32 = 50_000;

/// Temperature at or below which a running fan stops, in millidegrees Celsius.
pub const LOW_TEMP_THRESHOLD_MC: i32 = 45_000;

/// Readings above this are taken for a sensor fault and ignored.
pub const TEMP_ANOMALY_THRESHOLD_MC: i32 = 100_000;

/// Length of the start-up run of the fan, in milliseconds.
pub const STARTUP_TEST_MS: u64 = 5000;

/// Temperature assumed before the first reading.
pub const INITIAL_TEMPERATURE_MC: i32 = 25_000;

/// Frequency of the timer that measures the tachometer period, in hertz.
pub const FAN_TIMER_FREQ_HZ: u32 = 1_000_000;

/// Tachometer pulses per revolution.
pub const FAN_PULSES_PER_REVOLUTION: u32 = 2;

/// Speeds above this are taken for a measurement fault.
pub const MAX_PLAUSIBLE_RPM: u32 = 10_000;

/// How long the highest speed is looked for after start-up, in milliseconds.
pub const FAN_MAX_DETECTION_TIME_MS: u64 = 5000;

/// The controller's phase.
#[derive(PartialEq, Eq, Structural, Clone, Copy, Debug)]
pub enum FanManagerState {
    /// The fan runs unconditionally after start-up.
    StartupTest,
    /// The fan follows the temperature.
    NormalOperation,
}

/// The hysteresis rule: a running fan keeps running while the temperature is
/// above the low threshold; a stopped fan starts at the high threshold.
pub open spec fn fan_decision(fan_on: bool, temp_mc: int) -> bool {
    if fan_on {
        temp_mc > LOW_TEMP_THRESHOLD_MC
    } else {
        temp_mc >= HIGH_TEMP_THRESHOLD_MC
    }
}

/// The fan after a reading: a reading above the anomaly threshold changes
/// nothing.
pub open spec fn fan_after_reading(fan_on: bool, temp_mc: int) -> bool {
    if temp_mc > TEMP_ANOMALY_THRESHOLD_MC {
        fan_on
    } else {
        fan_decision(fan_on, temp_mc)
    }
}

/// The fan after a sequence of readings.
pub open spec fn fan_run(fan_on: bool, temps: Seq<int>) -> bool
    decreases temps.len(),
{
    if temps.len() == 0 {
        fan_on
    } else {
        fan_run(fan_after_reading(fan_on, temps[0]), temps.drop_first())
    }
}

/// Decides the fan state for a temperature.
pub fn update_fan_state(fan_on: bool, temp_mc: i32) -> (r: bool)
    ensures
        r == fan_decision(fan_on, temp_mc as int),
{
    if fan_on {
        temp_mc > LOW_TEMP_THRESHOLD_MC
    } else {
        temp_mc >= HIGH_TEMP_THRESHOLD_MC
    }
}

/// Inside the band between the two thresholds the fan keeps its state.
pub proof fn lemma_band_keeps_state(fan_on: bool, temp_mc: int)
    requires
        LOW_TEMP_THRESHOLD_MC < temp_mc < HIGH_TEMP_THRESHOLD_MC,
    ensures
        fan_after_reading(fan_on, temp_mc) == fan_on,
{
}

/// However many readings fall inside the band, the fan never changes state.
pub proof fn lemma_band_never_chatters(fan_on: bool, temps: Seq<int>)
    requires
        forall|i: int|
            0 <= i < temps.len() ==> LOW_TEMP_THRESHOLD_MC < #[trigger] temps[i]
                < HIGH_TEMP_THRESHOLD_MC,
    ensures
        fan_run(fan_on, temps) == fan_on,
    decreases temps.len(),
{
    if temps.len() > 0 {
        let rest = temps.drop_first();
        assert(forall|i: int| 0 <= i < rest.len() ==> rest[i] == temps[i + 1]);
        lemma_band_keeps_state(fan_on, temps[0]);
        lemma_band_never_chatters(fan_on, rest);
    }
}

/// The controller's state as a plain value.
pub struct FanModel {
    pub state: FanManagerState,
    pub fan_enabled: bool,
    pub current_temperature: i32,
    pub startup_ms: u64,
}

/// One check of the controller at time `now_ms`, with the latest reading if
/// one is there: the start-up run ends once its time is up, after which the
/// fan follows the readings, and a missing reading keeps the fan as it is.
pub open spec fn fan_tick(m: FanModel, now_ms: u64, reading: Option<i32>) -> FanModel {
    match m.state {
        FanManagerState::StartupTest => {
            if now_ms >= m.startup_ms && now_ms - m.startup_ms >= STARTUP_TEST_MS {
                FanModel { state: FanManagerState::NormalOperation, fan_enabled: false, ..m }
            } else {
                m
            }
        },
        FanManagerState::NormalOperation => match reading {
            None => m,
            Some(t) => FanModel {
                current_temperature: t,
                fan_enabled: fan_after_reading(m.fan_enabled, t as int),
                ..m
            },
        },
    }
}

/// The thermal controller.
pub struct FanManager {
    state: FanManagerState,
    fan_enabled: bool,
    current_temperature: i32,
    startup_ms: u64,
}

impl View for FanManager {
    type V = FanModel;

    closed spec fn view(&self) -> FanModel {
        FanModel {
            state: self.state,
            fan_enabled: self.fan_enabled,
            current_temperature: self.current_temperature,
            startup_ms: self.startup_ms,
        }
    }
}

impl FanManager {
    /// A controller started at `now_ms`, running the fan for its start-up test.
    pub fn new(now_ms: u64) -> (r: FanManager)
        ensures
            r@ == (FanModel {
                state: FanManagerState::StartupTest,
                fan_enabled: true,
                current_temperature: INITIAL_TEMPERATURE_MC,
                startup_ms: now_ms,
            }),
    {
        FanManager {
            state: FanManagerState::StartupTest,
            fan_enabled: true,
            current_temperature: INITIAL_TEMPERATURE_MC,
            startup_ms: now_ms,
        }
    }

    /// One check; returns whether the fan is to run.
    pub fn tick(&mut self, now_ms: u64, reading: Option<i32>) -> (fan_on: bool)
        ensures
            final(self)@ == fan_tick(old(self)@, now_ms, reading),
            fan_on == final(self)@.fan_enabled,
    {
        match self.state {
            FanManagerState::StartupTest => {
                if now_ms >= self.startup_ms && now_ms - self.startup_ms >= STARTUP_TEST_MS {
                    self.state = FanManagerState::NormalOperation;
                    self.fan_enabled = false;
                }
            },
            FanManagerState::NormalOperation => {
                if let Some(t) = reading {
                    self.current_temperature = t;
                    if t <= TEMP_ANOMALY_THRESHOLD_MC {
                        self.fan_enabled = update_fan_state(self.fan_enabled, t);
                    }
                }
            },
        }
        self.fan_enabled
    }

    pub fn is_fan_enabled(&self) -> (r: bool)
        ensures
            r == self@.fan_enabled,
    {
        self.fan_enabled
    }

    pub fn state(&self) -> (r: FanManagerState)
        ensures
            r == self@.state,
    {
        self.state
    }
}

/// Fan speed from the tachometer period in timer ticks: zero when there is no
/// signal or the speed is implausible.
pub open spec fn rpm_spec(period_ticks: u32) -> int {
    if period_ticks == 0 {
        0
    } else {
        let rpm = (FAN_TIMER_FREQ_HZ / period_ticks) * 60 / FAN_PULSES_PER_REVOLUTION as int;
        if rpm > MAX_PLAUSIBLE_RPM {
            0
        } else {
            rpm
        }
    }
}

/// Computes the fan speed, in revolutions per minute.
pub fn calculate_rpm(period_ticks: u32) -> (r: u32)
    ensures
        r as int == rpm_spec(period_ticks),
{
    if period_ticks == 0 {
        return 0;
    }
    let signal_freq = FAN_TIMER_FREQ_HZ / period_ticks;
    assert(signal_freq <= FAN_TIMER_FREQ_HZ) by (nonlinear_arith)
        requires
            signal_freq == FAN_TIMER_FREQ_HZ / period_ticks,
            period_ticks >= 1,
    ;
    let rpm = (signal_freq * 60) / FAN_PULSES_PER_REVOLUTION;
    if rpm > MAX_PLAUSIBLE_RPM {
        0
    } else {
        rpm
    }
}

/// Tracks the highest fan speed seen during the detection window after
/// start-up and hands it out once, when the window closes.
pub struct RpmTracker {
    max_rpm: u32,
    saved: bool,
}

impl RpmTracker {
    pub fn new() -> (r: RpmTracker)
        ensures
            r.max_rpm() == 0,
            !r.is_saved(),
    {
        RpmTracker { max_rpm: 0, saved: false }
    }

    pub closed spec fn max_rpm(&self) -> u32 {
        self.max_rpm
    }

    pub closed spec fn is_saved(&self) -> bool {
        self.saved
    }

    /// Takes a speed sample made `elapsed_ms` after start-up. Inside the
    /// window the highest speed is kept; the first sample after it returns
    /// that speed, and later ones return nothing.
    pub fn on_sample(&mut self, rpm: u32, elapsed_ms: u64) -> (r: Option<u32>)
        ensures
            elapsed_ms < FAN_MAX_DETECTION_TIME_MS ==> {
                &&& final(self).max_rpm() == if rpm > old(self).max_rpm() {
                    rpm
                } else {
                    old(self).max_rpm()
                }
                &&& final(self).is_saved() == old(self).is_saved()
                &&& r.is_none()
            },
            elapsed_ms >= FAN_MAX_DETECTION_TIME_MS ==> {
                &&& final(self).max_rpm() == old(self).max_rpm()
                &&& final(self).is_saved()
                &&& r == if old(self).is_saved() {
                    None
                } else {
                    Some(old(self).max_rpm())
                }
            },
    {
        if elapsed_ms < FAN_MAX_DETECTION_TIME_MS {
            if rpm > self.max_rpm {
                self.max_rpm = rpm;
            }
            None
        } else if !self.saved {
            self.saved = true;
            Some(self.max_rpm)
        } else {
            None
        }
    }
}

} // verus!
