use vstd::prelude::*;

verus! {

/// Settings of the software undervoltage protection.
#[derive(PartialEq, Eq, Structural, Clone, Copy, Debug)]
pub struct UvpConfig {
    /// Below this voltage the output is switched off, in millivolts.
    pub threshold_mv: u32,
    /// Whether the output comes back on by itself once the voltage recovers.
    pub auto_recovery: bool,
    /// How long the voltage must have recovered before the output comes back,
    /// in milliseconds.
    pub recovery_delay_ms: u32,
}

impl Default for UvpConfig {
    fn default() -> (r: UvpConfig)
        ensures
            r == (UvpConfig { threshold_mv: 5000, auto_recovery: true, recovery_delay_ms: 1000 }),
    {
        UvpConfig { threshold_mv: 5000, auto_recovery: true, recovery_delay_ms: 1000 }
    }
}

/// Decides whether a voltage lies below an undervoltage threshold.
pub fn check_undervoltage_software(voltage_mv: u32, threshold_mv: u32) -> (r: bool)
    ensures
        r == (voltage_mv < threshold_mv),
{
    voltage_mv < threshold_mv
}

/// Whether the hardware comparator has tripped; this board has none wired, so
/// it never has.
pub fn check_undervoltage_protection() -> (r: bool)
    ensures
        !r,
{
    false
}

/// What a voltage sample asks of the protection.
#[derive(PartialEq, Eq, Structural, Clone, Copy, Debug)]
pub enum UvpAction {
    /// Nothing to do.
    Hold,
    /// Switch the output off.
    TurnOff,
    /// Wait the recovery delay, then hand the next sample to
    /// `on_recovery_sample`.
    AwaitRecovery,
}

/// The protection's decision on a sample, and whether it is active after it.
pub open spec fn uvp_sample(active: bool, cfg: UvpConfig, voltage_mv: u32) -> (bool, UvpAction) {
    let under = voltage_mv < cfg.threshold_mv;
    if under && !active {
        (true, UvpAction::TurnOff)
    } else if !under && active && cfg.auto_recovery {
        (active, UvpAction::AwaitRecovery)
    } else {
        (active, UvpAction::Hold)
    }
}

/// Software undervoltage protection: switches the output off when the
/// voltage drops below the threshold and, if so configured, back on once it
/// has recovered and still holds after the recovery delay.
pub struct UvpMonitor {
    active: bool,
}

impl UvpMonitor {
    pub fn new() -> (r: UvpMonitor)
        ensures
            !r.is_active(),
    {
        UvpMonitor { active: false }
    }

    /// Whether the output is held off by the protection.
    pub closed spec fn is_active(&self) -> bool {
        self.active
    }

    pub fn protection_active(&self) -> (r: bool)
        ensures
            r == self.is_active(),
    {
        self.active
    }

    /// Takes a voltage sample.
    pub fn on_sample(&mut self, cfg: &UvpConfig, voltage_mv: u32) -> (r: UvpAction)
        ensures
            (final(self).is_active(), r) == uvp_sample(old(self).is_active(), *cfg, voltage_mv),
    {
        let under = check_undervoltage_software(voltage_mv, cfg.threshold_mv);
        if under && !self.active {
            self.active = true;
            UvpAction::TurnOff
        } else if !under && self.active && cfg.auto_recovery {
            UvpAction::AwaitRecovery
        } else {
            UvpAction::Hold
        }
    }

    /// Takes the sample read after the recovery delay, if one came; returns
    /// whether to switch the output back on, which is so exactly when a sample
    /// came and it is at or above the threshold.
    pub fn on_recovery_sample(&mut self, cfg: &UvpConfig, sample: Option<u32>) -> (turn_on: bool)
        ensures
            turn_on == (sample.is_some() && sample.unwrap() >= cfg.threshold_mv),
            final(self).is_active() == (old(self).is_active() && !turn_on),
    {
        match sample {
            Some(v) => {
                if v >= cfg.threshold_mv {
                    self.active = false;
                    true
                } else {
                    false
                }
            },
            None => false,
        }
    }
}

} // verus!
