use vstd::prelude::*;

verus! {

/// A clock read in milliseconds. `now` reports `current`, which depends on the
/// provider's value alone: two reads of the same provider agree until it is
/// changed. A simulated clock meets that; the hardware clock does not, so the
/// firmware reads it itself and hands the detector the time as a number
/// (`ButtonInternal::update`).
pub trait TimeProvider {
    /// The time that `now` reports.
    spec fn current(&self) -> u64;

    /// Reads the current time.
    fn now(&self) -> (r: u64)
        ensures
            r == self.current(),
    ;
}

/// The level of a button input: high while the button is held down.
pub trait ButtonPin {
    /// The level that `is_high` reports.
    spec fn level(&self) -> bool;

    /// Whether the input is high (pressed).
    fn is_high(&self) -> (r: bool)
        ensures
            r == self.level(),
    ;

    /// Whether the input is low (released).
    fn is_low(&self) -> (r: bool)
        ensures
            r == !self.level(),
    {
        !self.is_high()
    }
}

/// The hardware clock. Reading it is the firmware's business: the detector
/// takes the time it reports as a plain number.
pub struct RealTimeProvider;

impl RealTimeProvider {
    pub fn new() -> (r: RealTimeProvider) {
        RealTimeProvider
    }
}

/// A simulated clock that only moves when told to.
pub struct MockTimeProvider {
    current_ms: u64,
}

impl MockTimeProvider {
    /// A clock that reads zero.
    pub fn new() -> (r: MockTimeProvider)
        ensures
            r.current() == 0,
    {
        MockTimeProvider { current_ms: 0 }
    }

    /// Moves the clock forward by `duration_ms`.
    pub fn advance_time(&mut self, duration_ms: u64)
        requires
            old(self).current() + duration_ms <= u64::MAX,
        ensures
            final(self).current() == old(self).current() + duration_ms,
    {
        self.current_ms = self.current_ms + duration_ms;
    }

    /// Sets the clock to `time_ms`.
    pub fn set_time(&mut self, time_ms: u64)
        ensures
            final(self).current() == time_ms,
    {
        self.current_ms = time_ms;
    }
}

impl TimeProvider for MockTimeProvider {
    closed spec fn current(&self) -> u64 {
        self.current_ms
    }

    fn now(&self) -> (r: u64) {
        self.current_ms
    }
}

/// A simulated button input, released at first.
pub struct MockButtonPin {
    high: bool,
}

impl MockButtonPin {
    /// A released input.
    pub fn new() -> (r: MockButtonPin)
        ensures
            !r.level(),
    {
        MockButtonPin { high: false }
    }

    /// Presses the button.
    pub fn set_high(&mut self)
        ensures
            final(self).level(),
    {
        self.high = true;
    }

    /// Releases the button.
    pub fn set_low(&mut self)
        ensures
            !final(self).level(),
    {
        self.high = false;
    }

    /// The current level.
    pub fn get_state(&self) -> (r: bool)
        ensures
            r == self.level(),
    {
        self.high
    }
}

impl ButtonPin for MockButtonPin {
    closed spec fn level(&self) -> bool {
        self.high
    }

    fn is_high(&self) -> (r: bool) {
        self.high
    }
}

} // verus!
