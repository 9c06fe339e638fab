use vstd::prelude::*;

verus! {

/// Lowest target voltage that a stored value is clamped to, in millivolts.
pub const MIN_TARGET_VOLTAGE_MV: u32 = 3000;

/// Highest target voltage, in millivolts.
pub const MAX_TARGET_VOLTAGE_MV: u32 = 48_000;

/// Lowest target current that a stored value is clamped to, in milliamperes.
pub const MIN_TARGET_CURRENT_MA: u32 = 100;

/// Highest target current, in milliamperes.
pub const MAX_TARGET_CURRENT_MA: u32 = 5000;

/// Why the configuration store failed.
#[derive(PartialEq, Eq, Structural, Clone, Copy, Debug)]
pub enum ConfigManagerError {
    I2CError,
}

/// A register of the configuration store.
#[derive(PartialEq, Eq, Structural, Clone, Copy, Debug)]
pub enum Register {
    TargetVoltage,
    TargetCurrent,
}

/// Byte address of a register.
pub fn register_address(r: Register) -> (a: usize)
    ensures
        a == match r {
            Register::TargetVoltage => 0usize,
            Register::TargetCurrent => 4usize,
        },
{
    match r {
        Register::TargetVoltage => 0,
        Register::TargetCurrent => 4,
    }
}

/// The number that four bytes hold, most significant first.
pub open spec fn be_u32(b: Seq<u8>) -> int {
    b[0] * 0x100_0000 + b[1] * 0x1_0000 + b[2] * 0x100 + b[3]
}

/// `v` restricted to `[lo, hi]`.
pub open spec fn clamp_spec(v: int, lo: int, hi: int) -> int {
    if v < lo {
        lo
    } else if v > hi {
        hi
    } else {
        v
    }
}

/// Reads a big-endian 32-bit number.
pub fn u32_from_be_bytes(b: [u8; 4]) -> (r: u32)
    ensures
        r as int == be_u32(b@),
{
    let r = b[0] as u32 * 0x100_0000 + b[1] as u32 * 0x1_0000 + b[2] as u32 * 0x100 + b[3] as u32;
    r
}

/// Writes a 32-bit number big-endian.
pub fn u32_to_be_bytes(v: u32) -> (b: [u8; 4])
    ensures
        b@ == seq![
            (v / 0x100_0000) as u8,
            (v / 0x1_0000 % 0x100) as u8,
            (v / 0x100 % 0x100) as u8,
            (v % 0x100) as u8,
        ],
{
    let b = [(v / 0x100_0000) as u8, (v / 0x1_0000 % 0x100) as u8, (v / 0x100 % 0x100) as u8, (v % 0x100) as u8];
    assert(b@ =~= seq![
        (v / 0x100_0000) as u8,
        (v / 0x1_0000 % 0x100) as u8,
        (v / 0x100 % 0x100) as u8,
        (v % 0x100) as u8,
    ]);
    b
}

/// Restricts `v` to `[lo, hi]`.
pub fn clamp_u32(v: u32, lo: u32, hi: u32) -> (r: u32)
    requires
        lo <= hi,
    ensures
        r as int == clamp_spec(v as int, lo as int, hi as int),
{
    if v < lo {
        lo
    } else if v > hi {
        hi
    } else {
        v
    }
}

/// The target voltage that a stored register value stands for, in millivolts.
pub fn target_voltage_from_bytes(data: [u8; 4]) -> (r: u32)
    ensures
        r as int == clamp_spec(
            be_u32(data@),
            MIN_TARGET_VOLTAGE_MV as int,
            MAX_TARGET_VOLTAGE_MV as int,
        ),
{
    clamp_u32(u32_from_be_bytes(data), MIN_TARGET_VOLTAGE_MV, MAX_TARGET_VOLTAGE_MV)
}

/// The target current that a stored register value stands for, in
/// milliamperes.
pub fn target_current_from_bytes(data: [u8; 4]) -> (r: u32)
    ensures
        r as int == clamp_spec(
            be_u32(data@),
            MIN_TARGET_CURRENT_MA as int,
            MAX_TARGET_CURRENT_MA as int,
        ),
{
    clamp_u32(u32_from_be_bytes(data), MIN_TARGET_CURRENT_MA, MAX_TARGET_CURRENT_MA)
}

/// The persisted configuration.
#[derive(PartialEq, Eq, Structural, Clone, Copy, Debug)]
pub struct Config {
    /// In millivolts.
    pub target_voltage_mv: u32,
    /// In milliamperes.
    pub target_current_ma: u32,
}

impl Default for Config {
    fn default() -> (r: Config)
        ensures
            r == (Config { target_voltage_mv: 5000, target_current_ma: 500 }),
    {
        Config { target_voltage_mv: 5000, target_current_ma: 500 }
    }
}

/// The configuration store. This board has no memory fitted for it: writes
/// are accepted and dropped, and reads find every register zero, which the
/// range of each setting raises to its lowest value.
pub struct ConfigManager {}

impl ConfigManager {
    pub fn new() -> (r: ConfigManager) {
        ConfigManager {  }
    }

    /// Reads a register into `buffer`; with no memory fitted it leaves the
    /// buffer as it is.
    fn read(&mut self, register: Register, buffer: &mut [u8; 4]) -> (r: Result<
        (),
        ConfigManagerError,
    >)
        ensures
            r.is_ok(),
            final(buffer)@ == old(buffer)@,
    {
        Ok(())
    }

    /// Writes `data` to a register; with no memory fitted it is dropped.
    fn write(&mut self, register: Register, data: &[u8; 4]) -> (r: Result<(), ConfigManagerError>)
        ensures
            r.is_ok(),
    {
        Ok(())
    }

    /// The stored target voltage, in millivolts, clamped to its range.
    pub fn read_target_voltage(&mut self) -> (r: Result<u32, ConfigManagerError>)
        ensures
            r == Ok::<u32, ConfigManagerError>(MIN_TARGET_VOLTAGE_MV),
    {
        let mut data: [u8; 4] = [0u8; 4];
        match self.read(Register::TargetVoltage, &mut data) {
            Ok(()) => {},
            Err(e) => return Err(e),
        }
        assert(be_u32(data@) == 0);
        Ok(target_voltage_from_bytes(data))
    }

    /// The stored target current, in milliamperes, clamped to its range.
    pub fn read_target_current(&mut self) -> (r: Result<u32, ConfigManagerError>)
        ensures
            r == Ok::<u32, ConfigManagerError>(MIN_TARGET_CURRENT_MA),
    {
        let mut data: [u8; 4] = [0u8; 4];
        match self.read(Register::TargetCurrent, &mut data) {
            Ok(()) => {},
            Err(e) => return Err(e),
        }
        assert(be_u32(data@) == 0);
        Ok(target_current_from_bytes(data))
    }

    /// Stores a target voltage, in millivolts.
    pub fn write_target_voltage(&mut self, voltage_mv: u32) -> (r: Result<(), ConfigManagerError>)
        ensures
            r.is_ok(),
    {
        let data = u32_to_be_bytes(voltage_mv);
        self.write(Register::TargetVoltage, &data)
    }

    /// Stores a target current, in milliamperes.
    pub fn write_target_current(&mut self, current_ma: u32) -> (r: Result<(), ConfigManagerError>)
        ensures
            r.is_ok(),
    {
        let data = u32_to_be_bytes(current_ma);
        self.write(Register::TargetCurrent, &data)
    }

    /// Reads both settings.
    pub fn read_config(&mut self) -> (r: Result<Config, ConfigManagerError>)
        ensures
            r == Ok::<Config, ConfigManagerError>(
                Config {
                    target_voltage_mv: MIN_TARGET_VOLTAGE_MV,
                    target_current_ma: MIN_TARGET_CURRENT_MA,
                },
            ),
    {
        let target_voltage_mv = match self.read_target_voltage() {
            Ok(v) => v,
            Err(e) => return Err(e),
        };
        let target_current_ma = match self.read_target_current() {
            Ok(v) => v,
            Err(e) => return Err(e),
        };
        Ok(Config { target_voltage_mv, target_current_ma })
    }

    /// Stores the default settings.
    pub fn reset_config(&mut self) -> (r: Result<(), ConfigManagerError>)
        ensures
            r.is_ok(),
    {
        let config = Config::default();
        match self.write_target_voltage(config.target_voltage_mv) {
            Ok(()) => {},
            Err(e) => return Err(e),
        }
        self.write_target_current(config.target_current_ma)
    }
}

} // verus!
