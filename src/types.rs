use vstd::prelude::*;

verus! {

/// Currents offered by a source at each fixed voltage, in milliamperes.
#[derive(PartialEq, Eq, Structural, Clone, Copy, Debug)]
pub struct AvailableVoltCurr {
    pub _5v: Option<u32>,
    pub _9v: Option<u32>,
    pub _12v: Option<u32>,
    pub _15v: Option<u32>,
    pub _18v: Option<u32>,
    pub _20v: Option<u32>,
}

impl AvailableVoltCurr {
    /// Nothing offered.
    pub fn default() -> (r: AvailableVoltCurr)
        ensures
            r == (AvailableVoltCurr {
                _5v: None,
                _9v: None,
                _12v: None,
                _15v: None,
                _18v: None,
                _20v: None,
            }),
    {
        AvailableVoltCurr { _5v: None, _9v: None, _12v: None, _15v: None, _18v: None, _20v: None }
    }
}

/// Why a request to the power-delivery sink was refused.
#[derive(PartialEq, Eq, Structural, Clone, Copy, Debug)]
pub enum RequestError {
    Mismatch,
    Unsupported,
}

} // verus!
