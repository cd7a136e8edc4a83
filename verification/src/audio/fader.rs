//! Faders: they map a control's position to the level that the engine mixes
//! a source with.

use crate::error::ObsError;
use crate::handle::SafeHandle;
use vstd::prelude::*;
use vstd::std_specs::convert::FromSpecImpl;

verus! {

/// The curve by which a fader maps positions to levels.
#[derive(Clone, Copy, Debug, PartialEq, Eq, Structural)]
pub enum ObsFaderType {
    /// The cube of the position: cheap, and common in software.
    Cubic,
    /// The segments of IEC 60-268-18.
    IEC,
    /// A logarithmic curve.
    Log,
}

impl ObsFaderType {
    /// The number that the engine knows the curve by.
    pub open spec fn number(self) -> u32 {
        match self {
            ObsFaderType::Cubic => 0,
            ObsFaderType::IEC => 1,
            ObsFaderType::Log => 2,
        }
    }
}

impl FromSpecImpl<ObsFaderType> for u32 {
    open spec fn obeys_from_spec() -> bool {
        true
    }

    open spec fn from_spec(t: ObsFaderType) -> u32 {
        t.number()
    }
}

impl From<ObsFaderType> for u32 {
    fn from(t: ObsFaderType) -> (n: u32) {
        match t {
            ObsFaderType::Cubic => 0,
            ObsFaderType::IEC => 1,
            ObsFaderType::Log => 2,
        }
    }
}

/// A fader of the engine.
#[derive(Clone, Copy, Debug, PartialEq, Eq, Structural)]
pub struct ObsFader {
    fader: SafeHandle,
    fader_type: ObsFaderType,
}

impl ObsFader {
    /// The native fader.
    pub closed spec fn spec_handle(self) -> SafeHandle {
        self.fader
    }

    /// The curve that the fader was made with.
    pub closed spec fn spec_fader_type(self) -> ObsFaderType {
        self.fader_type
    }

    /// The fader that the engine made with the curve `fader_type`. The
    /// engine's answer decides: its error is passed on, and an answer
    /// without a fader is an error of its own.
    pub fn new(fader_type: ObsFaderType, created: Result<SafeHandle, ObsError>) -> (r: Result<
        ObsFader,
        ObsError,
    >)
        ensures
            match created {
                Err(e) => r == Err::<ObsFader, ObsError>(e),
                Ok(handle) => if handle.spec_addr() == 0 {
                    r == Err::<ObsFader, ObsError>(ObsError::NullHandle)
                } else {
                    r matches Ok(fader) && fader.spec_handle() == handle && fader.spec_fader_type()
                        == fader_type
                },
            },
    {
        match created {
            Err(e) => Err(e),
            Ok(handle) => {
                if handle.is_null() {
                    Err(ObsError::NullHandle)
                } else {
                    Ok(ObsFader { fader: handle, fader_type })
                }
            },
        }
    }

    /// The native fader.
    pub fn as_ptr(&self) -> (handle: SafeHandle)
        ensures
            handle == self.spec_handle(),
    {
        self.fader
    }

    /// The curve that the fader was made with.
    pub fn fader_type(&self) -> (t: ObsFaderType)
        ensures
            t == self.spec_fader_type(),
    {
        self.fader_type
    }
}

} // verus!
