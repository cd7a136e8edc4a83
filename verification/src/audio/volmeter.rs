//! Volume meters: they watch a source's levels and prepare them for display.

use crate::audio::fader::ObsFaderType;
use crate::error::ObsError;
use crate::handle::SafeHandle;
use vstd::prelude::*;
use vstd::std_specs::convert::FromSpecImpl;

verus! {

/// How a volume meter finds the peak.
#[derive(Clone, Copy, Debug, PartialEq, Eq, Structural)]
pub enum ObsPeakMeterType {
    /// The largest sample: common, and not very accurate.
    SamplePeak,
    /// The largest value between samples: four times the work, and accurate
    /// to half a decibel.
    TruePeak,
}

impl ObsPeakMeterType {
    /// The number that the engine knows the kind of meter by.
    pub open spec fn number(self) -> u32 {
        match self {
            ObsPeakMeterType::SamplePeak => 0,
            ObsPeakMeterType::TruePeak => 1,
        }
    }
}

impl FromSpecImpl<ObsPeakMeterType> for u32 {
    open spec fn obeys_from_spec() -> bool {
        true
    }

    open spec fn from_spec(t: ObsPeakMeterType) -> u32 {
        t.number()
    }
}

impl From<ObsPeakMeterType> for u32 {
    fn from(t: ObsPeakMeterType) -> (n: u32) {
        match t {
            ObsPeakMeterType::SamplePeak => 0,
            ObsPeakMeterType::TruePeak => 1,
        }
    }
}

/// The largest number of audio channels that the engine handles.
pub const MAX_AUDIO_CHANNELS: usize = 8;

/// A volume meter of the engine.
#[derive(Clone, Copy, Debug, PartialEq, Eq, Structural)]
pub struct ObsVolmeter {
    volmeter: SafeHandle,
    fader_type: ObsFaderType,
}

impl ObsVolmeter {
    /// The native volume meter.
    pub closed spec fn spec_handle(self) -> SafeHandle {
        self.volmeter
    }

    /// The curve by which the meter maps levels for display.
    pub closed spec fn spec_fader_type(self) -> ObsFaderType {
        self.fader_type
    }

    /// The volume meter that the engine made with the curve `fader_type`.
    /// The engine's answer decides: its error is passed on, and an answer
    /// without a meter is an error of its own.
    pub fn new(fader_type: ObsFaderType, created: Result<SafeHandle, ObsError>) -> (r: Result<
        ObsVolmeter,
        ObsError,
    >)
        ensures
            match created {
                Err(e) => r == Err::<ObsVolmeter, ObsError>(e),
                Ok(handle) => if handle.spec_addr() == 0 {
                    r == Err::<ObsVolmeter, ObsError>(ObsError::NullHandle)
                } else {
                    r matches Ok(meter) && meter.spec_handle() == handle && meter.spec_fader_type()
                        == fader_type
                },
            },
    {
        match created {
            Err(e) => Err(e),
            Ok(handle) => {
                if handle.is_null() {
                    Err(ObsError::NullHandle)
                } else {
                    Ok(ObsVolmeter { volmeter: handle, fader_type })
                }
            },
        }
    }

    /// The native volume meter.
    pub fn as_ptr(&self) -> (handle: SafeHandle)
        ensures
            handle == self.spec_handle(),
    {
        self.volmeter
    }

    /// The curve by which the meter maps levels for display.
    pub fn fader_type(&self) -> (t: ObsFaderType)
        ensures
            t == self.spec_fader_type(),
    {
        self.fader_type
    }
}

} // verus!
