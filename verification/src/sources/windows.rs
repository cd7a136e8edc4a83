//! What is common to the capture sources on Windows.

use crate::handle::SafeHandle;
use crate::utils::obs_string::ObsString;
use vstd::prelude::*;

verus! {

/// The kind of source that captures the audio of one process.
pub fn audio_source_type() -> (id: ObsString)
    ensures
        id@ == "wasapi_process_output_capture"@,
{
    ObsString::new("wasapi_process_output_capture")
}

/// Whether the engine can capture the audio of one process: it can where it
/// knows a kind of source by that name, that is, where its answer to the
/// question for the latest such kind is not empty.
pub fn audio_capture_available(latest_type_id: SafeHandle) -> (available: bool)
    ensures
        available == (latest_type_id.spec_addr() != 0),
{
    !latest_type_id.is_null()
}

} // verus!
