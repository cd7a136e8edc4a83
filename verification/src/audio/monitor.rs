//! Where a source's audio goes besides the outputs.

use vstd::prelude::*;
use vstd::std_specs::convert::FromSpecImpl;

verus! {

/// How a source is monitored.
#[derive(Clone, Copy, Debug, PartialEq, Eq, Structural)]
pub enum ObsMonitoringType {
    /// Not at all: the audio goes to the outputs only.
    NoMonitoring,
    /// The audio goes to the monitoring device and not to the outputs.
    MonitorOnly,
    /// The audio goes to the monitoring device and to the outputs.
    MonitorAndOutput,
}

impl ObsMonitoringType {
    /// The number that the engine knows the kind of monitoring by.
    pub open spec fn number(self) -> u32 {
        match self {
            ObsMonitoringType::NoMonitoring => 0,
            ObsMonitoringType::MonitorOnly => 1,
            ObsMonitoringType::MonitorAndOutput => 2,
        }
    }

    /// The kind of monitoring that the engine means by `val`. A number that
    /// names none means no monitoring.
    pub open spec fn of_number(val: u32) -> ObsMonitoringType {
        if val == 1 {
            ObsMonitoringType::MonitorOnly
        } else if val == 2 {
            ObsMonitoringType::MonitorAndOutput
        } else {
            ObsMonitoringType::NoMonitoring
        }
    }
}

impl FromSpecImpl<ObsMonitoringType> for u32 {
    open spec fn obeys_from_spec() -> bool {
        true
    }

    open spec fn from_spec(t: ObsMonitoringType) -> u32 {
        t.number()
    }
}

impl From<ObsMonitoringType> for u32 {
    fn from(t: ObsMonitoringType) -> (n: u32) {
        match t {
            ObsMonitoringType::NoMonitoring => 0,
            ObsMonitoringType::MonitorOnly => 1,
            ObsMonitoringType::MonitorAndOutput => 2,
        }
    }
}

impl FromSpecImpl<u32> for ObsMonitoringType {
    open spec fn obeys_from_spec() -> bool {
        true
    }

    open spec fn from_spec(val: u32) -> ObsMonitoringType {
        ObsMonitoringType::of_number(val)
    }
}

impl From<u32> for ObsMonitoringType {
    fn from(val: u32) -> (t: ObsMonitoringType) {
        match val {
            0 => ObsMonitoringType::NoMonitoring,
            1 => ObsMonitoringType::MonitorOnly,
            2 => ObsMonitoringType::MonitorAndOutput,
            _ => ObsMonitoringType::NoMonitoring,
        }
    }
}

/// Every kind of monitoring comes back from its number.
pub proof fn lemma_monitoring_number_round_trip(t: ObsMonitoringType)
    ensures
        ObsMonitoringType::of_number(t.number()) == t,
{
}

} // verus!
