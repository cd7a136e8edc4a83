use libobs_wrapper::audio::balance::ObsBalanceType;
use libobs_wrapper::audio::fader::{ObsFader, ObsFaderType};
use libobs_wrapper::audio::monitor::ObsMonitoringType;
use libobs_wrapper::audio::volmeter::{ObsPeakMeterType, ObsVolmeter, MAX_AUDIO_CHANNELS};
use libobs_wrapper::error::ObsError;
use libobs_wrapper::handle::SafeHandle;

#[test]
fn test_balance_type_conversion() {
    assert_eq!(ObsBalanceType::SineLaw as u32, 0);
    assert_eq!(ObsBalanceType::SquareLaw as u32, 1);
    assert_eq!(ObsBalanceType::Linear as u32, 2);
}

#[test]
fn test_monitoring_type_conversion() {
    assert_eq!(ObsMonitoringType::NoMonitoring as u32, 0);
    assert_eq!(ObsMonitoringType::MonitorOnly as u32, 1);
    assert_eq!(ObsMonitoringType::MonitorAndOutput as u32, 2);
}

#[test]
fn test_fader_creation() {
    // A fader exists once the engine has made one.
}

#[test]
fn test_volmeter_creation() {
    // A volume meter exists once the engine has made one.
}

#[test]
fn balance_type_to_number_and_back() {
    assert_eq!(u32::from(ObsBalanceType::SineLaw), 0);
    assert_eq!(u32::from(ObsBalanceType::SquareLaw), 1);
    assert_eq!(u32::from(ObsBalanceType::Linear), 2);
    assert_eq!(ObsBalanceType::from(0), ObsBalanceType::SineLaw);
    assert_eq!(ObsBalanceType::from(1), ObsBalanceType::SquareLaw);
    assert_eq!(ObsBalanceType::from(2), ObsBalanceType::Linear);
}

#[test]
fn unknown_balance_number_means_sine_law() {
    assert_eq!(ObsBalanceType::from(3), ObsBalanceType::SineLaw);
    assert_eq!(ObsBalanceType::from(u32::MAX), ObsBalanceType::SineLaw);
}

#[test]
fn monitoring_type_to_number_and_back() {
    assert_eq!(u32::from(ObsMonitoringType::NoMonitoring), 0);
    assert_eq!(u32::from(ObsMonitoringType::MonitorOnly), 1);
    assert_eq!(u32::from(ObsMonitoringType::MonitorAndOutput), 2);
    assert_eq!(ObsMonitoringType::from(0), ObsMonitoringType::NoMonitoring);
    assert_eq!(ObsMonitoringType::from(1), ObsMonitoringType::MonitorOnly);
    assert_eq!(ObsMonitoringType::from(2), ObsMonitoringType::MonitorAndOutput);
}

#[test]
fn unknown_monitoring_number_means_none() {
    assert_eq!(ObsMonitoringType::from(7), ObsMonitoringType::NoMonitoring);
}

#[test]
fn fader_and_meter_types_have_the_engines_numbers() {
    assert_eq!(u32::from(ObsFaderType::Cubic), 0);
    assert_eq!(u32::from(ObsFaderType::IEC), 1);
    assert_eq!(u32::from(ObsFaderType::Log), 2);
    assert_eq!(ObsFaderType::Cubic as u32, 0);
    assert_eq!(ObsFaderType::IEC as u32, 1);
    assert_eq!(ObsFaderType::Log as u32, 2);
    assert_eq!(u32::from(ObsPeakMeterType::SamplePeak), 0);
    assert_eq!(u32::from(ObsPeakMeterType::TruePeak), 1);
    assert_eq!(ObsPeakMeterType::SamplePeak as u32, 0);
    assert_eq!(ObsPeakMeterType::TruePeak as u32, 1);
    assert_eq!(MAX_AUDIO_CHANNELS, 8);
}

#[test]
fn fader_from_a_native_object() {
    let fader = ObsFader::new(ObsFaderType::IEC, Ok(SafeHandle::new(0x1000))).unwrap();
    assert_eq!(fader.as_ptr(), SafeHandle::new(0x1000));
    assert_eq!(fader.fader_type(), ObsFaderType::IEC);
    let copy = fader;
    assert_eq!(copy, fader);
}

#[test]
fn fader_without_a_native_object_is_a_null_handle() {
    assert_eq!(ObsFader::new(ObsFaderType::Cubic, Ok(SafeHandle::null())), Err(ObsError::NullHandle));
}

#[test]
fn fader_passes_the_engines_error_on() {
    assert_eq!(
        ObsFader::new(ObsFaderType::Cubic, Err(ObsError::NotRunning)),
        Err(ObsError::NotRunning)
    );
}

#[test]
fn volmeter_from_a_native_object() {
    let meter = ObsVolmeter::new(ObsFaderType::Log, Ok(SafeHandle::new(0x2000))).unwrap();
    assert_eq!(meter.as_ptr(), SafeHandle::new(0x2000));
    assert_eq!(meter.fader_type(), ObsFaderType::Log);
}

#[test]
fn volmeter_without_a_native_object_is_a_null_handle() {
    assert_eq!(
        ObsVolmeter::new(ObsFaderType::Cubic, Ok(SafeHandle::null())),
        Err(ObsError::NullHandle)
    );
    assert_eq!(
        ObsVolmeter::new(ObsFaderType::Cubic, Err(ObsError::WorkerFailed)),
        Err(ObsError::WorkerFailed)
    );
}
