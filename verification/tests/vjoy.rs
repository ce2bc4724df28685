use torquebridge::vjoy::ffi::{parse_status, VJoyError, ERROR_SUCCESS};
use torquebridge::vjoy::{
    check_device_readiness, HidUsage, VJoyDeviceError, VJoyDeviceProbe, VirtualJoystickReport,
    VjdStatus, REQUIRED_BUTTONS, REQUIRED_DISC_POVS,
};

fn ready_probe() -> VJoyDeviceProbe {
    VJoyDeviceProbe {
        enabled: true,
        status: VjdStatus::Free,
        axes_present: [true; 8],
        button_count: REQUIRED_BUTTONS,
        disc_pov_count: REQUIRED_DISC_POVS,
        cont_pov_count: 0,
        driver_matches: true,
        dll_version: 0x219,
        driver_version: 0x219,
    }
}

#[test]
fn a_fully_configured_device_is_ready() {
    assert!(check_device_readiness(1, &ready_probe()).is_ok());
}

#[test]
fn readiness_reports_the_first_problem() {
    let disabled = VJoyDeviceProbe { enabled: false, status: VjdStatus::Busy, ..ready_probe() };
    assert!(matches!(check_device_readiness(1, &disabled), Err(VJoyDeviceError::NotEnabled)));
    let owned = VJoyDeviceProbe { status: VjdStatus::Owned, ..ready_probe() };
    assert!(matches!(check_device_readiness(1, &owned), Err(VJoyDeviceError::AlreadyOwned(1))));
    let busy = VJoyDeviceProbe { status: VjdStatus::Busy, ..ready_probe() };
    assert!(matches!(check_device_readiness(2, &busy), Err(VJoyDeviceError::Busy(2))));
    let missing = VJoyDeviceProbe { status: VjdStatus::Missing, ..ready_probe() };
    assert!(matches!(check_device_readiness(3, &missing), Err(VJoyDeviceError::Missing(3))));
    let unknown = VJoyDeviceProbe { status: VjdStatus::from_raw(9), ..ready_probe() };
    assert!(matches!(check_device_readiness(4, &unknown), Err(VJoyDeviceError::UnknownStatus(4))));

    let mut axes = [true; 8];
    axes[3] = false;
    axes[6] = false;
    let no_rx = VJoyDeviceProbe { axes_present: axes, button_count: 0, ..ready_probe() };
    assert!(matches!(
        check_device_readiness(1, &no_rx),
        Err(VJoyDeviceError::MissingAxis { device_id: 1, axis: "RX" })
    ));
    let buttons = VJoyDeviceProbe { button_count: 32, ..ready_probe() };
    assert!(matches!(
        check_device_readiness(1, &buttons),
        Err(VJoyDeviceError::ButtonCount { device_id: 1, expected: 128, actual: 32 })
    ));
    let povs = VJoyDeviceProbe { disc_pov_count: 0, ..ready_probe() };
    assert!(matches!(
        check_device_readiness(1, &povs),
        Err(VJoyDeviceError::DiscPovCount { device_id: 1, expected: 1, actual: 0 })
    ));
    let continuous = VJoyDeviceProbe { cont_pov_count: 1, ..ready_probe() };
    assert!(matches!(
        check_device_readiness(1, &continuous),
        Err(VJoyDeviceError::ContinuousPovUnsupported { device_id: 1 })
    ));
    let mismatch = VJoyDeviceProbe { driver_matches: false, dll_version: 1, driver_version: 2, ..ready_probe() };
    assert!(matches!(
        check_device_readiness(1, &mismatch),
        Err(VJoyDeviceError::DriverMismatch { dll: 1, driver: 2 })
    ));
}

#[test]
fn axis_usages_have_labels_and_codes() {
    assert_eq!(HidUsage::REQUIRED_AXES.len(), 8);
    assert_eq!(HidUsage::X.label(), "X");
    assert_eq!(HidUsage::Sl1.label(), "Dial/Slider1");
    assert_eq!(HidUsage::X.raw(), 48);
    assert_eq!(HidUsage::Sl1.raw(), 55);
}

#[test]
fn reset_report_centers_the_axes() {
    let mut report = VirtualJoystickReport::default();
    report.buttons = 7;
    report.axis_x = 1;
    VirtualJoystickReport::reset_report_state(3, &mut report);
    assert_eq!(report.device_id, 3);
    assert_eq!(report.axis_x, 16_384);
    assert_eq!(report.axis_y, 32_767);
    assert_eq!(report.buttons, 0);
    assert_eq!(report.hats, 0b1111);
    let raw = report.to_raw_state();
    assert_eq!(raw.b_device, 3);
}

#[test]
fn status_codes_become_results() {
    assert!(parse_status("vJoyFfbCbFunc", ERROR_SUCCESS).is_ok());
    match parse_status("Ffb_h_Eff_Report", 13) {
        Err(VJoyError::Parser { function, code }) => {
            assert_eq!(function, "Ffb_h_Eff_Report");
            assert_eq!(code, 13);
        }
        other => panic!("unexpected result: {other:?}"),
    }
}
