use torquebridge::inputs::{
    caps_query_result, decode_buttons, decode_pov, device_not_present, frame_from_poll,
    poll_result, utf16_to_string, WinmmDeviceInfo, WinmmError, WinmmJoystick, JOYERR_NOERROR,
    JOYERR_UNPLUGGED, JOY_POVCENTERED, SLIDER_CENTER,
};

#[test]
fn decode_pov_maps_centered_to_minus_one() {
    assert_eq!(decode_pov(JOY_POVCENTERED), -1);
    assert_eq!(decode_pov(9000), 9000);
}

#[test]
fn decode_buttons_reads_one_bit_per_button() {
    let buttons = decode_buttons(0b1010_0001, 8);
    assert_eq!(buttons.len(), 32);
    assert!(buttons[0]);
    assert!(!buttons[1]);
    assert!(buttons[5]);
    assert!(buttons[7]);
    assert!(!buttons[31]);
    assert!(decode_buttons(0x8000_0000, 32)[31]);
}

#[test]
fn utf16_names_stop_at_the_first_zero_unit() {
    let mut raw = [0u16; 8];
    for (slot, unit) in raw.iter_mut().zip("Wheel".encode_utf16()) {
        *slot = unit;
    }
    raw[6] = 'x' as u16;
    assert_eq!(utf16_to_string(&raw), "Wheel");
    assert_eq!(utf16_to_string(&[0x0041, 0xD800, 0x0042]), "A\u{FFFD}B");
    assert_eq!(utf16_to_string(&[]), "");
}

#[test]
fn device_info_takes_its_name_from_the_caps_buffer() {
    let mut raw = [0u16; 32];
    for (slot, unit) in raw.iter_mut().zip("FFBeast".encode_utf16()) {
        *slot = unit;
    }
    let info = WinmmDeviceInfo::from_caps(3, &raw, 6, 24);
    assert_eq!(info.id, 3);
    assert_eq!(info.name, "FFBeast");
    assert_eq!(info.axis_count, 6);
    assert_eq!(info.button_count, 24);
}

#[test]
fn poll_frames_center_unpolled_sliders() {
    let frame = frame_from_poll([1, 2, 3, 4, 5, 6], 0b10, 2, JOY_POVCENTERED);
    assert_eq!((frame.x, frame.y, frame.z), (1, 2, 3));
    assert_eq!((frame.rotation_x, frame.rotation_y, frame.rotation_z), (4, 5, 6));
    assert_eq!(frame.sliders, [SLIDER_CENTER, SLIDER_CENTER]);
    assert_eq!(frame.buttons.len(), 32);
    assert!(frame.buttons[1] && !frame.buttons[0]);
    assert_eq!(frame.point_of_view_controllers, vec![-1]);
}

#[test]
fn winmm_status_codes_map_to_results() {
    assert!(matches!(caps_query_result(1, JOYERR_NOERROR), Ok(true)));
    assert!(matches!(caps_query_result(1, JOYERR_UNPLUGGED), Ok(false)));
    match caps_query_result(4, 2) {
        Err(WinmmError::Api { function, device_id, code }) => {
            assert_eq!(function, "joyGetDevCapsW");
            assert_eq!(device_id, 4);
            assert_eq!(code, 2);
        }
        other => panic!("unexpected result: {other:?}"),
    }
    assert!(matches!(
        device_not_present(9),
        WinmmError::Api { function: "joyGetDevCapsW", device_id: 9, code: 0 }
    ));
    assert!(poll_result(0, JOYERR_NOERROR).is_ok());
    assert!(matches!(
        poll_result(2, 167),
        Err(WinmmError::Api { function: "joyGetPosEx", device_id: 2, code: 167 })
    ));
}

#[test]
fn portable_build_reports_unsupported_platform() {
    assert!(matches!(WinmmJoystick::list_devices(), Err(WinmmError::UnsupportedPlatform)));
    assert!(matches!(WinmmJoystick::open(0), Err(WinmmError::UnsupportedPlatform)));
    let mut joystick = WinmmJoystick::opened(5, "Wheel".to_string());
    assert!(matches!(joystick.poll_input_frame(), Err(WinmmError::UnsupportedPlatform)));
    assert_eq!(joystick.id(), 5);
    assert_eq!(joystick.name(), "Wheel");
}
