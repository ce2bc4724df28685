use torquebridge::config::{ButtonConfig, ButtonId, DPadConfig};
use torquebridge::domain::InputFrame;
use torquebridge::feeder::{
    button_bind, button_mappings, dpad_mapping, get_button_array, get_pov_array, pack_bools,
    pack_bools_in_u32, AxisKind, AxisRole, ButtonData, DPadData, InputSnapshot,
};

fn button(id: ButtonId, index: usize) -> ButtonConfig {
    ButtonConfig { id, index }
}

fn snapshot(buttons: Vec<bool>, povs: Vec<i32>) -> InputSnapshot {
    let frame = InputFrame {
        x: 1,
        y: 2,
        z: 3,
        rotation_x: 4,
        rotation_y: 5,
        rotation_z: 6,
        sliders: [7, 8],
        buttons,
        point_of_view_controllers: povs,
    };
    InputSnapshot::from_frame(&frame)
}

#[test]
fn axes_are_numbered_in_configuration_order() {
    let s = snapshot(Vec::new(), Vec::new());
    let expected = [1, 2, 3, 4, 5, 6, 7, 8];
    for (index, value) in expected.iter().enumerate() {
        let axis = AxisKind::from_index(index as i32).expect("axis");
        assert_eq!(s.axis_value(axis), *value);
    }
    assert_eq!(AxisKind::from_index(8), None);
    assert_eq!(AxisKind::from_index(-1), None);
    let frame = InputFrame::default();
    assert_eq!(frame.axis_value(6), Some(0));
    assert_eq!(frame.axis_value(9), None);
}

#[test]
fn axis_roles_are_read_from_their_names() {
    assert_eq!(AxisRole::from_id("Steering"), Some(AxisRole::Steering));
    assert_eq!(AxisRole::from_id("Handbrake"), Some(AxisRole::Handbrake));
    assert_eq!(AxisRole::from_id("steering"), None);
}

#[test]
fn buttons_bind_by_number_or_name() {
    assert_eq!(button_bind(&button(ButtonId::Integer(5), 0)), Some(5));
    assert_eq!(button_bind(&button(ButtonId::Integer(-1), 0)), None);
    assert_eq!(button_bind(&button(ButtonId::Text("XBoxA".to_string()), 0)), Some(2));
    assert_eq!(button_bind(&button(ButtonId::Text("NextGear".to_string()), 0)), Some(17));
    assert_eq!(button_bind(&button(ButtonId::Text("Nope".to_string()), 0)), None);
    assert_eq!(button_bind(&button(ButtonId::Other, 0)), None);
}

#[test]
fn button_mappings_are_grouped_by_virtual_button() {
    let controllers = vec![
        Some(vec![button(ButtonId::Integer(3), 0), button(ButtonId::Integer(1), 1)]),
        None,
        Some(vec![button(ButtonId::Integer(1), 4), button(ButtonId::Other, 5)]),
    ];
    let mappings = button_mappings(&controllers);
    assert_eq!(
        mappings,
        vec![
            ButtonData { controller_index: 0, button_index: 1, button_bind: 1 },
            ButtonData { controller_index: 2, button_index: 4, button_bind: 1 },
            ButtonData { controller_index: 0, button_index: 0, button_bind: 3 },
        ]
    );

    let snapshots = vec![snapshot(vec![false, false], Vec::new()), snapshot(Vec::new(), Vec::new()), snapshot(vec![false, false, false, false, true], Vec::new())];
    let pressed = get_button_array(&snapshots, &mappings);
    assert!(pressed[1]);
    assert!(!pressed[3]);
    assert!(!pressed[0]);
}

#[test]
fn dpad_follows_the_last_configured_hat() {
    let mapping = dpad_mapping(&[None, Some(DPadConfig { index: 0 })]).expect("mapping");
    assert_eq!(mapping, DPadData { controller_index: 1, dpad_index: 0 });
    let snapshots = vec![snapshot(Vec::new(), Vec::new()), snapshot(Vec::new(), vec![9000])];
    assert_eq!(get_pov_array(&snapshots, &mapping), [true, false, false, false]);
    let centered = vec![snapshot(Vec::new(), Vec::new()), snapshot(Vec::new(), vec![-1])];
    assert_eq!(get_pov_array(&centered, &mapping), [true, true, true, true]);
    assert_eq!(get_pov_array(&[], &mapping), [true, true, true, true]);
    let west = vec![snapshot(Vec::new(), Vec::new()), snapshot(Vec::new(), vec![27000])];
    assert_eq!(get_pov_array(&west, &mapping), [true, true, false, false]);
    let diagonal = vec![snapshot(Vec::new(), Vec::new()), snapshot(Vec::new(), vec![4500])];
    assert_eq!(get_pov_array(&diagonal, &mapping), [false, false, false, false]);
    assert_eq!(dpad_mapping(&[None, None]), None);
    assert_eq!(
        dpad_mapping(&[Some(DPadConfig { index: 1 }), None, Some(DPadConfig { index: 2 })]),
        Some(DPadData { controller_index: 2, dpad_index: 2 })
    );
}

#[test]
fn switches_pack_least_significant_first() {
    assert_eq!(pack_bools(&[true, false, true]), vec![0b101]);
    let mut nine = vec![false; 9];
    nine[7] = true;
    nine[8] = true;
    assert_eq!(pack_bools(&nine), vec![0x80, 0x01]);
    assert_eq!(pack_bools(&[]), Vec::<u8>::new());

    let mut all = [false; 128];
    all[0] = true;
    all[9] = true;
    all[31] = true;
    all[40] = true;
    assert_eq!(pack_bools_in_u32(&all), 0x8000_0201);
}
