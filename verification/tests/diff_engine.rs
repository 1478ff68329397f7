use bus2komsi::komsi::KomsiCommandKind;
use bus2komsi::vehicle::VehicleState;
use bus2komsi::vehicle::changed_fields;
use bus2komsi::vehicle::command_kind_order;
use bus2komsi::vehicle::compare_vehicle_states;
use bus2komsi::vehicle::field_value;
use bus2komsi::vehicle::init_vehicle_state;

#[test]
fn initial_state_is_all_zero() {
    let s = init_vehicle_state();
    for k in command_kind_order() {
        assert_eq!(field_value(&s, k), 0);
    }
}

#[test]
fn diff_of_a_state_with_itself_is_empty() {
    let mut s = init_vehicle_state();
    s.ignition = 1;
    s.engine = 1;
    s.speed = 47;
    s.fuel = 80;
    s.battery_light = 1;
    let buffer = compare_vehicle_states(&s, &s, false);
    assert!(buffer.is_empty(), "no field differs, so not even a marker is sent");
}

#[test]
fn one_changed_field_gives_one_command_and_the_marker() {
    let old = init_vehicle_state();
    let mut new = init_vehicle_state();
    new.fuel = 7;
    let buffer = compare_vehicle_states(&old, &new, false);
    assert_eq!(buffer, b"M7\n".to_vec());
}

#[test]
fn speed_change_scenario() {
    let old = init_vehicle_state();
    let mut new = init_vehicle_state();
    new.speed = 30;
    let buffer = compare_vehicle_states(&old, &new, false);
    assert_eq!(buffer, b"N30\n".to_vec());
}

#[test]
fn ignition_and_engine_scenario_keeps_the_order() {
    let old = init_vehicle_state();
    let mut new = init_vehicle_state();
    new.ignition = 1;
    new.engine = 1;
    let buffer = compare_vehicle_states(&old, &new, false);
    assert_eq!(buffer, b"A1B1\n".to_vec());
}

#[test]
fn commands_follow_the_fixed_order_not_the_change_order() {
    let old = init_vehicle_state();
    let mut new = init_vehicle_state();
    // A late-order field (battery light) and an early-order field (doors):
    // the doors command must still come first.
    new.battery_light = 1;
    new.doors = 2;
    new.lights_main = 1;
    let buffer = compare_vehicle_states(&old, &new, false);
    assert_eq!(buffer, b"C2G1Q1\n".to_vec());
}

#[test]
fn force_emits_all_sixteen_commands() {
    let s = init_vehicle_state();
    let buffer = compare_vehicle_states(&s, &s, true);
    assert_eq!(
        buffer,
        b"A0B0C0D0E0F0G0H0I0J0K0L0M0N0P0Q0\n".to_vec(),
        "force re-sends every field even when nothing differs"
    );
}

#[test]
fn force_uses_the_new_state_values() {
    let old = init_vehicle_state();
    let mut new = init_vehicle_state();
    new.speed = 12;
    new.maxspeed = 50;
    let buffer = compare_vehicle_states(&old, &new, true);
    assert_eq!(buffer, b"A0B0C0D0E0F0G0H0I0J0K0L0M0N12P50Q0\n".to_vec());
}

#[test]
fn change_report_lists_changed_fields_in_order() {
    let old = init_vehicle_state();
    let mut new = init_vehicle_state();
    new.battery_light = 1;
    new.ignition = 1;
    new.speed = 5;
    let report = changed_fields(&old, &new, false);
    assert_eq!(
        report,
        vec![
            (KomsiCommandKind::Ignition, 0, 1),
            (KomsiCommandKind::Speed, 0, 5),
            (KomsiCommandKind::BatteryLight, 0, 1),
        ]
    );
}

#[test]
fn change_report_is_empty_when_nothing_changed() {
    let s = init_vehicle_state();
    let report = changed_fields(&s, &s, false);
    assert!(report.is_empty());
}

#[test]
fn the_fixed_order_lists_every_kind_once() {
    let kinds = command_kind_order();
    assert_eq!(kinds.len(), 16);
    let expected = vec![
        KomsiCommandKind::Ignition,
        KomsiCommandKind::Engine,
        KomsiCommandKind::PassengerDoorsOpen,
        KomsiCommandKind::FixingBrake,
        KomsiCommandKind::Indicator,
        KomsiCommandKind::LightsWarning,
        KomsiCommandKind::LightsMain,
        KomsiCommandKind::LightsStopRequest,
        KomsiCommandKind::LightsStopBrake,
        KomsiCommandKind::LightsFrontDoor,
        KomsiCommandKind::LightsSecondDoor,
        KomsiCommandKind::LightsHighBeam,
        KomsiCommandKind::Fuel,
        KomsiCommandKind::Speed,
        KomsiCommandKind::MaxSpeed,
        KomsiCommandKind::BatteryLight,
    ];
    assert_eq!(kinds, expected);
}

#[test]
fn field_values_read_the_matching_fields() {
    let s = VehicleState {
        ignition: 1,
        engine: 2,
        doors: 3,
        speed: 44,
        maxspeed: 55,
        fuel: 66,
        indicator: 4,
        fixing_brake: 5,
        lights_warning: 6,
        lights_main: 7,
        lights_front_door: 8,
        lights_second_door: 9,
        lights_stop_request: 10,
        lights_stop_brake: 11,
        lights_high_beam: 12,
        battery_light: 13,
    };
    assert_eq!(field_value(&s, KomsiCommandKind::Ignition), 1);
    assert_eq!(field_value(&s, KomsiCommandKind::Engine), 2);
    assert_eq!(field_value(&s, KomsiCommandKind::PassengerDoorsOpen), 3);
    assert_eq!(field_value(&s, KomsiCommandKind::FixingBrake), 5);
    assert_eq!(field_value(&s, KomsiCommandKind::Indicator), 4);
    assert_eq!(field_value(&s, KomsiCommandKind::LightsWarning), 6);
    assert_eq!(field_value(&s, KomsiCommandKind::LightsMain), 7);
    assert_eq!(field_value(&s, KomsiCommandKind::LightsStopRequest), 10);
    assert_eq!(field_value(&s, KomsiCommandKind::LightsStopBrake), 11);
    assert_eq!(field_value(&s, KomsiCommandKind::LightsFrontDoor), 8);
    assert_eq!(field_value(&s, KomsiCommandKind::LightsSecondDoor), 9);
    assert_eq!(field_value(&s, KomsiCommandKind::LightsHighBeam), 12);
    assert_eq!(field_value(&s, KomsiCommandKind::Fuel), 66);
    assert_eq!(field_value(&s, KomsiCommandKind::Speed), 44);
    assert_eq!(field_value(&s, KomsiCommandKind::MaxSpeed), 55);
    assert_eq!(field_value(&s, KomsiCommandKind::BatteryLight), 13);
}
