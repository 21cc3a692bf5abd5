use moza_bms_bridge::decimal::u64_text;
use moza_bms_bridge::ffb_data::{
    frame_key, ComputeData, FrameTelemetryString, MozaFFBData, FIELD_COUNT,
};
use moza_bms_bridge::session::{decide_tick, run_tick, TickAction, TickOutcome};
use moza_bms_bridge::snapshot::{EventSnapshot, FlightReadings};
use moza_bms_bridge::weapons::{cannon_shells, latch_step, weapon_text};

fn readings(rpm: &str, gear_value: &str, afterburner: &str) -> FlightReadings {
    let z = || "0".to_string();
    FlightReadings {
        rpm: rpm.to_string(),
        left_gear_pos: z(),
        nose_gear_pos: z(),
        right_gear_pos: z(),
        x_dot: z(),
        y_dot: z(),
        z_dot: z(),
        vt: z(),
        kias: z(),
        alpha: z(),
        current_heading: z(),
        pitch: z(),
        roll: z(),
        gear_value: gear_value.to_string(),
        speed_brake: z(),
        afterburner: afterburner.to_string(),
        flare_count: z(),
        chaff_count: z(),
        mach: z(),
    }
}

fn quiet_event() -> EventSnapshot {
    EventSnapshot {
        aa_missile_fired: 0,
        bomb_dropped: 0,
        bullets_fired: 0,
        on_ground: false,
        paused: false,
        ejecting: false,
        end_flight: false,
        exit_game: false,
    }
}

fn frame_with(rpm: &str, gear: &str, ab: &str, weapon: &str, shells: &str) -> String {
    format!(
        "aircraft_name,F-16C_50;engine_rpm_left,{rpm};engine_rpm_right,0;left_gear,0;nose_gear,0;right_gear,0;acc_x,0;acc_y,0;acc_z,0;wind_x,0;wind_y,0;wind_z,0;vector_velocity_x,0;vector_velocity_y,0;vector_velocity_z,0;tas,0;ias,0;vertical_velocity_speed,0;aoa,0;heading,0;pitch,0;bank,0;aos,0;euler_vx,0;euler_vy,0;euler_vz,0;helicopter_rotor_rpm,0;canopy_pos,0;flap_pos,0;gear_value,{gear};speedbrake_value,0;afterburner_1,0;afterburner_2,{ab};weapon,{weapon};flare,0;chaff,0;cannon_shells,{shells};mach,0;h_above_sea_level,245;led_console,0;led_instruments_result,0;light_apu_ready,0;light_gear_warning,0;light_gear_indicator,0;"
    )
}

const ALL_WEAPONS: &str = "f-16c_hts_pod-4.15.44.808*1~AIM-120C-4.4.7.106*1~Mk-82-4.5.9.31*1";

#[test]
fn end_to_end_tick_frame() {
    let rpm: f32 = 96.2;
    let gear = format!("{}", 0.5f32 - 0.01011961698532f32);
    let ab = format!("{}", (97.0f32 - rpm) / 1.5);
    let mut data = MozaFFBData::default();
    let mut event = quiet_event();
    event.on_ground = true;
    let flight = readings(&format!("{}", rpm), &gear, &ab);
    let out = run_tick(&mut data, &flight, &event);
    let expected = frame_with("96.2", &gear, &ab, ALL_WEAPONS, "520");
    match out {
        TickOutcome::Frame(f) => assert_eq!(f, expected),
        _ => panic!("a quiet tick sends a frame"),
    }
    assert!(ab.starts_with("0.533"));
}

#[test]
fn default_frame_has_every_field() {
    let data = MozaFFBData::default();
    let frame = data.telemetry_string();
    let expected = "aircraft_name,;engine_rpm_left,0;engine_rpm_right,0;left_gear,0;nose_gear,0;right_gear,0;acc_x,0;acc_y,0;acc_z,0;wind_x,0;wind_y,0;wind_z,0;vector_velocity_x,0;vector_velocity_y,0;vector_velocity_z,0;tas,0;ias,0;vertical_velocity_speed,0;aoa,0;heading,0;pitch,0;bank,0;aos,0;euler_vx,0;euler_vy,0;euler_vz,0;helicopter_rotor_rpm,0;canopy_pos,0;flap_pos,0;gear_value,0;speedbrake_value,0;afterburner_1,0;afterburner_2,0;weapon,;flare,0;chaff,0;cannon_shells,0;mach,0;h_above_sea_level,0;led_console,0;led_instruments_result,0;light_apu_ready,0;light_gear_warning,0;light_gear_indicator,0;";
    assert_eq!(frame, expected);
    assert_eq!(data.values.len(), FIELD_COUNT);
}

#[test]
fn frame_keeps_nan_and_negative_values() {
    let mut data = MozaFFBData::default();
    let flight = readings(&format!("{}", f32::NAN), "-0.25", "-3");
    data.compute_ffb_data(&flight, &quiet_event());
    let frame = data.telemetry_string();
    assert_eq!(frame, frame_with("NaN", "-0.25", "-3", ALL_WEAPONS, "520"));
    assert_eq!(frame.matches(';').count(), 44);
}

#[test]
fn paused_tick_sends_nothing_and_keeps_latches() {
    let mut data = MozaFFBData::default();
    let mut event = quiet_event();
    event.paused = true;
    event.aa_missile_fired = 4;
    event.bomb_dropped = 2;
    let out = run_tick(&mut data, &readings("90", "1", "0"), &event);
    assert!(matches!(out, TickOutcome::Skipped));
    assert_eq!(data.last_aa_missile_count, 0);
    assert_eq!(data.last_bomb_count, 0);
    assert_eq!(data.telemetry_string(), MozaFFBData::default().telemetry_string());
}

#[test]
fn ejecting_and_end_flight_skip() {
    let mut event = quiet_event();
    event.ejecting = true;
    assert_eq!(decide_tick(&event), TickAction::Skip);
    let mut event = quiet_event();
    event.end_flight = true;
    assert_eq!(decide_tick(&event), TickAction::Skip);
    assert_eq!(decide_tick(&quiet_event()), TickAction::Send);
}

#[test]
fn exit_tick_terminates_without_frame() {
    let mut data = MozaFFBData::default();
    let mut event = quiet_event();
    event.exit_game = true;
    event.paused = true;
    event.aa_missile_fired = 3;
    assert_eq!(decide_tick(&event), TickAction::Terminate);
    let out = run_tick(&mut data, &readings("90", "1", "0"), &event);
    assert!(matches!(out, TickOutcome::Terminated));
    assert_eq!(data.last_aa_missile_count, 0);
}

#[test]
fn missile_latch_inverted_polarity() {
    let mut data = MozaFFBData::default();
    let flight = readings("80", "0", "0");
    let mut event = quiet_event();
    event.aa_missile_fired = 1;
    data.compute_ffb_data(&flight, &event);
    assert_eq!(data.last_aa_missile_count, 1);
    assert_eq!(data.values[32], "f-16c_hts_pod-4.15.44.808*1~Mk-82-4.5.9.31*1");
    data.compute_ffb_data(&flight, &event);
    assert_eq!(data.last_aa_missile_count, 1);
    assert_eq!(data.values[32], ALL_WEAPONS);
}

#[test]
fn bomb_latch_inverted_polarity() {
    let mut data = MozaFFBData::default();
    let flight = readings("80", "0", "0");
    let mut event = quiet_event();
    event.bomb_dropped = 2;
    data.compute_ffb_data(&flight, &event);
    assert_eq!(data.last_bomb_count, 2);
    assert_eq!(data.values[32], "f-16c_hts_pod-4.15.44.808*1~AIM-120C-4.4.7.106*1");
    event.bomb_dropped = 1;
    data.compute_ffb_data(&flight, &event);
    assert_eq!(data.last_bomb_count, 2);
    assert_eq!(data.values[32], ALL_WEAPONS);
}

#[test]
fn latch_step_cases() {
    assert_eq!(latch_step(0, 0), (0, true));
    assert_eq!(latch_step(0, 1), (1, false));
    assert_eq!(latch_step(3, 2), (3, true));
    assert_eq!(latch_step(254, 255), (255, false));
}

#[test]
fn weapon_text_cases() {
    assert_eq!(weapon_text(false, false), "f-16c_hts_pod-4.15.44.808*1");
    assert_eq!(weapon_text(true, false), "f-16c_hts_pod-4.15.44.808*1~AIM-120C-4.4.7.106*1");
    assert_eq!(weapon_text(false, true), "f-16c_hts_pod-4.15.44.808*1~Mk-82-4.5.9.31*1");
    assert_eq!(weapon_text(true, true), ALL_WEAPONS);
}

#[test]
fn cannon_rounds_remaining() {
    assert_eq!(cannon_shells(0), 520);
    assert_eq!(cannon_shells(20), 500);
    assert_eq!(cannon_shells(255), 265);
    let mut data = MozaFFBData::default();
    let mut event = quiet_event();
    event.bullets_fired = 37;
    data.compute_ffb_data(&readings("80", "0", "0"), &event);
    assert_eq!(data.values[35], "483");
}

#[test]
fn decimal_text_values() {
    assert_eq!(u64_text(0), "0");
    assert_eq!(u64_text(9), "9");
    assert_eq!(u64_text(10), "10");
    assert_eq!(u64_text(520), "520");
    assert_eq!(u64_text(u64::MAX), u64::MAX.to_string());
}

#[test]
fn frame_keys_in_order() {
    assert_eq!(frame_key(0), "aircraft_name");
    assert_eq!(frame_key(25), "euler_vz");
    assert_eq!(frame_key(26), "helicopter_rotor_rpm");
    assert_eq!(frame_key(27), "canopy_pos");
    assert_eq!(frame_key(43), "light_gear_indicator");
}

#[test]
fn passthrough_fields_copied() {
    let mut flight = readings("101.5", "0.75", "1");
    flight.z_dot = "-12.5".to_string();
    flight.mach = "0.9".to_string();
    let mut data = MozaFFBData::default();
    data.compute_ffb_data(&flight, &quiet_event());
    assert_eq!(data.values[1], "101.5");
    assert_eq!(data.values[14], "-12.5");
    assert_eq!(data.values[17], "-12.5");
    assert_eq!(data.values[28], "0.75");
    assert_eq!(data.values[31], "1");
    assert_eq!(data.values[36], "0.9");
    assert_eq!(data.values[37], "245");
}
