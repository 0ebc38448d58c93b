use dualsense_cmd::connection::ConnectionState;
use dualsense_cmd::dualsense::{
    is_dualsense, Battery, ConnectionType, ControllerState, MuteLedState, OutputState,
    PlayerLeds, TriggerEffect, TriggerEffectMode,
};
use dualsense_cmd::error::DualSenseError;
use dualsense_cmd::output::{
    bt_output_report, bt_report_body, compute_bt_crc32, frame_bt_report, usb_output_report,
};
use dualsense_cmd::report::{
    decode_buttons, le_i16, parse_bt_report, parse_common_input, parse_usb_report,
};

fn default_bt_body() -> Vec<u8> {
    let mut body = vec![0x31, 0x02, 0x03, 0x15, 0, 0, 0, 0, 0, 0, 0, 0];
    body.extend_from_slice(&[0u8; 22]);
    body.extend_from_slice(&[0u8; 6]);
    body.extend_from_slice(&[0x02, 0, 0x02, 0, 0, 0, 255, 255, 255]);
    body.extend_from_slice(&[0u8; 25]);
    body
}

#[test]
fn dpad_nibbles_decode_to_compass_directions() {
    let dirs = |n: u8| {
        let b = decode_buttons(n, 0, 0);
        (b.dpad_up, b.dpad_right, b.dpad_down, b.dpad_left)
    };
    assert_eq!(dirs(0), (true, false, false, false));
    assert_eq!(dirs(2), (false, true, false, false));
    assert_eq!(dirs(4), (false, false, true, false));
    assert_eq!(dirs(6), (false, false, false, true));
    assert_eq!(dirs(1), (true, true, false, false));
    assert_eq!(dirs(3), (false, true, true, false));
    assert_eq!(dirs(5), (false, false, true, true));
    assert_eq!(dirs(7), (true, false, false, true));
    assert_eq!(dirs(8), (false, false, false, false));
    // face buttons in the high nibble do not disturb the d-pad
    let b = decode_buttons(0xF0, 0, 0);
    assert!(b.square && b.cross && b.circle && b.triangle);
    assert_eq!((b.dpad_up, b.dpad_right, b.dpad_down, b.dpad_left), (true, false, false, false));
}

#[test]
fn battery_percentage_clamps() {
    let b = Battery { level: 5, charging: false, fully_charged: false };
    assert_eq!(b.percentage(), 50);
    let b = Battery { level: 11, charging: false, fully_charged: false };
    assert_eq!(b.percentage(), 100);
    let b = Battery { level: 0, charging: true, fully_charged: false };
    assert_eq!(b.percentage(), 0);
    let b = Battery { level: 255, charging: false, fully_charged: false };
    assert_eq!(b.percentage(), 100);
}

#[test]
fn continuous_effect_round_trips_through_block() {
    let bytes = TriggerEffect::continuous(200).to_bytes();
    assert_eq!(TriggerEffectMode::from_u8(bytes[0]), TriggerEffectMode::Continuous);
    assert_eq!(bytes[2], 200);
    assert_eq!(bytes, [0x01, 0, 200, 0, 0, 0, 0, 0, 0, 0, 0]);
}

#[test]
fn effect_blocks_per_mode() {
    assert_eq!(TriggerEffect::section(70, 160, 200).to_bytes(), [0x02, 70, 160, 200, 0, 0, 0, 0, 0, 0, 0]);
    assert_eq!(TriggerEffect::vibration(10, 30, 90).to_bytes(), [0x06, 10, 90, 30, 0, 0, 0, 0, 0, 0, 0]);
    assert_eq!(TriggerEffect::bow(100).to_bytes(), [0x01, 30, 100, 0, 0, 0, 0, 0, 0, 0, 0]);
    let combined = TriggerEffect {
        mode: TriggerEffectMode::CombinedRV,
        start_position: 20,
        end_position: 180,
        force: 201,
        frequency: 40,
    };
    assert_eq!(combined.to_bytes(), [0x26, 20, 180, 201, 100, 100, 201, 0, 0, 40, 0]);
    let calibration = TriggerEffect { mode: TriggerEffectMode::Calibration, ..TriggerEffect::section(1, 2, 3) };
    assert_eq!(calibration.to_bytes(), [0xFC, 0, 0, 0, 0, 0, 0, 0, 0, 0, 0]);
    assert_eq!(TriggerEffect::default().to_bytes(), [0u8; 11]);
}

#[test]
fn mode_tags_decode() {
    assert_eq!(TriggerEffectMode::from_u8(0x26), TriggerEffectMode::CombinedRV);
    assert_eq!(TriggerEffectMode::from_u8(0xFC), TriggerEffectMode::Calibration);
    assert_eq!(TriggerEffectMode::from_u8(0x06), TriggerEffectMode::Vibration);
    assert_eq!(TriggerEffectMode::from_u8(0x07), TriggerEffectMode::Off);
    assert_eq!(TriggerEffectMode::Vibration.to_u8(), 0x06);
}

#[test]
fn player_led_patterns() {
    assert_eq!(PlayerLeds::from_player(1).to_byte(), 0x04);
    assert_eq!(PlayerLeds::from_player(2).to_byte(), 0x0A);
    assert_eq!(PlayerLeds::from_player(3).to_byte(), 0x15);
    assert_eq!(PlayerLeds::from_player(4).to_byte(), 0x1B);
    assert_eq!(PlayerLeds::from_player(5).to_byte(), 0x1F);
    assert_eq!(PlayerLeds::from_player(0).to_byte(), 0);
    assert_eq!(PlayerLeds::from_player(9), PlayerLeds::default());
    assert_eq!(PlayerLeds::all().to_byte(), 0x1F);
    assert_eq!(MuteLedState::Breathing.to_byte(), 2);
    assert_eq!(MuteLedState::On.to_byte(), 1);
}

#[test]
fn bluetooth_crc_matches_reference() {
    let body = default_bt_body();
    assert_eq!(compute_bt_crc32(&body), 0x1DD7_781C);
    let counting: Vec<u8> = (0u8..74).collect();
    assert_eq!(compute_bt_crc32(&counting), 0x2CCB_5358);
}

#[test]
fn bluetooth_report_is_framed_and_sequenced() {
    let mut out = OutputState::default();
    assert_eq!(bt_report_body(&out), default_bt_body());
    let report = bt_output_report(&mut out);
    assert_eq!(report.len(), 78);
    assert_eq!(&report[..74], &default_bt_body()[..]);
    assert_eq!(&report[74..], &[28, 120, 215, 29]);
    assert_eq!(out.bt_seq, 1);
    let second = bt_output_report(&mut out);
    assert_eq!(second[1], 0x12);
    assert_eq!(out.bt_seq, 2);
    let crc = u32::from_le_bytes([second[74], second[75], second[76], second[77]]);
    assert_eq!(crc, 0x61EB_8CB5);
    out.bt_seq = 15;
    let _ = bt_output_report(&mut out);
    assert_eq!(out.bt_seq, 0);
    assert_eq!(frame_bt_report(vec![9], 0x0403_0201), vec![9, 1, 2, 3, 4]);
}

#[test]
fn usb_report_layout() {
    let mut out = OutputState::default();
    out.rumble = (10, 20);
    out.led_color = (1, 2, 3);
    out.mute_led = MuteLedState::On;
    out.player_leds = PlayerLeds::from_player(3);
    out.r2_effect = TriggerEffect::continuous(200);
    out.l2_effect = TriggerEffect::section(5, 6, 7);
    out.lightbar_enabled = false;
    let r = usb_output_report(&out);
    assert_eq!(r.len(), 48);
    assert_eq!(&r[..5], &[0x02, 0x03, 0x15, 20, 10]);
    assert_eq!(r[9], 1);
    assert_eq!(&r[11..22], &TriggerEffect::continuous(200).to_bytes());
    assert_eq!(&r[22..33], &TriggerEffect::section(5, 6, 7).to_bytes());
    assert_eq!(r[39], 0x02);
    assert_eq!(r[41], 0x01);
    assert_eq!(r[44], 0x15);
    assert_eq!(&r[45..], &[1, 2, 3]);
}

fn usb_frame() -> Vec<u8> {
    let mut buf = vec![0u8; 64];
    buf[0] = 0x01;
    let d = 1;
    buf[d] = 255;
    buf[d + 1] = 0;
    buf[d + 2] = 128;
    buf[d + 3] = 127;
    buf[d + 4] = 12;
    buf[d + 5] = 250;
    buf[d + 6] = 77;
    buf[d + 7] = 0x23; // cross + dpad 3
    buf[d + 8] = 0x21; // l1 + options
    buf[d + 9] = 0x05; // ps + mute
    buf[d + 15] = 0x34;
    buf[d + 16] = 0x12;
    buf[d + 17] = 0xFF;
    buf[d + 18] = 0xFF;
    buf[d + 19] = 0x00;
    buf[d + 20] = 0x80;
    buf[d + 21] = 0x00;
    buf[d + 22] = 0x20;
    buf[d + 32] = 0x05; // active, id 5
    buf[d + 33] = 0x34;
    buf[d + 34] = 0x5A;
    buf[d + 35] = 0x7B;
    buf[d + 36] = 0x85; // inactive
    buf[d + 52] = 0x27;
    buf
}

#[test]
fn usb_input_report_fields() {
    let mut state = ControllerState::default();
    parse_usb_report(&mut state, &usb_frame()[1..]).unwrap();
    assert_eq!((state.left_stick.x, state.left_stick.y), (255, 0));
    assert_eq!((state.right_stick.x, state.right_stick.y), (128, 127));
    assert_eq!((state.triggers.l2, state.triggers.r2), (12, 250));
    assert_eq!(state.timestamp, 77);
    assert!(state.buttons.cross && !state.buttons.square);
    assert!(state.buttons.dpad_right && state.buttons.dpad_down && !state.buttons.dpad_up);
    assert!(state.buttons.l1 && state.buttons.options && !state.buttons.r1);
    assert!(state.buttons.ps && state.buttons.mute && !state.buttons.touchpad);
    assert_eq!((state.gyroscope.x, state.gyroscope.y, state.gyroscope.z), (0x1234, -1, -32768));
    assert_eq!(state.accelerometer.x, 8192);
    let f1 = state.touchpad.finger1;
    assert!(f1.active);
    assert_eq!((f1.id, f1.x, f1.y), (5, 0xA34, 0x7B5));
    assert!(!state.touchpad.finger2.active);
    assert_eq!(state.touchpad.finger2.id, 5);
    assert_eq!(state.battery, Battery { level: 7, charging: false, fully_charged: true });
    assert_eq!(le_i16(0x00, 0x80), -32768);
}

#[test]
fn short_reports_are_invalid() {
    let mut state = ControllerState::default();
    assert_eq!(
        parse_usb_report(&mut state, &[0u8; 62]),
        Err(DualSenseError::InvalidReport { transport: ConnectionType::Usb, len: 62 })
    );
    assert_eq!(
        parse_bt_report(&mut state, &[0u8; 76]),
        Err(DualSenseError::InvalidReport { transport: ConnectionType::Bluetooth, len: 76 })
    );
    assert_eq!(state, ControllerState::default());
}

#[test]
fn shared_parser_leaves_unreached_fields() {
    let mut state = ControllerState::default();
    state.battery.level = 9;
    let payload = vec![1u8; 30];
    parse_common_input(&mut state, &payload, 0);
    assert_eq!(state.left_stick.x, 1);
    assert_eq!(state.battery.level, 9);
    assert_eq!(state.touchpad.finger1.x, 0);
}

#[test]
fn connection_read_outcomes() {
    let mut conn = ConnectionState::new(ConnectionType::Usb);
    let frame = usb_frame();
    assert_eq!(conn.handle_read(&frame, 0), Err(DualSenseError::Timeout));
    assert_eq!(conn.handle_read(&frame, 64), Ok(true));
    assert_eq!(conn.state().triggers.r2, 250);
    assert_eq!(*conn.prev_state(), ControllerState::default());
    let mut other = frame.clone();
    other[0] = 0x05;
    assert_eq!(conn.handle_read(&other, 64), Ok(false));
    assert_eq!(conn.state().triggers.r2, 250);
    assert_eq!(conn.prev_state().triggers.r2, 250);
    assert_eq!(
        conn.handle_read(&frame, 10),
        Err(DualSenseError::InvalidReport { transport: ConnectionType::Usb, len: 10 })
    );
    assert_eq!(conn.state().triggers.r2, 250);

    let mut bt = ConnectionState::new(ConnectionType::Bluetooth);
    let mut buf = vec![0u8; 78];
    buf[0] = 0x31;
    buf[1] = 0xAA; // feature flags
    buf[2] = 99;
    assert_eq!(bt.handle_read(&buf, 78), Ok(true));
    assert_eq!(bt.state().left_stick.x, 99);
    assert_eq!(
        bt.handle_read(&buf, 64),
        Err(DualSenseError::InvalidReport { transport: ConnectionType::Bluetooth, len: 64 })
    );
    assert_eq!(bt.state().left_stick.x, 99);
    let mut other = buf.clone();
    other[0] = 0x01;
    assert_eq!(bt.handle_read(&other, 10), Ok(false));
}

#[test]
fn connection_setters_resend_everything() {
    let mut conn = ConnectionState::new(ConnectionType::Bluetooth);
    let r = conn.set_led_color(1, 2, 3);
    assert_eq!(r.len(), 78);
    assert_eq!(r[1], 0x02);
    assert_eq!(&r[46..49], &[1, 2, 3]);
    let r = conn.set_rumble(4, 5);
    assert_eq!(r[1], 0x12);
    assert_eq!(&r[4..6], &[5, 4]);
    assert_eq!(&r[46..49], &[1, 2, 3]);
    let r = conn.set_player_number(2);
    assert_eq!(r[45], 0x0A);
    let r = conn.set_mute_led(MuteLedState::Breathing);
    assert_eq!(r[10], 2);
    let r = conn.set_trigger_effects(TriggerEffect::bow(9), TriggerEffect::continuous(8));
    assert_eq!(&r[12..23], &TriggerEffect::continuous(8).to_bytes());
    assert_eq!(&r[23..34], &TriggerEffect::bow(9).to_bytes());
    assert_eq!(conn.get_output_state().bt_seq, 5);
    let crc = compute_bt_crc32(&r[..74]);
    assert_eq!(&r[74..], &crc.to_le_bytes());

    let mut usb = ConnectionState::new(ConnectionType::Usb);
    let r = usb.set_l2_trigger_effect(TriggerEffect::continuous(3));
    assert_eq!(r.len(), 48);
    assert_eq!(r[24], 3);
    let r = usb.set_r2_trigger_effect(TriggerEffect::continuous(6));
    assert_eq!(r[13], 6);
    let mut replacement = OutputState::default();
    replacement.led_color = (9, 9, 9);
    let r = usb.apply_output_state(replacement);
    assert_eq!(&r[45..], &[9, 9, 9]);
    assert_eq!(usb.get_output_state().bt_seq, 0);
    assert_eq!(usb.connection_type(), ConnectionType::Usb);
}

#[test]
fn device_identification() {
    assert!(is_dualsense(0x054C, 0x0CE6));
    assert!(is_dualsense(0x054C, 0x0DF2));
    assert!(!is_dualsense(0x054C, 0x05C4));
    assert!(!is_dualsense(0x1234, 0x0CE6));
    assert_eq!(ConnectionType::from_interface_number(-1), ConnectionType::Bluetooth);
    assert_eq!(ConnectionType::from_interface_number(3), ConnectionType::Usb);
}
