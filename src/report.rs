//! Input report decoding for the USB and Bluetooth framings.
//!
//! Offsets below are relative to the shared payload, which starts right after
//! the report id (USB) or after the report id and one feature-flag byte
//! (Bluetooth).

use vstd::prelude::*;

use crate::dualsense::{
    Accelerometer, Battery, Buttons, ConnectionType, ControllerState, Gyroscope, Stick,
    TouchFinger, Touchpad, Triggers,
};
use crate::error::DualSenseError;

verus! {

/// Report sizes
pub const USB_REPORT_SIZE: usize = 64;

pub const BT_REPORT_SIZE: usize = 78;

/// Input report IDs
pub const USB_INPUT_REPORT_ID: u8 = 0x01;

pub const BT_INPUT_REPORT_ID: u8 = 0x31;

/// Shortest report body (after the report id) that each transport accepts.
pub const USB_MIN_BODY: usize = 63;

pub const BT_MIN_BODY: usize = 77;

/// Feature-flag bytes in front of the shared payload.
pub const USB_PAYLOAD_OFFSET: usize = 0;

pub const BT_PAYLOAD_OFFSET: usize = 1;

// Shared payload layout
pub const LEFT_STICK_X: usize = 0;

pub const LEFT_STICK_Y: usize = 1;

pub const RIGHT_STICK_X: usize = 2;

pub const RIGHT_STICK_Y: usize = 3;

pub const TRIGGER_L2: usize = 4;

pub const TRIGGER_R2: usize = 5;

pub const COUNTER: usize = 6;

pub const BUTTONS_1: usize = 7;

pub const BUTTONS_2: usize = 8;

pub const BUTTONS_3: usize = 9;

pub const GYRO: usize = 15;

pub const ACCEL: usize = 21;

pub const TOUCH_1: usize = 32;

pub const TOUCH_2: usize = 36;

pub const BATTERY: usize = 52;

/// Little-endian signed 16-bit value of two bytes.
pub open spec fn i16_le(lo: u8, hi: u8) -> i16 {
    let v = hi * 256 + lo;
    if hi < 128 {
        v as i16
    } else {
        (v - 65536) as i16
    }
}

/// D-pad nibble as an 8-way compass starting at up, clockwise.
pub open spec fn dpad_up_of(n: u8) -> bool {
    n == 0 || n == 1 || n == 7
}

pub open spec fn dpad_right_of(n: u8) -> bool {
    n == 1 || n == 2 || n == 3
}

pub open spec fn dpad_down_of(n: u8) -> bool {
    n == 3 || n == 4 || n == 5
}

pub open spec fn dpad_left_of(n: u8) -> bool {
    n == 5 || n == 6 || n == 7
}

/// Buttons held in the three button bytes.
pub open spec fn buttons_of(b1: u8, b2: u8, b3: u8) -> Buttons {
    let dpad = (b1 % 16) as u8;
    Buttons {
        dpad_up: dpad_up_of(dpad),
        dpad_right: dpad_right_of(dpad),
        dpad_down: dpad_down_of(dpad),
        dpad_left: dpad_left_of(dpad),
        square: b1 & 0x10 != 0,
        cross: b1 & 0x20 != 0,
        circle: b1 & 0x40 != 0,
        triangle: b1 & 0x80 != 0,
        l1: b2 & 0x01 != 0,
        r1: b2 & 0x02 != 0,
        l2_button: b2 & 0x04 != 0,
        r2_button: b2 & 0x08 != 0,
        create: b2 & 0x10 != 0,
        options: b2 & 0x20 != 0,
        l3: b2 & 0x40 != 0,
        r3: b2 & 0x80 != 0,
        ps: b3 & 0x01 != 0,
        touchpad: b3 & 0x02 != 0,
        mute: b3 & 0x04 != 0,
    }
}

/// A 4-byte touch point: bit 7 of the first byte clear means active, its low
/// 7 bits are the finger id; X and Y are 12 bits each over the other three.
pub open spec fn touch_of(b0: u8, b1: u8, b2: u8, b3: u8) -> TouchFinger {
    TouchFinger {
        active: b0 < 128,
        id: (b0 % 128) as u8,
        x: ((b2 % 16) * 256 + b1) as u16,
        y: (b3 * 16 + b2 / 16) as u16,
    }
}

/// Battery byte: low nibble level, bit 4 charging, bit 5 fully charged.
pub open spec fn battery_of(b: u8) -> Battery {
    Battery { level: (b % 16) as u8, charging: b & 0x10 != 0, fully_charged: b & 0x20 != 0 }
}

/// The state after decoding the shared payload `d` over `prev`. Touch points
/// and battery are read only where the payload reaches them.
pub open spec fn decode_payload(prev: ControllerState, d: Seq<u8>) -> ControllerState {
    ControllerState {
        left_stick: Stick { x: d[0], y: d[1] },
        right_stick: Stick { x: d[2], y: d[3] },
        triggers: Triggers { l2: d[4], r2: d[5] },
        timestamp: d[6] as u32,
        buttons: buttons_of(d[7], d[8], d[9]),
        gyroscope: Gyroscope {
            x: i16_le(d[15], d[16]),
            y: i16_le(d[17], d[18]),
            z: i16_le(d[19], d[20]),
        },
        accelerometer: Accelerometer {
            x: i16_le(d[21], d[22]),
            y: i16_le(d[23], d[24]),
            z: i16_le(d[25], d[26]),
        },
        touchpad: if d.len() > 40 {
            Touchpad {
                finger1: touch_of(d[32], d[33], d[34], d[35]),
                finger2: touch_of(d[36], d[37], d[38], d[39]),
            }
        } else {
            prev.touchpad
        },
        battery: if d.len() > 52 {
            battery_of(d[52])
        } else {
            prev.battery
        },
    }
}

/// The d-pad nibble decodes as an 8-way compass whatever the other bits hold:
/// even points 0, 2, 4, 6 give up, right, down, left alone; odd points give
/// the two neighbouring directions; values 8 and above give none.
pub proof fn lemma_dpad_compass(b1: u8, b2: u8, b3: u8)
    ensures
        ({
            let b = buttons_of(b1, b2, b3);
            let n = b1 % 16;
            &&& n == 0 ==> b.dpad_up && !b.dpad_right && !b.dpad_down && !b.dpad_left
            &&& n == 2 ==> !b.dpad_up && b.dpad_right && !b.dpad_down && !b.dpad_left
            &&& n == 4 ==> !b.dpad_up && !b.dpad_right && b.dpad_down && !b.dpad_left
            &&& n == 6 ==> !b.dpad_up && !b.dpad_right && !b.dpad_down && b.dpad_left
            &&& n == 1 ==> b.dpad_up && b.dpad_right && !b.dpad_down && !b.dpad_left
            &&& n == 3 ==> !b.dpad_up && b.dpad_right && b.dpad_down && !b.dpad_left
            &&& n == 5 ==> !b.dpad_up && !b.dpad_right && b.dpad_down && b.dpad_left
            &&& n == 7 ==> b.dpad_up && !b.dpad_right && !b.dpad_down && b.dpad_left
            &&& n >= 8 ==> !b.dpad_up && !b.dpad_right && !b.dpad_down && !b.dpad_left
        }),
{
}

/// Reads a little-endian signed 16-bit value.
pub fn le_i16(lo: u8, hi: u8) -> (r: i16)
    ensures
        r == i16_le(lo, hi),
{
    let v: i32 = (hi as i32) * 256 + (lo as i32);
    if hi < 128 {
        v as i16
    } else {
        (v - 65536) as i16
    }
}

/// Decodes the three button bytes.
pub fn decode_buttons(btns1: u8, btns2: u8, btns3: u8) -> (r: Buttons)
    ensures
        r == buttons_of(btns1, btns2, btns3),
{
    // D-pad is encoded in the low nibble of the first byte
    let dpad = btns1 % 16;
    Buttons {
        dpad_up: dpad == 0 || dpad == 1 || dpad == 7,
        dpad_right: dpad == 1 || dpad == 2 || dpad == 3,
        dpad_down: dpad == 3 || dpad == 4 || dpad == 5,
        dpad_left: dpad == 5 || dpad == 6 || dpad == 7,
        // Face buttons in the high nibble
        square: btns1 & 0x10 != 0,
        cross: btns1 & 0x20 != 0,
        circle: btns1 & 0x40 != 0,
        triangle: btns1 & 0x80 != 0,
        // Shoulder buttons and stick clicks
        l1: btns2 & 0x01 != 0,
        r1: btns2 & 0x02 != 0,
        l2_button: btns2 & 0x04 != 0,
        r2_button: btns2 & 0x08 != 0,
        create: btns2 & 0x10 != 0,
        options: btns2 & 0x20 != 0,
        l3: btns2 & 0x40 != 0,
        r3: btns2 & 0x80 != 0,
        // System buttons
        ps: btns3 & 0x01 != 0,
        touchpad: btns3 & 0x02 != 0,
        mute: btns3 & 0x04 != 0,
    }
}

/// Decodes the touch point that starts at `at`.
pub fn parse_touch_point(data: &[u8], at: usize) -> (r: TouchFinger)
    requires
        at + 4 <= data@.len(),
    ensures
        r == touch_of(data@[at as int], data@[at + 1], data@[at + 2], data@[at + 3]),
{
    let b0 = data[at];
    let b1 = data[at + 1];
    let b2 = data[at + 2];
    let b3 = data[at + 3];
    TouchFinger {
        active: b0 < 128,
        id: b0 % 128,
        x: ((b2 % 16) as u16) * 256 + b1 as u16,
        y: (b3 as u16) * 16 + (b2 / 16) as u16,
    }
}

/// Decodes the battery byte.
pub fn decode_battery(b: u8) -> (r: Battery)
    ensures
        r == battery_of(b),
{
    Battery { level: b % 16, charging: b & 0x10 != 0, fully_charged: b & 0x20 != 0 }
}

/// Decodes the shared payload that starts at `offset` into `state`.
pub fn parse_common_input(state: &mut ControllerState, data: &[u8], offset: usize)
    requires
        offset + 27 <= data@.len(),
    ensures
        *final(state) == decode_payload(*old(state), data@.subrange(offset as int, data@.len() as int)),
{
    let len = data.len() - offset;
    state.left_stick = Stick { x: data[offset + LEFT_STICK_X], y: data[offset + LEFT_STICK_Y] };
    state.right_stick = Stick { x: data[offset + RIGHT_STICK_X], y: data[offset + RIGHT_STICK_Y] };
    state.triggers = Triggers { l2: data[offset + TRIGGER_L2], r2: data[offset + TRIGGER_R2] };
    state.timestamp = data[offset + COUNTER] as u32;
    state.buttons = decode_buttons(
        data[offset + BUTTONS_1],
        data[offset + BUTTONS_2],
        data[offset + BUTTONS_3],
    );
    let g = offset + GYRO;
    state.gyroscope = Gyroscope {
        x: le_i16(data[g], data[g + 1]),
        y: le_i16(data[g + 2], data[g + 3]),
        z: le_i16(data[g + 4], data[g + 5]),
    };
    let a = offset + ACCEL;
    state.accelerometer = Accelerometer {
        x: le_i16(data[a], data[a + 1]),
        y: le_i16(data[a + 2], data[a + 3]),
        z: le_i16(data[a + 4], data[a + 5]),
    };
    if len > 40 {
        state.touchpad = Touchpad {
            finger1: parse_touch_point(data, offset + TOUCH_1),
            finger2: parse_touch_point(data, offset + TOUCH_2),
        };
    }
    if len > 52 {
        state.battery = decode_battery(data[offset + BATTERY]);
    }
}

/// Decodes a USB report body (the report id stripped).
pub fn parse_usb_report(state: &mut ControllerState, data: &[u8]) -> (r: Result<(), DualSenseError>)
    ensures
        data@.len() < USB_MIN_BODY ==> r == Err::<(), DualSenseError>(
            DualSenseError::InvalidReport { transport: ConnectionType::Usb, len: data@.len() as usize },
        ) && *final(state) == *old(state),
        data@.len() >= USB_MIN_BODY ==> r is Ok && *final(state) == decode_payload(*old(state), data@),
{
    if data.len() < USB_MIN_BODY {
        return Err(DualSenseError::InvalidReport { transport: ConnectionType::Usb, len: data.len() });
    }
    parse_common_input(state, data, USB_PAYLOAD_OFFSET);
    assert(data@.subrange(0, data@.len() as int) =~= data@);
    Ok(())
}

/// Decodes a Bluetooth report body (the report id stripped).
pub fn parse_bt_report(state: &mut ControllerState, data: &[u8]) -> (r: Result<(), DualSenseError>)
    ensures
        data@.len() < BT_MIN_BODY ==> r == Err::<(), DualSenseError>(
            DualSenseError::InvalidReport { transport: ConnectionType::Bluetooth, len: data@.len() as usize },
        ) && *final(state) == *old(state),
        data@.len() >= BT_MIN_BODY ==> r is Ok && *final(state) == decode_payload(
            *old(state),
            data@.subrange(1, data@.len() as int),
        ),
{
    if data.len() < BT_MIN_BODY {
        return Err(
            DualSenseError::InvalidReport { transport: ConnectionType::Bluetooth, len: data.len() },
        );
    }
    // Bluetooth reports have a 1-byte offset for the feature flags
    parse_common_input(state, data, BT_PAYLOAD_OFFSET);
    Ok(())
}

} // verus!
