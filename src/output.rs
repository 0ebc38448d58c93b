//! Output report encoding: lightbar, rumble, adaptive triggers, player and
//! mute LEDs, for the USB and the Bluetooth framings.

use vstd::prelude::*;

use crate::dualsense::{ConnectionType, OutputState};

verus! {

pub const USB_OUTPUT_REPORT_ID: u8 = 0x02;

pub const BT_OUTPUT_REPORT_ID: u8 = 0x31;

pub const USB_OUTPUT_SIZE: usize = 48;

/// Bytes of a Bluetooth output report that the checksum covers.
pub const BT_CRC_BODY: usize = 74;

/// HID-over-Bluetooth header hashed in front of the frame body.
pub const BT_CRC_PREFIX_0: u8 = 0xA2;

pub const BT_CRC_PREFIX_1: u8 = 0x31;

/// valid_flag0: bit0 rumble, bit1 haptics select
pub const VALID_FLAG0: u8 = 0x03;

/// valid_flag1: bit0 mic mute LED, bit2 lightbar, bit4 player LEDs
pub const VALID_FLAG1: u8 = 0x15;

/// valid_flag2: bit1 lightbar setup control
pub const VALID_FLAG2: u8 = 0x02;

/// Tag in the low nibble of the Bluetooth sequence byte.
pub const BT_OUTPUT_TAG: u8 = 0x02;

/// CRC-32 (IEEE) of a byte sequence.
pub uninterp spec fn crc32_of(data: Seq<u8>) -> u32;

/// Relies on crc32fast::hash: the standard CRC-32 of the bytes, a function of
/// the bytes alone.
#[verifier::external_body]
fn crc32(data: &[u8]) -> (r: u32)
    ensures
        r == crc32_of(data@),
{
    crc32fast::hash(data)
}

/// Lightbar setup byte: 2 enables the lightbar, 1 disables it.
pub open spec fn lightbar_setup(o: OutputState) -> u8 {
    if o.lightbar_enabled {
        2
    } else {
        1
    }
}

/// Sequence byte of a Bluetooth output report: counter in the high nibble.
pub open spec fn seq_tag(seq: u8) -> u8 {
    ((seq % 16) * 16 + BT_OUTPUT_TAG) as u8
}

/// The counter value after one Bluetooth write.
pub open spec fn next_seq(seq: u8) -> u8 {
    ((seq + 1) % 16) as u8
}

/// Bytes from the lightbar-control flag to the end of the lightbar colour.
pub open spec fn lightbar_tail(o: OutputState) -> Seq<u8> {
    seq![
        VALID_FLAG2,
        0,
        lightbar_setup(o),
        0,
        0,
        o.player_leds.pattern_byte() as u8,
        o.led_color.0,
        o.led_color.1,
        o.led_color.2,
    ]
}

/// The 48-byte USB output report.
pub open spec fn usb_report(o: OutputState) -> Seq<u8> {
    seq![
        USB_OUTPUT_REPORT_ID,
        VALID_FLAG0,
        VALID_FLAG1,
        o.rumble.1,
        o.rumble.0,
        0,
        0,
        0,
        0,
        o.mute_led.code(),
        0,
    ] + o.r2_effect.block() + o.l2_effect.block() + Seq::new(6, |i: int| 0u8) + lightbar_tail(o)
}

/// The first 74 bytes of the Bluetooth output report, which the CRC covers.
pub open spec fn bt_body(o: OutputState) -> Seq<u8> {
    seq![
        BT_OUTPUT_REPORT_ID,
        seq_tag(o.bt_seq),
        VALID_FLAG0,
        VALID_FLAG1,
        o.rumble.1,
        o.rumble.0,
        0,
        0,
        0,
        0,
        o.mute_led.code(),
        0,
    ] + o.r2_effect.block() + o.l2_effect.block() + Seq::new(6, |i: int| 0u8) + lightbar_tail(o)
        + Seq::new(25, |i: int| 0u8)
}

/// Little-endian bytes of a 32-bit value.
pub open spec fn u32_le(x: u32) -> Seq<u8> {
    seq![(x % 256) as u8, (x / 256 % 256) as u8, (x / 65536 % 256) as u8, (x / 16777216) as u8]
}

/// The checksum that a Bluetooth frame body carries.
pub open spec fn bt_checksum(body: Seq<u8>) -> u32 {
    crc32_of(seq![BT_CRC_PREFIX_0, BT_CRC_PREFIX_1] + body)
}

/// The complete 78-byte Bluetooth output report.
pub open spec fn bt_report(o: OutputState) -> Seq<u8> {
    bt_body(o) + u32_le(bt_checksum(bt_body(o)))
}

/// Writes an 11-byte effect block at `at`.
fn put_block(report: &mut Vec<u8>, at: usize, block: &[u8; 11])
    requires
        at + 11 <= old(report)@.len(),
    ensures
        final(report)@ == old(report)@.subrange(0, at as int) + block@ + old(report)@.subrange(
            at + 11,
            old(report)@.len() as int,
        ),
{
    let len = report.len();
    let mut i: usize = 0;
    while i < 11
        invariant
            i <= 11,
            len == report@.len(),
            at + 11 <= report@.len(),
            report@.len() == old(report)@.len(),
            forall|k: int| 0 <= k < i ==> report@[at + k] == block@[k],
            forall|k: int|
                0 <= k < report@.len() && !(at <= k < at + i) ==> report@[k] == old(report)@[k],
        decreases 11 - i,
    {
        report[at + i] = block[i];
        i = i + 1;
    }
    assert(report@ =~= old(report)@.subrange(0, at as int) + block@ + old(report)@.subrange(
        at + 11,
        old(report)@.len() as int,
    ));
}

/// Encodes the USB output report.
pub fn usb_output_report(out: &OutputState) -> (r: Vec<u8>)
    ensures
        r@ == usb_report(*out),
{
    let (red, green, blue) = out.led_color;
    let (left, right) = out.rumble;
    let mut report = vec![0u8; USB_OUTPUT_SIZE];
    report[0] = USB_OUTPUT_REPORT_ID;
    report[1] = VALID_FLAG0;
    report[2] = VALID_FLAG1;
    // Rumble motors: right (high frequency) first
    report[3] = right;
    report[4] = left;
    report[9] = out.mute_led.to_byte();
    // Trigger effects: R2 then L2
    put_block(&mut report, 11, &out.r2_effect.to_bytes());
    put_block(&mut report, 22, &out.l2_effect.to_bytes());
    report[39] = VALID_FLAG2;
    report[41] = if out.lightbar_enabled {
        2
    } else {
        1
    };
    report[44] = out.player_leds.to_byte();
    report[45] = red;
    report[46] = green;
    report[47] = blue;
    assert(report@ =~= usb_report(*out));
    report
}

/// Encodes the first 74 bytes of the Bluetooth output report, with the
/// sequence counter as it stands.
pub fn bt_report_body(out: &OutputState) -> (r: Vec<u8>)
    ensures
        r@ == bt_body(*out),
{
    let (red, green, blue) = out.led_color;
    let (left, right) = out.rumble;
    let mut report = vec![0u8; BT_CRC_BODY];
    report[0] = BT_OUTPUT_REPORT_ID;
    report[1] = (out.bt_seq % 16) * 16 + BT_OUTPUT_TAG;
    report[2] = VALID_FLAG0;
    report[3] = VALID_FLAG1;
    report[4] = right;
    report[5] = left;
    report[10] = out.mute_led.to_byte();
    put_block(&mut report, 12, &out.r2_effect.to_bytes());
    put_block(&mut report, 23, &out.l2_effect.to_bytes());
    report[40] = VALID_FLAG2;
    report[42] = if out.lightbar_enabled {
        2
    } else {
        1
    };
    report[45] = out.player_leds.to_byte();
    report[46] = red;
    report[47] = green;
    report[48] = blue;
    assert(report@ =~= bt_body(*out));
    report
}

/// CRC-32 of a Bluetooth frame body, hashed behind the two-byte
/// HID-over-Bluetooth header.
pub fn compute_bt_crc32(body: &[u8]) -> (r: u32)
    ensures
        r == bt_checksum(body@),
{
    let mut framed: Vec<u8> = Vec::new();
    framed.push(BT_CRC_PREFIX_0);
    framed.push(BT_CRC_PREFIX_1);
    let mut i: usize = 0;
    while i < body.len()
        invariant
            i <= body@.len(),
            framed@ == seq![BT_CRC_PREFIX_0, BT_CRC_PREFIX_1] + body@.subrange(0, i as int),
        decreases body@.len() - i,
    {
        framed.push(body[i]);
        i = i + 1;
        assert(framed@ =~= seq![BT_CRC_PREFIX_0, BT_CRC_PREFIX_1] + body@.subrange(0, i as int));
    }
    assert(body@.subrange(0, body@.len() as int) =~= body@);
    crc32(framed.as_slice())
}

/// Appends the checksum to a frame body, least significant byte first.
pub fn frame_bt_report(body: Vec<u8>, crc: u32) -> (r: Vec<u8>)
    ensures
        r@ == body@ + u32_le(crc),
{
    let mut report = body;
    report.push((crc % 256) as u8);
    report.push((crc / 256 % 256) as u8);
    report.push((crc / 65536 % 256) as u8);
    report.push((crc / 16777216) as u8);
    assert(report@ =~= body@ + u32_le(crc));
    report
}

/// Encodes the Bluetooth output report and advances the sequence counter.
pub fn bt_output_report(out: &mut OutputState) -> (r: Vec<u8>)
    ensures
        r@ == bt_report(*old(out)),
        *final(out) == (OutputState { bt_seq: next_seq(old(out).bt_seq), ..*old(out) }),
{
    let body = bt_report_body(out);
    let crc = compute_bt_crc32(body.as_slice());
    out.bt_seq = (out.bt_seq % 16 + 1) % 16;
    frame_bt_report(body, crc)
}

/// Encodes the output report for a transport. A Bluetooth write advances the
/// sequence counter; a USB write leaves the state as it is.
pub fn output_report(connection: ConnectionType, out: &mut OutputState) -> (r: Vec<u8>)
    ensures
        connection == ConnectionType::Usb ==> r@ == usb_report(*old(out)) && *final(out) == *old(
            out,
        ),
        connection == ConnectionType::Bluetooth ==> r@ == bt_report(*old(out)) && *final(out) == (
        OutputState { bt_seq: next_seq(old(out).bt_seq), ..*old(out) }),
{
    match connection {
        ConnectionType::Usb => usb_output_report(out),
        ConnectionType::Bluetooth => bt_output_report(out),
    }
}

} // verus!
