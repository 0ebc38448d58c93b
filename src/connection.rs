//! The state that one open controller connection keeps: the last two decoded
//! input states and the cached output state. The device handle lives with the
//! caller, which hands each read to `handle_read` and writes every report
//! that a setter returns.

use vstd::prelude::*;

use crate::dualsense::{
    ConnectionType, ControllerState, MuteLedState, OutputState, PlayerLeds, TriggerEffect,
};
use crate::error::DualSenseError;
use crate::output::{bt_report, next_seq, output_report, usb_report};
use crate::report::{
    decode_payload, parse_bt_report, parse_usb_report, BT_INPUT_REPORT_ID, BT_REPORT_SIZE,
    USB_INPUT_REPORT_ID, USB_REPORT_SIZE,
};

verus! {

/// The report that a write of `o` sends over transport `t`.
pub open spec fn sent(t: ConnectionType, o: OutputState) -> Seq<u8> {
    match t {
        ConnectionType::Usb => usb_report(o),
        ConnectionType::Bluetooth => bt_report(o),
    }
}

/// The cached output state after a write of `o` over transport `t`.
pub open spec fn after_send(t: ConnectionType, o: OutputState) -> OutputState {
    match t {
        ConnectionType::Usb => o,
        ConnectionType::Bluetooth => OutputState { bt_seq: next_seq(o.bt_seq), ..o },
    }
}

/// Input report id of a transport.
pub open spec fn input_id(t: ConnectionType) -> u8 {
    match t {
        ConnectionType::Usb => USB_INPUT_REPORT_ID,
        ConnectionType::Bluetooth => BT_INPUT_REPORT_ID,
    }
}

/// Full input report size of a transport.
pub open spec fn report_size(t: ConnectionType) -> int {
    match t {
        ConnectionType::Usb => USB_REPORT_SIZE as int,
        ConnectionType::Bluetooth => BT_REPORT_SIZE as int,
    }
}

/// Whether a read of `n` bytes starting with `id` is a complete input report
/// of the transport.
pub open spec fn recognised(t: ConnectionType, id: u8, n: int) -> bool {
    id == input_id(t) && n >= report_size(t)
}

/// The shared payload of a recognised report in the read buffer.
pub open spec fn payload_of(t: ConnectionType, buf: Seq<u8>) -> Seq<u8> {
    match t {
        ConnectionType::Usb => buf.subrange(1, buf.len() as int),
        ConnectionType::Bluetooth => buf.subrange(2, buf.len() as int),
    }
}

/// Decoded input and cached output of one controller connection.
pub struct ConnectionState {
    pub connection_type: ConnectionType,
    pub state: ControllerState,
    pub prev_state: ControllerState,
    pub output: OutputState,
}

impl ConnectionState {
    /// A fresh connection: zeroed input states and the initial output state.
    pub fn new(connection_type: ConnectionType) -> (r: Self)
        ensures
            r.connection_type == connection_type,
            r.state == ControllerState::zeroed(),
            r.prev_state == ControllerState::zeroed(),
            r.output == OutputState::initial(),
    {
        ConnectionState {
            connection_type,
            state: ControllerState::default(),
            prev_state: ControllerState::default(),
            output: OutputState::default(),
        }
    }

    /// Get current controller state
    pub fn state(&self) -> (r: &ControllerState)
        ensures
            *r == self.state,
    {
        &self.state
    }

    /// Get previous controller state (for change detection)
    pub fn prev_state(&self) -> (r: &ControllerState)
        ensures
            *r == self.prev_state,
    {
        &self.prev_state
    }

    /// Get connection type
    pub fn connection_type(&self) -> (r: ConnectionType)
        ensures
            r == self.connection_type,
    {
        self.connection_type
    }

    /// Get current output state
    pub fn get_output_state(&self) -> (r: OutputState)
        ensures
            r == self.output,
    {
        self.output
    }

    /// Takes the result of one read: `bytes_read` bytes of `buf`. No bytes is
    /// a timeout. Otherwise the current state becomes the previous one, and:
    /// a frame with another report id is skipped (`Ok(false)`); a frame with
    /// the transport's id but shorter than its report size is an
    /// `InvalidReport`; a complete report is decoded into the current state
    /// (`Ok(true)`).
    pub fn handle_read(&mut self, buf: &[u8], bytes_read: usize) -> (r: Result<bool, DualSenseError>)
        requires
            bytes_read <= buf@.len(),
        ensures
            final(self).connection_type == old(self).connection_type,
            final(self).output == old(self).output,
            bytes_read == 0 ==> r == Err::<bool, DualSenseError>(DualSenseError::Timeout)
                && final(self).state == old(self).state && final(self).prev_state == old(
                self,
            ).prev_state,
            bytes_read > 0 ==> final(self).prev_state == old(self).state,
            bytes_read > 0 && buf@[0] != input_id(old(self).connection_type) ==> r == Ok::<
                bool,
                DualSenseError,
            >(false) && final(self).state == old(self).state,
            bytes_read > 0 && buf@[0] == input_id(old(self).connection_type) && bytes_read
                < report_size(old(self).connection_type) ==> r == Err::<bool, DualSenseError>(
                DualSenseError::InvalidReport {
                    transport: old(self).connection_type,
                    len: bytes_read,
                },
            ) && final(self).state == old(self).state,
            bytes_read > 0 && recognised(old(self).connection_type, buf@[0], bytes_read as int)
                ==> r == Ok::<bool, DualSenseError>(true) && final(self).state == decode_payload(
                old(self).state,
                payload_of(old(self).connection_type, buf@),
            ),
    {
        if bytes_read == 0 {
            return Err(DualSenseError::Timeout);
        }
        self.prev_state = self.state;
        match self.connection_type {
            ConnectionType::Usb => {
                if buf[0] != USB_INPUT_REPORT_ID {
                    Ok(false)
                } else if bytes_read < USB_REPORT_SIZE {
                    Err(DualSenseError::InvalidReport { transport: ConnectionType::Usb, len: bytes_read })
                } else {
                    let body = &buf[1..buf.len()];
                    let res = parse_usb_report(&mut self.state, body);
                    assert(body@.subrange(0, body@.len() as int) =~= payload_of(
                        self.connection_type,
                        buf@,
                    ));
                    match res {
                        Ok(()) => Ok(true),
                        Err(e) => Err(e),
                    }
                }
            },
            ConnectionType::Bluetooth => {
                if buf[0] != BT_INPUT_REPORT_ID {
                    Ok(false)
                } else if bytes_read < BT_REPORT_SIZE {
                    Err(
                        DualSenseError::InvalidReport {
                            transport: ConnectionType::Bluetooth,
                            len: bytes_read,
                        },
                    )
                } else {
                    let body = &buf[1..buf.len()];
                    let res = parse_bt_report(&mut self.state, body);
                    assert(body@.subrange(1, body@.len() as int) =~= payload_of(
                        self.connection_type,
                        buf@,
                    ));
                    match res {
                        Ok(()) => Ok(true),
                        Err(e) => Err(e),
                    }
                }
            },
        }
    }

    /// Serialises the whole cached output state for the transport; a
    /// Bluetooth report advances the sequence counter.
    pub fn flush(&mut self) -> (r: Vec<u8>)
        ensures
            r@ == sent(old(self).connection_type, old(self).output),
            *final(self) == (ConnectionState {
                output: after_send(old(self).connection_type, old(self).output),
                ..*old(self)
            }),
    {
        output_report(self.connection_type, &mut self.output)
    }

    /// Set controller LEDs (color); the report to write is returned.
    pub fn set_led_color(&mut self, r: u8, g: u8, b: u8) -> (report: Vec<u8>)
        ensures
            ({
                let o = OutputState { led_color: (r, g, b), lightbar_enabled: true, ..old(self).output };
                &&& report@ == sent(old(self).connection_type, o)
                &&& *final(self) == (ConnectionState {
                    output: after_send(old(self).connection_type, o),
                    ..*old(self)
                })
            }),
    {
        self.output.led_color = (r, g, b);
        self.output.lightbar_enabled = true;
        self.flush()
    }

    /// Set controller rumble
    pub fn set_rumble(&mut self, left: u8, right: u8) -> (report: Vec<u8>)
        ensures
            ({
                let o = OutputState { rumble: (left, right), ..old(self).output };
                &&& report@ == sent(old(self).connection_type, o)
                &&& *final(self) == (ConnectionState {
                    output: after_send(old(self).connection_type, o),
                    ..*old(self)
                })
            }),
    {
        self.output.rumble = (left, right);
        self.flush()
    }

    /// Set L2 adaptive trigger effect
    pub fn set_l2_trigger_effect(&mut self, effect: TriggerEffect) -> (report: Vec<u8>)
        ensures
            ({
                let o = OutputState { l2_effect: effect, ..old(self).output };
                &&& report@ == sent(old(self).connection_type, o)
                &&& *final(self) == (ConnectionState {
                    output: after_send(old(self).connection_type, o),
                    ..*old(self)
                })
            }),
    {
        self.output.l2_effect = effect;
        self.flush()
    }

    /// Set R2 adaptive trigger effect
    pub fn set_r2_trigger_effect(&mut self, effect: TriggerEffect) -> (report: Vec<u8>)
        ensures
            ({
                let o = OutputState { r2_effect: effect, ..old(self).output };
                &&& report@ == sent(old(self).connection_type, o)
                &&& *final(self) == (ConnectionState {
                    output: after_send(old(self).connection_type, o),
                    ..*old(self)
                })
            }),
    {
        self.output.r2_effect = effect;
        self.flush()
    }

    /// Set both trigger effects at once
    pub fn set_trigger_effects(&mut self, l2: TriggerEffect, r2: TriggerEffect) -> (report: Vec<u8>)
        ensures
            ({
                let o = OutputState { l2_effect: l2, r2_effect: r2, ..old(self).output };
                &&& report@ == sent(old(self).connection_type, o)
                &&& *final(self) == (ConnectionState {
                    output: after_send(old(self).connection_type, o),
                    ..*old(self)
                })
            }),
    {
        self.output.l2_effect = l2;
        self.output.r2_effect = r2;
        self.flush()
    }

    /// Set player LEDs
    pub fn set_player_leds(&mut self, leds: PlayerLeds) -> (report: Vec<u8>)
        ensures
            ({
                let o = OutputState { player_leds: leds, ..old(self).output };
                &&& report@ == sent(old(self).connection_type, o)
                &&& *final(self) == (ConnectionState {
                    output: after_send(old(self).connection_type, o),
                    ..*old(self)
                })
            }),
    {
        self.output.player_leds = leds;
        self.flush()
    }

    /// Set player number (1-5) using standard LED patterns
    pub fn set_player_number(&mut self, player: u8) -> (report: Vec<u8>)
        ensures
            ({
                let o = OutputState {
                    player_leds: PlayerLeds::player_pattern(player),
                    ..old(self).output
                };
                &&& report@ == sent(old(self).connection_type, o)
                &&& *final(self) == (ConnectionState {
                    output: after_send(old(self).connection_type, o),
                    ..*old(self)
                })
            }),
    {
        self.set_player_leds(PlayerLeds::from_player(player))
    }

    /// Set mute LED state
    pub fn set_mute_led(&mut self, state: MuteLedState) -> (report: Vec<u8>)
        ensures
            ({
                let o = OutputState { mute_led: state, ..old(self).output };
                &&& report@ == sent(old(self).connection_type, o)
                &&& *final(self) == (ConnectionState {
                    output: after_send(old(self).connection_type, o),
                    ..*old(self)
                })
            }),
    {
        self.output.mute_led = state;
        self.flush()
    }

    /// Apply complete output state at once
    pub fn apply_output_state(&mut self, new_state: OutputState) -> (report: Vec<u8>)
        ensures
            report@ == sent(old(self).connection_type, new_state),
            *final(self) == (ConnectionState {
                output: after_send(old(self).connection_type, new_state),
                ..*old(self)
            }),
    {
        self.output = new_state;
        self.flush()
    }
}

} // verus!
