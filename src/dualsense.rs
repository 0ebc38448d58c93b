//! Controller data model: input state, adaptive trigger effects, player and
//! mute LEDs, and the complete output state.

use vstd::prelude::*;

verus! {

/// Sony vendor ID
pub const SONY_VENDOR_ID: u16 = 0x054C;

/// DualSense product ID
pub const DUALSENSE_PRODUCT_ID: u16 = 0x0CE6;

/// DualSense Edge product ID
pub const DUALSENSE_EDGE_PRODUCT_ID: u16 = 0x0DF2;

/// Adaptive trigger effect mode
#[derive(Debug, Clone, Copy, PartialEq, Eq, Structural)]
pub enum TriggerEffectMode {
    /// No effect (trigger operates normally)
    Off,
    /// Continuous resistance throughout pull
    Continuous,
    /// Resistance within a specific range
    SectionResistance,
    /// Vibration effect
    Vibration,
    /// Combined resistance and vibration
    CombinedRV,
    /// Calibration mode
    Calibration,
}

impl TriggerEffectMode {
    /// The tag byte that the controller firmware expects for this mode.
    pub open spec fn tag(self) -> u8 {
        match self {
            TriggerEffectMode::Off => 0x00,
            TriggerEffectMode::Continuous => 0x01,
            TriggerEffectMode::SectionResistance => 0x02,
            TriggerEffectMode::Vibration => 0x06,
            TriggerEffectMode::CombinedRV => 0x26,
            TriggerEffectMode::Calibration => 0xFC,
        }
    }

    /// Whether `v` is the tag of some mode.
    pub open spec fn is_tag(v: u8) -> bool {
        v == 0x00 || v == 0x01 || v == 0x02 || v == 0x06 || v == 0x26 || v == 0xFC
    }

    /// Tag byte of the mode.
    pub fn to_u8(&self) -> (r: u8)
        ensures
            r == self.tag(),
    {
        match self {
            TriggerEffectMode::Off => 0x00,
            TriggerEffectMode::Continuous => 0x01,
            TriggerEffectMode::SectionResistance => 0x02,
            TriggerEffectMode::Vibration => 0x06,
            TriggerEffectMode::CombinedRV => 0x26,
            TriggerEffectMode::Calibration => 0xFC,
        }
    }

    /// Mode for a tag byte; unknown tags give `Off`.
    pub fn from_u8(v: u8) -> (r: Self)
        ensures
            Self::is_tag(v) ==> r.tag() == v,
            !Self::is_tag(v) ==> r == TriggerEffectMode::Off,
    {
        match v {
            0x00 => TriggerEffectMode::Off,
            0x01 => TriggerEffectMode::Continuous,
            0x02 => TriggerEffectMode::SectionResistance,
            0x06 => TriggerEffectMode::Vibration,
            0x26 => TriggerEffectMode::CombinedRV,
            0xFC => TriggerEffectMode::Calibration,
            _ => TriggerEffectMode::Off,
        }
    }
}

impl Default for TriggerEffectMode {
    fn default() -> (r: Self)
        ensures
            r == TriggerEffectMode::Off,
    {
        TriggerEffectMode::Off
    }
}


/// Adaptive trigger effect configuration
#[derive(Debug, Clone, Copy, PartialEq, Eq, Structural)]
pub struct TriggerEffect {
    /// Effect mode
    pub mode: TriggerEffectMode,
    /// Start position (0-255, where 0 is released)
    pub start_position: u8,
    /// End position (0-255, where 255 is fully pressed)
    pub end_position: u8,
    /// Force/strength of the effect (0-255)
    pub force: u8,
    /// Frequency for vibration effects (Hz, 0-255)
    pub frequency: u8,
}

impl Default for TriggerEffect {
    fn default() -> (r: Self)
        ensures
            r == TriggerEffect::off(),
    {
        TriggerEffect {
            mode: TriggerEffectMode::Off,
            start_position: 0,
            end_position: 255,
            force: 0,
            frequency: 0,
        }
    }
}

impl TriggerEffect {
    /// The default effect: no resistance over the full travel.
    pub open spec fn off() -> Self {
        TriggerEffect {
            mode: TriggerEffectMode::Off,
            start_position: 0,
            end_position: 255,
            force: 0,
            frequency: 0,
        }
    }

    /// The 11-byte effect block as the output report carries it.
    pub open spec fn block(self) -> Seq<u8> {
        let t = self.mode.tag();
        let s = self.start_position;
        let e = self.end_position;
        let f = self.force;
        let q = self.frequency;
        match self.mode {
            TriggerEffectMode::Continuous => seq![t, s, f, 0, 0, 0, 0, 0, 0, 0, 0],
            TriggerEffectMode::SectionResistance => seq![t, s, e, f, 0, 0, 0, 0, 0, 0, 0],
            TriggerEffectMode::Vibration => seq![t, s, f, q, 0, 0, 0, 0, 0, 0, 0],
            TriggerEffectMode::CombinedRV => seq![
                t,
                s,
                e,
                f,
                (f / 2) as u8,
                (f / 2) as u8,
                f,
                0,
                0,
                q,
                0,
            ],
            _ => seq![t, 0, 0, 0, 0, 0, 0, 0, 0, 0, 0],
        }
    }

    /// Create a continuous resistance effect
    pub fn continuous(force: u8) -> (r: Self)
        ensures
            r == (TriggerEffect {
                mode: TriggerEffectMode::Continuous,
                start_position: 0,
                end_position: 255,
                force,
                frequency: 0,
            }),
    {
        TriggerEffect {
            mode: TriggerEffectMode::Continuous,
            start_position: 0,
            end_position: 255,
            force,
            frequency: 0,
        }
    }

    /// Create a section resistance effect
    pub fn section(start: u8, end: u8, force: u8) -> (r: Self)
        ensures
            r == (TriggerEffect {
                mode: TriggerEffectMode::SectionResistance,
                start_position: start,
                end_position: end,
                force,
                frequency: 0,
            }),
    {
        TriggerEffect {
            mode: TriggerEffectMode::SectionResistance,
            start_position: start,
            end_position: end,
            force,
            frequency: 0,
        }
    }

    /// Create a vibration effect
    pub fn vibration(start: u8, frequency: u8, force: u8) -> (r: Self)
        ensures
            r == (TriggerEffect {
                mode: TriggerEffectMode::Vibration,
                start_position: start,
                end_position: 255,
                force,
                frequency,
            }),
    {
        TriggerEffect {
            mode: TriggerEffectMode::Vibration,
            start_position: start,
            end_position: 255,
            force,
            frequency,
        }
    }

    /// Create a weapon-like effect (resistance at a point with click)
    pub fn weapon(start: u8, end: u8, force: u8) -> (r: Self)
        ensures
            r == (TriggerEffect {
                mode: TriggerEffectMode::SectionResistance,
                start_position: start,
                end_position: end,
                force,
                frequency: 0,
            }),
    {
        TriggerEffect {
            mode: TriggerEffectMode::SectionResistance,
            start_position: start,
            end_position: end,
            force,
            frequency: 0,
        }
    }

    /// Create a bow-draw effect (increasing resistance)
    pub fn bow(force: u8) -> (r: Self)
        ensures
            r == (TriggerEffect {
                mode: TriggerEffectMode::Continuous,
                start_position: 30,
                end_position: 200,
                force,
                frequency: 0,
            }),
    {
        TriggerEffect {
            mode: TriggerEffectMode::Continuous,
            start_position: 30,
            end_position: 200,
            force,
            frequency: 0,
        }
    }

    /// Convert to the 11-byte block of the output report
    pub fn to_bytes(&self) -> (r: [u8; 11])
        ensures
            r@ == self.block(),
    {
        let mut bytes = [0u8; 11];
        bytes[0] = self.mode.to_u8();
        match self.mode {
            TriggerEffectMode::Continuous => {
                bytes[1] = self.start_position;
                bytes[2] = self.force;
            },
            TriggerEffectMode::SectionResistance => {
                bytes[1] = self.start_position;
                bytes[2] = self.end_position;
                bytes[3] = self.force;
            },
            TriggerEffectMode::Vibration => {
                bytes[1] = self.start_position;
                bytes[2] = self.force;  // strength
                bytes[3] = self.frequency;
            },
            TriggerEffectMode::CombinedRV => {
                bytes[1] = self.start_position;
                bytes[2] = self.end_position;
                bytes[3] = self.force;  // force in resistance zone
                bytes[4] = self.force / 2;  // strength near release
                bytes[5] = self.force / 2;  // strength near middle
                bytes[6] = self.force;  // strength at pressed
                bytes[9] = self.frequency;
            },
            // Off and Calibration carry nothing after the tag
            _ => {},
        }
        assert(bytes@ =~= self.block());
        bytes
    }
}


/// An effect block names its mode unambiguously in its first byte, and a
/// continuous effect carries its force in the third: decoding the block's tag
/// gives back the mode that was encoded.
pub proof fn lemma_effect_block_round_trip(e: TriggerEffect)
    ensures
        e.block().len() == 11,
        TriggerEffectMode::is_tag(e.block()[0]),
        forall|m: TriggerEffectMode| #[trigger] m.tag() == e.block()[0] ==> m == e.mode,
        e.mode == TriggerEffectMode::Continuous ==> e.block()[1] == e.start_position
            && e.block()[2] == e.force,
{
}

/// Player LED configuration (5 LEDs below touchpad)
#[derive(Debug, Clone, Copy, PartialEq, Eq, Structural)]
pub struct PlayerLeds {
    pub led1: bool,
    pub led2: bool,
    pub led3: bool,
    pub led4: bool,
    pub led5: bool,
}

/// The LED row with each LED set as given.
pub open spec fn leds(a: bool, b: bool, c: bool, d: bool, e: bool) -> PlayerLeds {
    PlayerLeds { led1: a, led2: b, led3: c, led4: d, led5: e }
}

/// Value of one LED in the pattern byte.
pub open spec fn bit_if(on: bool, value: u8) -> int {
    if on {
        value as int
    } else {
        0
    }
}

impl Default for PlayerLeds {
    fn default() -> (r: Self)
        ensures
            r == leds(false, false, false, false, false),
    {
        PlayerLeds { led1: false, led2: false, led3: false, led4: false, led5: false }
    }
}

impl PlayerLeds {
    /// The standard pattern for a player number; all off outside 1-5.
    pub open spec fn player_pattern(player: u8) -> PlayerLeds {
        if player == 1 {
            leds(false, false, true, false, false)
        } else if player == 2 {
            leds(false, true, false, true, false)
        } else if player == 3 {
            leds(true, false, true, false, true)
        } else if player == 4 {
            leds(true, true, false, true, true)
        } else if player == 5 {
            leds(true, true, true, true, true)
        } else {
            leds(false, false, false, false, false)
        }
    }

    /// The 5-bit pattern byte: LED n is bit n-1.
    pub open spec fn pattern_byte(self) -> int {
        bit_if(self.led1, 0x01) + bit_if(self.led2, 0x02) + bit_if(self.led3, 0x04) + bit_if(
            self.led4,
            0x08,
        ) + bit_if(self.led5, 0x10)
    }

    /// Create from player number (1-5)
    pub fn from_player(player: u8) -> (r: Self)
        ensures
            r == Self::player_pattern(player),
    {
        match player {
            1 => PlayerLeds { led1: false, led2: false, led3: true, led4: false, led5: false },
            2 => PlayerLeds { led1: false, led2: true, led3: false, led4: true, led5: false },
            3 => PlayerLeds { led1: true, led2: false, led3: true, led4: false, led5: true },
            4 => PlayerLeds { led1: true, led2: true, led3: false, led4: true, led5: true },
            5 => PlayerLeds { led1: true, led2: true, led3: true, led4: true, led5: true },
            _ => PlayerLeds::default(),
        }
    }

    /// All LEDs on
    pub fn all() -> (r: Self)
        ensures
            r == leds(true, true, true, true, true),
    {
        PlayerLeds { led1: true, led2: true, led3: true, led4: true, led5: true }
    }

    /// Convert to byte value
    pub fn to_byte(&self) -> (r: u8)
        ensures
            r as int == self.pattern_byte(),
    {
        let mut byte: u8 = 0;
        if self.led1 {
            byte = byte + 0x01;
        }
        if self.led2 {
            byte = byte + 0x02;
        }
        if self.led3 {
            byte = byte + 0x04;
        }
        if self.led4 {
            byte = byte + 0x08;
        }
        if self.led5 {
            byte = byte + 0x10;
        }
        byte
    }
}

/// Mute LED state
#[derive(Debug, Clone, Copy, PartialEq, Eq, Structural)]
pub enum MuteLedState {
    Off,
    On,
    Breathing,
}

impl Default for MuteLedState {
    fn default() -> (r: Self)
        ensures
            r == MuteLedState::Off,
    {
        MuteLedState::Off
    }
}

impl MuteLedState {
    /// The byte that the output report carries for this state.
    pub open spec fn code(self) -> u8 {
        match self {
            MuteLedState::Off => 0,
            MuteLedState::On => 1,
            MuteLedState::Breathing => 2,
        }
    }

    pub fn to_byte(&self) -> (r: u8)
        ensures
            r == self.code(),
    {
        match self {
            MuteLedState::Off => 0,
            MuteLedState::On => 1,
            MuteLedState::Breathing => 2,
        }
    }
}

/// Battery status
#[derive(Debug, Clone, Copy, Default, PartialEq, Eq, Structural)]
pub struct Battery {
    /// Charge level, 0-10 in steps of ten percent
    pub level: u8,
    pub charging: bool,
    pub fully_charged: bool,
}

impl Battery {
    /// Charge in percent: ten per level, at most 100.
    pub open spec fn percent(self) -> int {
        if self.level * 10 > 100 {
            100
        } else {
            self.level * 10
        }
    }

    pub fn percentage(&self) -> (r: u8)
        ensures
            r as int == self.percent(),
    {
        if self.level >= 10 {
            100
        } else {
            self.level * 10
        }
    }
}


/// DualSense button state
#[derive(Debug, Clone, Copy, Default, PartialEq, Eq, Structural)]
pub struct Buttons {
    // Face buttons
    pub cross: bool,
    pub circle: bool,
    pub square: bool,
    pub triangle: bool,
    // D-pad
    pub dpad_up: bool,
    pub dpad_down: bool,
    pub dpad_left: bool,
    pub dpad_right: bool,
    // Shoulder buttons
    pub l1: bool,
    pub r1: bool,
    pub l2_button: bool,
    pub r2_button: bool,
    // Stick buttons
    pub l3: bool,
    pub r3: bool,
    // System buttons
    pub options: bool,
    pub create: bool,
    pub ps: bool,
    pub touchpad: bool,
    pub mute: bool,
}

/// Analog stick state (0-255, center at 128)
#[derive(Debug, Clone, Copy, Default, PartialEq, Eq, Structural)]
pub struct Stick {
    pub x: u8,
    pub y: u8,
}

/// Trigger state (0-255)
#[derive(Debug, Clone, Copy, Default, PartialEq, Eq, Structural)]
pub struct Triggers {
    pub l2: u8,
    pub r2: u8,
}

/// Touchpad finger state
#[derive(Debug, Clone, Copy, Default, PartialEq, Eq, Structural)]
pub struct TouchFinger {
    pub active: bool,
    /// Finger id, 7 bits
    pub id: u8,
    /// X coordinate, 12 bits
    pub x: u16,
    /// Y coordinate, 12 bits
    pub y: u16,
}

/// Touchpad state (supports 2 fingers)
#[derive(Debug, Clone, Copy, Default, PartialEq, Eq, Structural)]
pub struct Touchpad {
    pub finger1: TouchFinger,
    pub finger2: TouchFinger,
}

/// Raw gyroscope data
#[derive(Debug, Clone, Copy, Default, PartialEq, Eq, Structural)]
pub struct Gyroscope {
    pub x: i16,
    pub y: i16,
    pub z: i16,
}

/// Raw accelerometer data
#[derive(Debug, Clone, Copy, Default, PartialEq, Eq, Structural)]
pub struct Accelerometer {
    pub x: i16,
    pub y: i16,
    pub z: i16,
}

/// Decoded controller input. The orientation estimate derived from the
/// inertial fields is kept beside it by the owner of the connection.
#[derive(Debug, Clone, Copy, PartialEq, Eq, Structural)]
pub struct ControllerState {
    pub buttons: Buttons,
    pub left_stick: Stick,
    pub right_stick: Stick,
    pub triggers: Triggers,
    pub touchpad: Touchpad,
    pub gyroscope: Gyroscope,
    pub accelerometer: Accelerometer,
    pub battery: Battery,
    pub timestamp: u32,
}

/// No button held.
pub open spec fn no_buttons() -> Buttons {
    Buttons {
        cross: false,
        circle: false,
        square: false,
        triangle: false,
        dpad_up: false,
        dpad_down: false,
        dpad_left: false,
        dpad_right: false,
        l1: false,
        r1: false,
        l2_button: false,
        r2_button: false,
        l3: false,
        r3: false,
        options: false,
        create: false,
        ps: false,
        touchpad: false,
        mute: false,
    }
}

impl ControllerState {
    /// Every field zero or false.
    pub open spec fn zeroed() -> ControllerState {
        let finger = TouchFinger { active: false, id: 0, x: 0, y: 0 };
        ControllerState {
            buttons: no_buttons(),
            left_stick: Stick { x: 0, y: 0 },
            right_stick: Stick { x: 0, y: 0 },
            triggers: Triggers { l2: 0, r2: 0 },
            touchpad: Touchpad { finger1: finger, finger2: finger },
            gyroscope: Gyroscope { x: 0, y: 0, z: 0 },
            accelerometer: Accelerometer { x: 0, y: 0, z: 0 },
            battery: Battery { level: 0, charging: false, fully_charged: false },
            timestamp: 0,
        }
    }
}

impl Default for ControllerState {
    fn default() -> (r: Self)
        ensures
            r == ControllerState::zeroed(),
    {
        let finger = TouchFinger { active: false, id: 0, x: 0, y: 0 };
        ControllerState {
            buttons: Buttons {
                cross: false,
                circle: false,
                square: false,
                triangle: false,
                dpad_up: false,
                dpad_down: false,
                dpad_left: false,
                dpad_right: false,
                l1: false,
                r1: false,
                l2_button: false,
                r2_button: false,
                l3: false,
                r3: false,
                options: false,
                create: false,
                ps: false,
                touchpad: false,
                mute: false,
            },
            left_stick: Stick { x: 0, y: 0 },
            right_stick: Stick { x: 0, y: 0 },
            triggers: Triggers { l2: 0, r2: 0 },
            touchpad: Touchpad { finger1: finger, finger2: finger },
            gyroscope: Gyroscope { x: 0, y: 0, z: 0 },
            accelerometer: Accelerometer { x: 0, y: 0, z: 0 },
            battery: Battery { level: 0, charging: false, fully_charged: false },
            timestamp: 0,
        }
    }
}

/// Connection type
#[derive(Debug, Clone, Copy, PartialEq, Eq, Structural)]
pub enum ConnectionType {
    Usb,
    Bluetooth,
}

impl ConnectionType {
    /// Transport of a device by its HID interface number: -1 is Bluetooth,
    /// any other value USB.
    pub fn from_interface_number(interface_number: i32) -> (r: Self)
        ensures
            interface_number == -1 ==> r == ConnectionType::Bluetooth,
            interface_number != -1 ==> r == ConnectionType::Usb,
    {
        if interface_number == -1 {
            ConnectionType::Bluetooth
        } else {
            ConnectionType::Usb
        }
    }
}

/// Whether a vendor and product id name a DualSense or a DualSense Edge.
pub open spec fn is_dualsense_id(vendor_id: u16, product_id: u16) -> bool {
    vendor_id == SONY_VENDOR_ID && (product_id == DUALSENSE_PRODUCT_ID || product_id
        == DUALSENSE_EDGE_PRODUCT_ID)
}

/// Device match used when enumerating HID devices.
pub fn is_dualsense(vendor_id: u16, product_id: u16) -> (r: bool)
    ensures
        r == is_dualsense_id(vendor_id, product_id),
{
    vendor_id == SONY_VENDOR_ID && (product_id == DUALSENSE_PRODUCT_ID || product_id
        == DUALSENSE_EDGE_PRODUCT_ID)
}

/// Complete output state for the controller
#[derive(Debug, Clone, Copy)]
pub struct OutputState {
    /// LED color (R, G, B)
    pub led_color: (u8, u8, u8),
    /// Rumble motors (left, right)
    pub rumble: (u8, u8),
    /// L2 trigger effect
    pub l2_effect: TriggerEffect,
    /// R2 trigger effect
    pub r2_effect: TriggerEffect,
    /// Player LEDs
    pub player_leds: PlayerLeds,
    /// Mute LED state
    pub mute_led: MuteLedState,
    /// Whether lightbar is enabled
    pub lightbar_enabled: bool,
    /// Sequence number for Bluetooth (0-15)
    pub bt_seq: u8,
}

impl OutputState {
    /// White lightbar, motors still, no trigger effects, LEDs off.
    pub open spec fn initial() -> OutputState {
        OutputState {
            led_color: (255, 255, 255),
            rumble: (0, 0),
            l2_effect: TriggerEffect::off(),
            r2_effect: TriggerEffect::off(),
            player_leds: leds(false, false, false, false, false),
            mute_led: MuteLedState::Off,
            lightbar_enabled: true,
            bt_seq: 0,
        }
    }
}

impl Default for OutputState {
    fn default() -> (r: Self)
        ensures
            r == OutputState::initial(),
    {
        OutputState {
            led_color: (255, 255, 255),
            rumble: (0, 0),
            l2_effect: TriggerEffect::default(),
            r2_effect: TriggerEffect::default(),
            player_leds: PlayerLeds::default(),
            mute_led: MuteLedState::Off,
            lightbar_enabled: true,
            bt_seq: 0,
        }
    }
}

} // verus!
