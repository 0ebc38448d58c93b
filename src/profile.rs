//! Controller profiles: named lightbar, trigger, player-LED and mute-LED
//! settings, their conversion to an output state, and profile file ids.

use vstd::prelude::*;

use std::collections::HashMap;
use std::path::PathBuf;

use crate::dualsense::{
    leds, MuteLedState, OutputState, PlayerLeds, TriggerEffect, TriggerEffectMode,
};
use crate::text::{alphanumeric_of, chars_of, is_alphanumeric, lower_of, lowercase, push_char, same_text};

verus! {

broadcast use vstd::string::to_string_from_display_ensures_for_str;

#[verifier::external_type_specification]
#[verifier::external_body]
pub struct ExPathBuf(PathBuf);

/// LED color configuration in a profile
#[derive(Debug, Clone, Copy, PartialEq, Eq, Structural)]
pub struct ProfileLedColor {
    pub r: u8,
    pub g: u8,
    pub b: u8,
}

impl Default for ProfileLedColor {
    fn default() -> (r: Self)
        ensures
            r == (ProfileLedColor { r: 226, g: 64, b: 48 }),
    {
        ProfileLedColor { r: 226, g: 64, b: 48 }
    }
}

impl From<ProfileLedColor> for (u8, u8, u8) {
    fn from(c: ProfileLedColor) -> (u8, u8, u8) {
        (c.r, c.g, c.b)
    }
}

impl vstd::std_specs::convert::FromSpecImpl<ProfileLedColor> for (u8, u8, u8) {
    open spec fn obeys_from_spec() -> bool {
        true
    }

    open spec fn from_spec(c: ProfileLedColor) -> (u8, u8, u8) {
        (c.r, c.g, c.b)
    }
}

/// The effect that a lowercased effect name selects; unknown names give the
/// default effect.
pub open spec fn named_effect(kind: Seq<char>, start: u8, end: u8, force: u8, frequency: u8) -> TriggerEffect {
    if kind == "continuous"@ {
        TriggerEffect {
            mode: TriggerEffectMode::Continuous,
            start_position: 0,
            end_position: 255,
            force,
            frequency: 0,
        }
    } else if kind == "section"@ || kind == "weapon"@ {
        TriggerEffect {
            mode: TriggerEffectMode::SectionResistance,
            start_position: start,
            end_position: end,
            force,
            frequency: 0,
        }
    } else if kind == "vibration"@ {
        TriggerEffect {
            mode: TriggerEffectMode::Vibration,
            start_position: start,
            end_position: 255,
            force,
            frequency,
        }
    } else if kind == "bow"@ {
        TriggerEffect {
            mode: TriggerEffectMode::Continuous,
            start_position: 30,
            end_position: 200,
            force,
            frequency: 0,
        }
    } else {
        TriggerEffect::off()
    }
}

/// Builds the effect named by an already lowercased `kind`.
pub fn effect_from_lowered_name(kind: &str, start: u8, end: u8, force: u8, frequency: u8) -> (r:
    TriggerEffect)
    ensures
        r == named_effect(kind@, start, end, force, frequency),
{
    proof {
        reveal_strlit("continuous");
        reveal_strlit("section");
        reveal_strlit("vibration");
        reveal_strlit("weapon");
        reveal_strlit("bow");
        assert("vibration"@.len() == 9 && "weapon"@.len() == 6 && "section"@.len() == 7);
        assert("continuous"@.len() == 10 && "bow"@.len() == 3);
    }
    if same_text(kind, "continuous") {
        TriggerEffect::continuous(force)
    } else if same_text(kind, "section") {
        TriggerEffect::section(start, end, force)
    } else if same_text(kind, "vibration") {
        TriggerEffect::vibration(start, frequency, force)
    } else if same_text(kind, "weapon") {
        TriggerEffect::weapon(start, end, force)
    } else if same_text(kind, "bow") {
        TriggerEffect::bow(force)
    } else {
        TriggerEffect::default()
    }
}

/// Builds the effect named by `kind`, matched without regard to case.
pub fn effect_from_name(kind: &str, start: u8, end: u8, force: u8, frequency: u8) -> (r: TriggerEffect)
    ensures
        r == named_effect(lower_of(kind@), start, end, force, frequency),
{
    let lowered = lowercase(kind);
    effect_from_lowered_name(lowered.as_str(), start, end, force, frequency)
}

/// Adaptive trigger configuration in a profile
#[derive(Debug, Clone)]
pub struct ProfileTriggerEffect {
    /// Effect type: "off", "continuous", "section", "vibration", "weapon", "bow"
    pub effect_type: String,
    /// Start position (0-255)
    pub start: u8,
    /// End position (0-255)
    pub end: u8,
    /// Force/strength (0-255)
    pub force: u8,
    /// Frequency for vibration (0-255 Hz)
    pub frequency: u8,
}

/// Default end position of a profile trigger effect.
pub fn default_end() -> (r: u8)
    ensures
        r == 255,
{
    255
}

impl Default for ProfileTriggerEffect {
    fn default() -> (r: Self)
        ensures
            r.effect_type@ == "off"@,
            r.start == 0,
            r.end == 255,
            r.force == 0,
            r.frequency == 0,
    {
        ProfileTriggerEffect {
            effect_type: "off".to_string(),
            start: 0,
            end: default_end(),
            force: 0,
            frequency: 0,
        }
    }
}

impl ProfileTriggerEffect {
    /// The effect this configuration describes.
    pub open spec fn effect(&self) -> TriggerEffect {
        named_effect(lower_of(self.effect_type@), self.start, self.end, self.force, self.frequency)
    }

    /// The effect this configuration describes.
    pub fn to_effect(&self) -> (r: TriggerEffect)
        ensures
            r == self.effect(),
    {
        effect_from_name(self.effect_type.as_str(), self.start, self.end, self.force, self.frequency)
    }
}

impl From<ProfileTriggerEffect> for TriggerEffect {
    fn from(p: ProfileTriggerEffect) -> TriggerEffect {
        p.to_effect()
    }
}

impl vstd::std_specs::convert::FromSpecImpl<ProfileTriggerEffect> for TriggerEffect {
    open spec fn obeys_from_spec() -> bool {
        true
    }

    open spec fn from_spec(p: ProfileTriggerEffect) -> TriggerEffect {
        p.effect()
    }
}

/// Profile name of an effect mode. Combined resistance-vibration is stored as
/// a section effect, calibration as off.
pub open spec fn mode_name(m: TriggerEffectMode) -> Seq<char> {
    match m {
        TriggerEffectMode::Off => "off"@,
        TriggerEffectMode::Continuous => "continuous"@,
        TriggerEffectMode::SectionResistance => "section"@,
        TriggerEffectMode::Vibration => "vibration"@,
        TriggerEffectMode::CombinedRV => "section"@,
        TriggerEffectMode::Calibration => "off"@,
    }
}

impl ProfileTriggerEffect {
    /// The profile form of an effect: its mode by name and its four values.
    pub fn from_effect(e: TriggerEffect) -> (r: ProfileTriggerEffect)
        ensures
            r.effect_type@ == mode_name(e.mode),
            r.start == e.start_position,
            r.end == e.end_position,
            r.force == e.force,
            r.frequency == e.frequency,
    {
        let effect_type = match e.mode {
            TriggerEffectMode::Off => "off",
            TriggerEffectMode::Continuous => "continuous",
            TriggerEffectMode::SectionResistance => "section",
            TriggerEffectMode::Vibration => "vibration",
            TriggerEffectMode::CombinedRV => "section",
            TriggerEffectMode::Calibration => "off",
        };
        ProfileTriggerEffect {
            effect_type: effect_type.to_string(),
            start: e.start_position,
            end: e.end_position,
            force: e.force,
            frequency: e.frequency,
        }
    }
}

impl From<TriggerEffect> for ProfileTriggerEffect {
    fn from(e: TriggerEffect) -> ProfileTriggerEffect {
        ProfileTriggerEffect::from_effect(e)
    }
}

// The profile form holds a `String`, which no spec function can build; what
// the conversion gives is stated by `from_effect`.
impl vstd::std_specs::convert::FromSpecImpl<TriggerEffect> for ProfileTriggerEffect {
    open spec fn obeys_from_spec() -> bool {
        false
    }

    open spec fn from_spec(e: TriggerEffect) -> ProfileTriggerEffect {
        arbitrary()
    }
}

/// Adaptive trigger settings as the desktop shell passes them; missing
/// values take the shell's defaults.
#[derive(Debug, Clone)]
pub struct TriggerConfig {
    pub effect_type: String,
    pub start: Option<u8>,
    pub end: Option<u8>,
    pub force: Option<u8>,
    pub frequency: Option<u8>,
}

/// The value of an optional setting, or its default.
pub open spec fn or_default(v: Option<u8>, d: u8) -> u8 {
    match v {
        Some(x) => x,
        None => d,
    }
}

impl TriggerConfig {
    /// The effect these settings describe.
    pub open spec fn effect(&self) -> TriggerEffect {
        named_effect(
            lower_of(self.effect_type@),
            or_default(self.start, 70),
            or_default(self.end, 160),
            or_default(self.force, 200),
            or_default(self.frequency, 10),
        )
    }

    /// The effect these settings describe.
    pub fn to_effect(&self) -> (r: TriggerEffect)
        ensures
            r == self.effect(),
    {
        let force = match self.force {
            Some(v) => v,
            None => 200,
        };
        let start = match self.start {
            Some(v) => v,
            None => 70,
        };
        let end = match self.end {
            Some(v) => v,
            None => 160,
        };
        let freq = match self.frequency {
            Some(v) => v,
            None => 10,
        };
        effect_from_name(self.effect_type.as_str(), start, end, force, freq)
    }
}

impl From<TriggerConfig> for TriggerEffect {
    fn from(c: TriggerConfig) -> TriggerEffect {
        c.to_effect()
    }
}

impl vstd::std_specs::convert::FromSpecImpl<TriggerConfig> for TriggerEffect {
    open spec fn obeys_from_spec() -> bool {
        true
    }

    open spec fn from_spec(c: TriggerConfig) -> TriggerEffect {
        c.effect()
    }
}

/// Player LED configuration in a profile
#[derive(Debug, Clone, Copy, PartialEq, Eq, Structural)]
pub enum ProfilePlayerLeds {
    /// Player number (1-5)
    Number(u8),
    /// Individual LED states
    Custom { led1: bool, led2: bool, led3: bool, led4: bool, led5: bool },
}

impl Default for ProfilePlayerLeds {
    fn default() -> (r: Self)
        ensures
            r == ProfilePlayerLeds::Number(1),
    {
        ProfilePlayerLeds::Number(1)
    }
}

impl ProfilePlayerLeds {
    /// The LED row this setting lights.
    pub open spec fn leds(self) -> PlayerLeds {
        match self {
            ProfilePlayerLeds::Number(n) => PlayerLeds::player_pattern(n),
            ProfilePlayerLeds::Custom { led1, led2, led3, led4, led5 } => leds(
                led1,
                led2,
                led3,
                led4,
                led5,
            ),
        }
    }

    /// The LED row this setting lights.
    pub fn to_leds(&self) -> (r: PlayerLeds)
        ensures
            r == self.leds(),
    {
        match *self {
            ProfilePlayerLeds::Number(n) => PlayerLeds::from_player(n),
            ProfilePlayerLeds::Custom { led1, led2, led3, led4, led5 } => PlayerLeds {
                led1,
                led2,
                led3,
                led4,
                led5,
            },
        }
    }
}

impl From<ProfilePlayerLeds> for PlayerLeds {
    fn from(p: ProfilePlayerLeds) -> PlayerLeds {
        p.to_leds()
    }
}

impl vstd::std_specs::convert::FromSpecImpl<ProfilePlayerLeds> for PlayerLeds {
    open spec fn obeys_from_spec() -> bool {
        true
    }

    open spec fn from_spec(p: ProfilePlayerLeds) -> PlayerLeds {
        p.leds()
    }
}

/// Controller profile with all settings
#[derive(Debug, Clone)]
pub struct Profile {
    /// Profile name
    pub name: String,
    /// Profile description
    pub description: String,
    /// LED lightbar color
    pub led_color: ProfileLedColor,
    /// Whether lightbar is enabled
    pub lightbar_enabled: bool,
    /// L2 trigger effect
    pub l2_trigger: ProfileTriggerEffect,
    /// R2 trigger effect
    pub r2_trigger: ProfileTriggerEffect,
    /// Player LED configuration
    pub player_leds: Option<ProfilePlayerLeds>,
    /// Mute LED state: "off", "on", "breathing"
    pub mute_led: Option<String>,
    /// Default rumble intensity (0-255), used as a multiplier
    pub rumble_intensity: u8,
    /// Custom metadata
    pub metadata: HashMap<String, String>,
}

/// Whether a profile trigger setting holds exactly these values.
pub open spec fn trigger_is(
    t: ProfileTriggerEffect,
    kind: Seq<char>,
    start: u8,
    end: u8,
    force: u8,
    frequency: u8,
) -> bool {
    &&& t.effect_type@ == kind
    &&& t.start == start
    &&& t.end == end
    &&& t.force == force
    &&& t.frequency == frequency
}

/// Mute LED state named in a profile; anything but "on" and "breathing" is off.
pub open spec fn mute_of(m: Option<String>) -> MuteLedState {
    match m {
        Some(s) => if s@ == "on"@ {
            MuteLedState::On
        } else if s@ == "breathing"@ {
            MuteLedState::Breathing
        } else {
            MuteLedState::Off
        },
        None => MuteLedState::Off,
    }
}

/// Default rumble intensity of a profile.
pub fn default_rumble_intensity() -> (r: u8)
    ensures
        r == 255,
{
    255
}

/// Default lightbar setting of a profile.
pub fn default_true() -> (r: bool)
    ensures
        r,
{
    true
}

impl Profile {
    /// Every setting but name and description at its default.
    pub open spec fn has_default_settings(self) -> bool {
        &&& self.led_color == (ProfileLedColor { r: 226, g: 64, b: 48 })
        &&& self.lightbar_enabled
        &&& trigger_is(self.l2_trigger, "off"@, 0, 255, 0, 0)
        &&& trigger_is(self.r2_trigger, "off"@, 0, 255, 0, 0)
        &&& self.player_leds == Some(ProfilePlayerLeds::Number(1))
        &&& self.mute_led.is_none()
        &&& self.rumble_intensity == 255
        &&& self.metadata@ == Map::<String, String>::empty()
    }

    /// The output state that applying the profile sends: its colour,
    /// effects and LEDs, motors still, sequence counter at zero.
    pub open spec fn output(self) -> OutputState {
        OutputState {
            led_color: (self.led_color.r, self.led_color.g, self.led_color.b),
            rumble: (0, 0),
            l2_effect: self.l2_trigger.effect(),
            r2_effect: self.r2_trigger.effect(),
            player_leds: match self.player_leds {
                Some(p) => p.leds(),
                None => leds(false, false, false, false, false),
            },
            mute_led: mute_of(self.mute_led),
            lightbar_enabled: self.lightbar_enabled,
            bt_seq: 0,
        }
    }

    /// Create a new profile with a name
    pub fn new(name: &str) -> (r: Self)
        ensures
            r.name@ == name@,
            r.description@ == "Default controller profile"@,
            r.has_default_settings(),
    {
        let mut p = Profile::default();
        p.name = name.to_string();
        p
    }

    /// Convert to OutputState for applying to controller
    pub fn to_output_state(&self) -> (r: OutputState)
        ensures
            r == self.output(),
    {
        let mute_led = match &self.mute_led {
            Some(s) => {
                proof {
                    reveal_strlit("on");
                    reveal_strlit("breathing");
                }
                if same_text(s.as_str(), "on") {
                    MuteLedState::On
                } else if same_text(s.as_str(), "breathing") {
                    MuteLedState::Breathing
                } else {
                    MuteLedState::Off
                }
            },
            None => MuteLedState::Off,
        };
        let player_leds = match &self.player_leds {
            Some(p) => p.to_leds(),
            None => PlayerLeds::default(),
        };
        OutputState {
            led_color: (self.led_color.r, self.led_color.g, self.led_color.b),
            rumble: (0, 0),
            l2_effect: self.l2_trigger.to_effect(),
            r2_effect: self.r2_trigger.to_effect(),
            player_leds,
            mute_led,
            lightbar_enabled: self.lightbar_enabled,
            bt_seq: 0,
        }
    }
}

impl Default for Profile {
    fn default() -> (r: Self)
        ensures
            r.name@ == "Default"@,
            r.description@ == "Default controller profile"@,
            r.has_default_settings(),
    {
        Profile {
            name: "Default".to_string(),
            description: "Default controller profile".to_string(),
            led_color: ProfileLedColor::default(),
            lightbar_enabled: default_true(),
            l2_trigger: ProfileTriggerEffect::default(),
            r2_trigger: ProfileTriggerEffect::default(),
            player_leds: Some(ProfilePlayerLeds::Number(1)),
            mute_led: None,
            rumble_intensity: default_rumble_intensity(),
            metadata: HashMap::new(),
        }
    }
}

impl Profile {
    /// Settings shared by the built-in presets besides their own.
    pub open spec fn preset_base(self) -> bool {
        &&& self.lightbar_enabled
        &&& self.player_leds == Some(ProfilePlayerLeds::Number(1))
        &&& self.mute_led.is_none()
        &&& self.metadata@ == Map::<String, String>::empty()
    }

    pub open spec fn is_gaming_preset(self) -> bool {
        &&& self.name@ == "Gaming"@
        &&& self.description@ == "Optimized for gaming with trigger feedback"@
        &&& self.led_color == (ProfileLedColor { r: 255, g: 0, b: 0 })
        &&& trigger_is(self.l2_trigger, "section"@, 70, 160, 200, 0)
        &&& trigger_is(self.r2_trigger, "weapon"@, 80, 120, 255, 0)
        &&& self.rumble_intensity == 255
        &&& self.preset_base()
    }

    pub open spec fn is_racing_preset(self) -> bool {
        &&& self.name@ == "Racing"@
        &&& self.description@ == "Progressive resistance for racing games"@
        &&& self.led_color == (ProfileLedColor { r: 0, g: 255, b: 0 })
        &&& trigger_is(self.l2_trigger, "continuous"@, 0, 255, 150, 0)
        &&& trigger_is(self.r2_trigger, "continuous"@, 0, 255, 150, 0)
        &&& self.rumble_intensity == 255
        &&& self.preset_base()
    }

    pub open spec fn is_accessibility_preset(self) -> bool {
        &&& self.name@ == "Accessibility"@
        &&& self.description@ == "Reduced resistance for easier use"@
        &&& self.led_color == (ProfileLedColor { r: 255, g: 255, b: 255 })
        &&& trigger_is(self.l2_trigger, "off"@, 0, 255, 0, 0)
        &&& trigger_is(self.r2_trigger, "off"@, 0, 255, 0, 0)
        &&& self.rumble_intensity == 128
        &&& self.preset_base()
    }

    pub open spec fn is_default_preset(self) -> bool {
        &&& self.name@ == "Default"@
        &&& self.description@ == "Default controller profile"@
        &&& self.has_default_settings()
    }

    /// Create preset profiles
    pub fn preset_default() -> (r: Self)
        ensures
            r.is_default_preset(),
    {
        Profile::default()
    }

    pub fn preset_gaming() -> (r: Self)
        ensures
            r.is_gaming_preset(),
    {
        let mut p = Profile::default();
        p.name = "Gaming".to_string();
        p.description = "Optimized for gaming with trigger feedback".to_string();
        p.led_color = ProfileLedColor { r: 255, g: 0, b: 0 };
        p.l2_trigger = ProfileTriggerEffect {
            effect_type: "section".to_string(),
            start: 70,
            end: 160,
            force: 200,
            frequency: 0,
        };
        p.r2_trigger = ProfileTriggerEffect {
            effect_type: "weapon".to_string(),
            start: 80,
            end: 120,
            force: 255,
            frequency: 0,
        };
        p.player_leds = Some(ProfilePlayerLeds::Number(1));
        p
    }

    pub fn preset_racing() -> (r: Self)
        ensures
            r.is_racing_preset(),
    {
        let mut p = Profile::default();
        p.name = "Racing".to_string();
        p.description = "Progressive resistance for racing games".to_string();
        p.led_color = ProfileLedColor { r: 0, g: 255, b: 0 };
        p.l2_trigger = ProfileTriggerEffect {
            effect_type: "continuous".to_string(),
            start: 0,
            end: 255,
            force: 150,
            frequency: 0,
        };
        p.r2_trigger = ProfileTriggerEffect {
            effect_type: "continuous".to_string(),
            start: 0,
            end: 255,
            force: 150,
            frequency: 0,
        };
        p.player_leds = Some(ProfilePlayerLeds::Number(1));
        p
    }

    pub fn preset_accessibility() -> (r: Self)
        ensures
            r.is_accessibility_preset(),
    {
        let mut p = Profile::default();
        p.name = "Accessibility".to_string();
        p.description = "Reduced resistance for easier use".to_string();
        p.led_color = ProfileLedColor { r: 255, g: 255, b: 255 };
        p.l2_trigger = ProfileTriggerEffect::default();
        p.r2_trigger = ProfileTriggerEffect::default();
        p.rumble_intensity = 128;
        p.player_leds = Some(ProfilePlayerLeds::Number(1));
        p
    }

    /// The built-in presets in the order they are first saved: default,
    /// gaming, racing, accessibility.
    pub fn presets() -> (r: Vec<Profile>)
        ensures
            r@.len() == 4,
            r@[0].is_default_preset(),
            r@[1].is_gaming_preset(),
            r@[2].is_racing_preset(),
            r@[3].is_accessibility_preset(),
    {
        let mut v: Vec<Profile> = Vec::new();
        v.push(Profile::preset_default());
        v.push(Profile::preset_gaming());
        v.push(Profile::preset_racing());
        v.push(Profile::preset_accessibility());
        v
    }
}

/// Character of a profile id: letters, digits, `-` and `_` stay, anything
/// else becomes `-`.
pub open spec fn id_char(c: char) -> char {
    if alphanumeric_of(c) || c == '-' || c == '_' {
        c
    } else {
        '-'
    }
}

/// `s` without its leading dashes.
pub open spec fn trim_start_dashes(s: Seq<char>) -> Seq<char>
    decreases s.len(),
{
    if s.len() > 0 && s[0] == '-' {
        trim_start_dashes(s.drop_first())
    } else {
        s
    }
}

/// `s` without its trailing dashes.
pub open spec fn trim_end_dashes(s: Seq<char>) -> Seq<char>
    decreases s.len(),
{
    if s.len() > 0 && s.last() == '-' {
        trim_end_dashes(s.drop_last())
    } else {
        s
    }
}

/// File id of lowercased text: characters other than letters, digits, `-`
/// and `_` replaced by `-`, dashes at either end removed.
pub open spec fn lowered_id(s: Seq<char>) -> Seq<char> {
    trim_end_dashes(trim_start_dashes(s.map_values(|c: char| id_char(c))))
}

/// File id of a profile name: the id of its lowercase form.
pub open spec fn id_of(name: Seq<char>) -> Seq<char> {
    lowered_id(lower_of(name))
}

/// Profile manager: where profiles are stored and how names become files.
/// Reading and writing the files is left to the caller.
pub struct ProfileManager {
    profiles_dir: PathBuf,
}

impl ProfileManager {
    /// Directory the profiles are kept in.
    pub closed spec fn dir(&self) -> PathBuf {
        self.profiles_dir
    }

    /// A manager for profiles kept in `profiles_dir`.
    pub fn with_dir(profiles_dir: PathBuf) -> (r: Self)
        ensures
            r.dir() == profiles_dir,
    {
        ProfileManager { profiles_dir }
    }

    /// Get profiles directory
    pub fn profiles_dir(&self) -> (r: &PathBuf)
        ensures
            *r == self.dir(),
    {
        &self.profiles_dir
    }

    /// Convert profile name to file ID (lowercase, no spaces)
    pub fn name_to_id(name: &str) -> (r: String)
        ensures
            r@ == id_of(name@),
    {
        let lowered = lowercase(name);
        Self::id_from_lowered(lowered.as_str())
    }

    /// File ID of text that is already lowercase.
    pub fn id_from_lowered(lowered: &str) -> (r: String)
        ensures
            r@ == lowered_id(lowered@),
    {
        let chars = chars_of(lowered);
        let ghost mapped_spec = lowered@.map_values(|c: char| id_char(c));
        let mut mapped: Vec<char> = Vec::new();
        let mut i: usize = 0;
        while i < chars.len()
            invariant
                i <= chars@.len(),
                chars@ == lowered@,
                mapped@ == chars@.subrange(0, i as int).map_values(|c: char| id_char(c)),
            decreases chars@.len() - i,
        {
            let c = chars[i];
            let keep = is_alphanumeric(c) || c == '-' || c == '_';
            mapped.push(
                if keep {
                    c
                } else {
                    '-'
                },
            );
            i = i + 1;
            assert(mapped@ =~= chars@.subrange(0, i as int).map_values(|c: char| id_char(c)));
        }
        assert(chars@.subrange(0, i as int) =~= chars@);
        assert(mapped@ == mapped_spec);
        let len = mapped.len();
        let mut start: usize = 0;
        assert(mapped@.subrange(0, len as int) =~= mapped@);
        while start < len && mapped[start] == '-'
            invariant
                start <= len,
                len == mapped@.len(),
                trim_start_dashes(mapped@) == trim_start_dashes(
                    mapped@.subrange(start as int, len as int),
                ),
            decreases len - start,
        {
            assert(mapped@.subrange(start as int, len as int).drop_first() =~= mapped@.subrange(
                start + 1,
                len as int,
            ));
            start = start + 1;
        }
        let ghost trimmed = mapped@.subrange(start as int, len as int);
        assert(trim_start_dashes(mapped@) == trimmed);
        let mut end: usize = len;
        while end > start && mapped[end - 1] == '-'
            invariant
                start <= end <= len,
                len == mapped@.len(),
                trim_end_dashes(trimmed) == trim_end_dashes(
                    mapped@.subrange(start as int, end as int),
                ),
            decreases end,
        {
            assert(mapped@.subrange(start as int, end as int).drop_last() =~= mapped@.subrange(
                start as int,
                end - 1,
            ));
            end = end - 1;
        }
        let mut out = String::new();
        let mut k: usize = start;
        while k < end
            invariant
                start <= k <= end,
                end <= mapped@.len(),
                out@ == mapped@.subrange(start as int, k as int),
            decreases end - k,
        {
            push_char(&mut out, mapped[k]);
            k = k + 1;
            assert(out@ =~= mapped@.subrange(start as int, k as int));
        }
        out
    }

    /// File name of a profile: its id with the `.json` extension.
    pub fn profile_file_name(name: &str) -> (r: String)
        ensures
            r@ == id_of(name@) + ".json"@,
    {
        let id = Self::name_to_id(name);
        id.concat(".json")
    }
}

} // verus!
