use dualsense_cmd::dualsense::{MuteLedState, PlayerLeds, TriggerEffect, TriggerEffectMode};
use dualsense_cmd::executor::{DebounceState, EventType};
use dualsense_cmd::profile::{
    effect_from_lowered_name, effect_from_name, Profile, ProfileManager, ProfilePlayerLeds, ProfileTriggerEffect,
    TriggerConfig,
};
use dualsense_cmd::spatial::{next_force_type, VelocityCurve};
use dualsense_cmd::dualsense::Buttons;

#[test]
fn test_name_to_id() {
    assert_eq!(ProfileManager::name_to_id("My Profile"), "my-profile");
    assert_eq!(ProfileManager::name_to_id("Gaming"), "gaming");
    assert_eq!(ProfileManager::name_to_id("test_profile"), "test_profile");
}

#[test]
fn test_trigger_effect_conversion() {
    let profile_effect = ProfileTriggerEffect {
        effect_type: "weapon".to_string(),
        start: 80,
        end: 120,
        force: 200,
        frequency: 0,
    };
    let effect: TriggerEffect = profile_effect.into();
    assert_eq!(effect.mode, TriggerEffectMode::SectionResistance);
}

#[test]
fn name_to_id_trims_and_replaces() {
    assert_eq!(ProfileManager::name_to_id("  Hello, World!  "), "hello--world");
    assert_eq!(ProfileManager::name_to_id("---"), "");
    assert_eq!(ProfileManager::name_to_id(""), "");
    assert_eq!(ProfileManager::name_to_id("Café Ünïcode"), "café-ünïcode");
    assert_eq!(ProfileManager::name_to_id("a/b\\c"), "a-b-c");
    assert_eq!(ProfileManager::profile_file_name("My Profile"), "my-profile.json");
}

#[test]
fn effect_names_ignore_case() {
    assert_eq!(effect_from_name("CONTINUOUS", 1, 2, 3, 4), TriggerEffect::continuous(3));
    assert_eq!(effect_from_name("Section", 1, 2, 3, 4), TriggerEffect::section(1, 2, 3));
    assert_eq!(effect_from_name("vibration", 1, 2, 3, 4), TriggerEffect::vibration(1, 4, 3));
    assert_eq!(effect_from_name("bow", 1, 2, 3, 4), TriggerEffect::bow(3));
    assert_eq!(effect_from_name("bogus", 1, 2, 3, 4), TriggerEffect::default());
}

#[test]
fn trigger_config_defaults() {
    let c = TriggerConfig { effect_type: "section".to_string(), start: None, end: None, force: None, frequency: None };
    let e: TriggerEffect = c.into();
    assert_eq!(e, TriggerEffect::section(70, 160, 200));
    let c = TriggerConfig { effect_type: "Vibration".to_string(), start: Some(5), end: None, force: Some(9), frequency: None };
    assert_eq!(c.to_effect(), TriggerEffect::vibration(5, 10, 9));
}

#[test]
fn effect_back_to_profile_form() {
    let p: ProfileTriggerEffect = TriggerEffect::section(1, 2, 3).into();
    assert_eq!(p.effect_type, "section");
    assert_eq!((p.start, p.end, p.force, p.frequency), (1, 2, 3, 0));
    let combined = TriggerEffect { mode: TriggerEffectMode::CombinedRV, ..TriggerEffect::default() };
    assert_eq!(ProfileTriggerEffect::from_effect(combined).effect_type, "section");
}

#[test]
fn presets_and_output_state() {
    let gaming = Profile::preset_gaming();
    assert_eq!(gaming.name, "Gaming");
    let out = gaming.to_output_state();
    assert_eq!(out.led_color, (255, 0, 0));
    assert_eq!(out.rumble, (0, 0));
    assert_eq!(out.l2_effect, TriggerEffect::section(70, 160, 200));
    assert_eq!(out.r2_effect, TriggerEffect::weapon(80, 120, 255));
    assert_eq!(out.player_leds, PlayerLeds::from_player(1));
    assert_eq!(out.mute_led, MuteLedState::Off);
    assert!(out.lightbar_enabled);
    assert_eq!(out.bt_seq, 0);

    let mut custom = Profile::new("Mine");
    assert_eq!(custom.description, "Default controller profile");
    custom.mute_led = Some("breathing".to_string());
    custom.player_leds = Some(ProfilePlayerLeds::Custom { led1: true, led2: false, led3: false, led4: false, led5: true });
    let out = custom.to_output_state();
    assert_eq!(out.mute_led, MuteLedState::Breathing);
    assert_eq!(out.player_leds.to_byte(), 0x11);
    assert_eq!(out.led_color, (226, 64, 48));
    custom.mute_led = Some("ON".to_string());
    custom.player_leds = None;
    let out = custom.to_output_state();
    assert_eq!(out.mute_led, MuteLedState::Off);
    assert_eq!(out.player_leds, PlayerLeds::default());

    let all = Profile::presets();
    let names: Vec<&str> = all.iter().map(|p| p.name.as_str()).collect();
    assert_eq!(names, vec!["Default", "Gaming", "Racing", "Accessibility"]);
    assert_eq!(Profile::preset_accessibility().rumble_intensity, 128);
    assert_eq!(Profile::preset_racing().to_output_state().l2_effect, TriggerEffect::continuous(150));
}

#[test]
fn event_types_and_edges() {
    assert_eq!(EventType::from_str("RELEASE"), EventType::Release);
    assert_eq!(EventType::from_str("hold"), EventType::Hold);
    assert_eq!(EventType::from_str("Change"), EventType::Change);
    assert_eq!(EventType::from_str("whatever"), EventType::Press);
    assert!(EventType::Press.should_trigger(false, true));
    assert!(!EventType::Press.should_trigger(true, true));
    assert!(EventType::Release.should_trigger(true, false));
    assert!(EventType::Hold.should_trigger(true, true));
    assert!(!EventType::Change.should_trigger(false, false));
}

#[test]
fn debounce_window() {
    let mut d = DebounceState::new();
    assert!(d.can_trigger("cross", 0, 5));
    assert!(d.can_trigger("cross", 100, 1000));
    assert!(!d.can_trigger("cross", 100, 1050));
    assert!(d.can_trigger("circle", 100, 1050));
    assert!(d.can_trigger("cross", 100, 1100));
    assert!(!d.can_trigger("cross", 100, 1199));
    assert!(!d.can_trigger("cross", 100, 900));
}

#[test]
fn spatial_selectors() {
    assert_eq!(VelocityCurve::from_name("Cubic"), VelocityCurve::Cubic);
    assert_eq!(VelocityCurve::from_name("quadratic"), VelocityCurve::Quadratic);
    assert_eq!(VelocityCurve::from_name("other"), VelocityCurve::Linear);
    let mut b = Buttons::default();
    assert_eq!(next_force_type(7, &b), 7);
    b.dpad_up = true;
    assert_eq!(next_force_type(0, &b), 1);
    b.dpad_left = true;
    assert_eq!(next_force_type(0, &b), 3);
}

#[test]
fn lowered_text_lookups() {
    assert_eq!(ProfileManager::id_from_lowered("my profile"), "my-profile");
    assert_eq!(ProfileManager::id_from_lowered("-a b-"), "a-b");
    assert_eq!(ProfileManager::id_from_lowered("My"), "My");
    assert_eq!(
        effect_from_lowered_name("weapon", 80, 120, 200, 0).mode,
        TriggerEffectMode::SectionResistance
    );
    assert_eq!(effect_from_lowered_name("WEAPON", 80, 120, 200, 0), TriggerEffect::default());
    assert_eq!(EventType::from_lowered("release"), EventType::Release);
    assert_eq!(EventType::from_lowered("RELEASE"), EventType::Press);
    assert_eq!(VelocityCurve::from_lowered_name("cubic"), VelocityCurve::Cubic);
    assert_eq!(VelocityCurve::from_lowered_name("Cubic"), VelocityCurve::Linear);
}
