use evdev::{AbsoluteAxisCode, EventType, KeyCode};
use mmvj::control_type::ControlType;
use mmvj::interval::NumInterval;
use mmvj::joystick::{
    ff_level_span, next_sleep_millis, wrap_i32, AxisSetup, ControlValue, FfEffect, FfPlayback,
    FfUploadReply, FfWorkingState, JoystickError, OutputEvent, Removal, VirtualJoystick,
    VirtualJoystickManager, VJ_FF_MAX_EFFECTS,
};
use mmvj::schemas::{
    AxisProperties, FFCapabilities, F32Bits, JoystickProperties, ResolvedJoystickControl,
    ResolvedVirtualJoystick,
};

fn control(control_type: ControlType, from: i32, to: i32, initial_value: i32) -> ResolvedJoystickControl {
    ResolvedJoystickControl {
        control_type,
        range: NumInterval::new(from, to),
        properties: None,
        initial_value,
    }
}

fn wheel_config(force_feedback: Option<bool>) -> ResolvedVirtualJoystick {
    ResolvedVirtualJoystick {
        enabled: true,
        persistent: false,
        name: "Virtual Wheel".to_string(),
        properties: JoystickProperties { vendor_id: 0x1234, product_id: 0x5678, version: 0x0100 },
        controls: vec![
            ("steering".to_string(), control(ControlType::AbsX, -32768, 32767, 0)),
            ("horn".to_string(), control(ControlType::BtnSouth, 0, 1, 0)),
            ("scroll".to_string(), control(ControlType::RelWheel, -1, 1, 0)),
            (
                "throttle".to_string(),
                ResolvedJoystickControl {
                    properties: Some(AxisProperties { resolution: 4, fuzz: 2, flat: 3 }),
                    ..control(ControlType::AbsGas, 0, 1000, 17)
                },
            ),
            ("mod".to_string(), control(ControlType::ModulationWheel, 0, 127, 0)),
            ("lights".to_string(), control(ControlType::BtnEast, 0, 1, 1)),
        ],
        force_feedback: force_feedback.map(|enabled| FFCapabilities {
            enabled,
            effects: vec!["constant".to_string()],
            max_effects: 1,
            gain: F32Bits { bits: 1.0_f32.to_bits() },
            autocenter: F32Bits { bits: 0 },
        }),
    }
}

fn whole(v: i32) -> ControlValue {
    ControlValue { is_zero: v == 0, truncated: v }
}

#[test]
fn a_new_joystick_keeps_a_state_for_each_button_and_absolute_axis() {
    let (joystick, plan) = VirtualJoystick::new("wheel", &wheel_config(None), true);
    assert_eq!(joystick.config_key, "wheel");
    assert_eq!(joystick.name, "Virtual Wheel");
    assert!(joystick.is_persistent);
    assert!(!joystick.ff_enabled);
    let names: Vec<&str> = joystick.controls.iter().map(|c| c.0.as_str()).collect();
    assert_eq!(names, vec!["steering", "horn", "throttle", "lights"]);
    assert_eq!(joystick.get_control_state("steering"), 0);
    assert_eq!(joystick.get_control_state("throttle"), 17);
    assert_eq!(joystick.get_control_state("lights"), 1);
    assert_eq!(joystick.get_control_state("scroll"), 0);
    assert_eq!(joystick.get_control_state("absent"), 0);
    assert_eq!(plan.keys, vec![KeyCode::BTN_SOUTH.0, KeyCode::BTN_EAST.0]);
    assert_eq!(
        plan.axes,
        vec![
            AxisSetup {
                code: AbsoluteAxisCode::ABS_X.0,
                value: 0,
                minimum: -32768,
                maximum: 32767,
                fuzz: 0,
                flat: 0,
                resolution: 1,
            },
            AxisSetup {
                code: AbsoluteAxisCode::ABS_GAS.0,
                value: 17,
                minimum: 0,
                maximum: 1000,
                fuzz: 2,
                flat: 3,
                resolution: 4,
            },
        ]
    );
    assert!(!plan.force_feedback);
    assert_eq!(plan.ff_effects_max, 1);
    assert_eq!(VJ_FF_MAX_EFFECTS, 1);
}

#[test]
fn force_feedback_is_asked_for_only_where_the_configuration_switches_it_on() {
    assert!(!VirtualJoystick::new("w", &wheel_config(None), false).1.force_feedback);
    assert!(!VirtualJoystick::new("w", &wheel_config(Some(false)), false).1.force_feedback);
    let (joystick, plan) = VirtualJoystick::new("w", &wheel_config(Some(true)), false);
    assert!(plan.force_feedback);
    assert!(joystick.ff_enabled);
    assert!(wheel_config(Some(true)).is_ff_enabled());
    assert!(!wheel_config(Some(false)).is_ff_enabled());
    assert!(!wheel_config(None).is_ff_enabled());
}

#[test]
fn an_axis_takes_the_whole_part_of_the_value_and_sends_it_out() {
    let (mut joystick, _) = VirtualJoystick::new("wheel", &wheel_config(None), false);
    let event = joystick.set_control_value("steering", whole(-1234)).unwrap();
    assert_eq!(
        event,
        Some(OutputEvent { event_type: EventType::ABSOLUTE.0, code: AbsoluteAxisCode::ABS_X.0, value: -1234 })
    );
    assert_eq!(joystick.get_control_state("steering"), -1234);
    let event = joystick
        .set_control_value("throttle", ControlValue { is_zero: false, truncated: 0 })
        .unwrap();
    assert_eq!(
        event,
        Some(OutputEvent { event_type: EventType::ABSOLUTE.0, code: AbsoluteAxisCode::ABS_GAS.0, value: 0 })
    );
    assert_eq!(joystick.get_control_state("throttle"), 0);
    assert_eq!(joystick.get_control_state("steering"), -1234);
}

#[test]
fn a_button_is_down_for_any_value_but_zero() {
    let (mut joystick, _) = VirtualJoystick::new("wheel", &wheel_config(None), false);
    for (value, state) in [
        (whole(5), 1),
        (whole(0), 0),
        (whole(-3), 1),
        (ControlValue { is_zero: false, truncated: 0 }, 1),
        (whole(1), 1),
    ] {
        let event = joystick.set_control_value("horn", value).unwrap();
        assert_eq!(
            event,
            Some(OutputEvent { event_type: EventType::KEY.0, code: KeyCode::BTN_SOUTH.0, value: state })
        );
        assert_eq!(joystick.get_control_state("horn"), state);
    }
}

#[test]
fn writing_to_a_control_that_the_joystick_does_not_keep_is_an_error() {
    let (mut joystick, _) = VirtualJoystick::new("wheel", &wheel_config(None), false);
    assert_eq!(joystick.set_control_value("absent", whole(1)), Err(JoystickError::ControlNotFound));
    assert_eq!(joystick.set_control_value("scroll", whole(1)), Err(JoystickError::ControlNotFound));
    assert_eq!(joystick.set_control_value("mod", whole(1)), Err(JoystickError::ControlNotFound));
    assert_eq!(joystick.get_control_state("steering"), 0);
}

#[test]
fn numbers_of_thirty_two_bits_are_read_as_signed() {
    assert_eq!(wrap_i32(0), 0);
    assert_eq!(wrap_i32(7), 7);
    assert_eq!(wrap_i32(0x7fff_ffff), i32::MAX);
    assert_eq!(wrap_i32(0x8000_0000), i32::MIN);
    assert_eq!(wrap_i32(u32::MAX), -1);
}

#[test]
fn the_manager_makes_a_joystick_once_and_updates_its_persistence() {
    let mut manager = VirtualJoystickManager::new();
    assert!(manager.joysticks.is_empty());
    let plan = manager.create_virtual_joystick("wheel", &wheel_config(None), false);
    assert_eq!(plan.unwrap().keys.len(), 2);
    assert_eq!(manager.joysticks.len(), 1);
    assert_eq!(manager.joysticks[0].0, "wheel");
    assert!(!manager.joysticks[0].1.is_persistent);
    manager.set_control_value("wheel", "steering", whole(99)).unwrap();
    assert!(manager.create_virtual_joystick("wheel", &wheel_config(None), true).is_none());
    assert_eq!(manager.joysticks.len(), 1);
    assert!(manager.joysticks[0].1.is_persistent);
    assert_eq!(manager.get_control_state("wheel", "steering"), 99);
    assert!(manager.create_virtual_joystick("pedals", &wheel_config(None), false).is_some());
    assert_eq!(manager.joysticks.len(), 2);
    assert_eq!(manager.joysticks[1].0, "pedals");
    assert_eq!(manager.joysticks[1].1.config_key, "pedals");
}

#[test]
fn the_manager_reads_and_writes_controls_by_joystick_and_control() {
    let mut manager = VirtualJoystickManager::new();
    manager.create_virtual_joystick("wheel", &wheel_config(None), false);
    manager.create_virtual_joystick("pedals", &wheel_config(None), false);
    assert_eq!(
        manager.set_control_value("pedals", "throttle", whole(500)),
        Ok(Some(OutputEvent { event_type: 3, code: 9, value: 500 }))
    );
    assert_eq!(manager.get_control_state("pedals", "throttle"), 500);
    assert_eq!(manager.get_control_state("wheel", "throttle"), 17);
    assert_eq!(manager.set_control_value("absent", "throttle", whole(500)), Ok(None));
    assert_eq!(
        manager.set_control_value("wheel", "absent", whole(500)),
        Err(JoystickError::ControlNotFound)
    );
    assert_eq!(manager.get_control_state("absent", "throttle"), 0);
    assert_eq!(manager.get_control_state("wheel", "absent"), 0);
    assert_eq!(manager.joysticks.len(), 2);
    assert_eq!(manager.joysticks[0].0, "wheel");
}

fn keys_of(list: &[(String, VirtualJoystick)]) -> Vec<&str> {
    list.iter().map(|j| j.0.as_str()).collect()
}

fn manager_of_four() -> VirtualJoystickManager {
    let mut manager = VirtualJoystickManager::new();
    manager.create_virtual_joystick("a", &wheel_config(None), true);
    manager.create_virtual_joystick("b", &wheel_config(None), false);
    manager.create_virtual_joystick("c", &wheel_config(None), true);
    manager.create_virtual_joystick("d", &wheel_config(None), false);
    manager
}

#[test]
fn at_a_reload_only_the_persistent_joysticks_stay() {
    let mut manager = manager_of_four();
    let removed = manager.stop(false);
    assert_eq!(keys_of(&removed), vec!["b", "d"]);
    assert_eq!(keys_of(&manager.joysticks), vec!["a", "c"]);
    let removed = manager.stop(false);
    assert!(removed.is_empty());
    assert_eq!(keys_of(&manager.joysticks), vec!["a", "c"]);
}

#[test]
fn at_a_full_shutdown_every_joystick_goes() {
    let mut manager = manager_of_four();
    let removed = manager.stop(true);
    assert_eq!(keys_of(&removed), vec!["a", "b", "c", "d"]);
    assert!(manager.joysticks.is_empty());
    assert!(manager.stop(true).is_empty());
}

#[test]
fn a_joystick_is_destroyed_by_the_key_of_its_configuration() {
    let mut manager = manager_of_four();
    let removed = manager.destroy_virtual_joystick_if_exists("c");
    assert_eq!(keys_of(&removed), vec!["c"]);
    assert_eq!(keys_of(&manager.joysticks), vec!["a", "b", "d"]);
    assert!(manager.destroy_virtual_joystick_if_exists("c").is_empty());
    assert!(manager.destroy_virtual_joystick_if_exists("Virtual Wheel").is_empty());
    assert_eq!(keys_of(&manager.remove_where(Removal::ConfiguredAs("a"))), vec!["a"]);
    assert_eq!(keys_of(&manager.remove_where(Removal::Transient)), vec!["b", "d"]);
    assert!(manager.remove_where(Removal::Every).is_empty());
}

#[test]
fn an_uploaded_constant_force_is_kept_under_number_zero() {
    let mut ff = FfWorkingState::new();
    assert_eq!(ff.played_level(), 0);
    assert_eq!(ff.effect(0), None);
    assert_eq!(ff.upload(Some(-16384)), FfUploadReply { effect_id: 0, retval: 0 });
    assert_eq!(ff.effect(0), Some(FfEffect::ConstantForce { level: -16384 }));
    assert_eq!(ff.effect(1), None);
    assert_eq!(ff.played_level(), 0);
    assert_eq!(ff.upload(Some(1000)), FfUploadReply { effect_id: 0, retval: 0 });
    assert_eq!(ff.effect(0), Some(FfEffect::ConstantForce { level: 1000 }));
    assert_eq!(ff.uploaded_effects.len(), 1);
}

#[test]
fn an_effect_of_another_kind_is_turned_down() {
    let mut ff = FfWorkingState::new();
    assert_eq!(ff.upload(None), FfUploadReply { effect_id: 0, retval: -1 });
    assert!(ff.uploaded_effects.is_empty());
    ff.upload(Some(5));
    assert_eq!(ff.upload(None), FfUploadReply { effect_id: 0, retval: -1 });
    assert_eq!(ff.effect(0), Some(FfEffect::ConstantForce { level: 5 }));
}

#[test]
fn the_played_level_is_that_of_the_playing_constant_force() {
    let mut ff = FfWorkingState::new();
    ff.upload(Some(-16384));
    assert_eq!(ff.set_playback(0, 1), FfPlayback::Playing);
    assert_eq!(ff.played_effect, Some((0, 1)));
    assert_eq!(ff.played_level(), -16384);
    ff.upload(Some(32767));
    assert_eq!(ff.played_level(), 32767);
    assert_eq!(ff.set_playback(0, 0), FfPlayback::Stopped);
    assert_eq!(ff.played_effect, None);
    assert_eq!(ff.played_level(), 0);
    assert_eq!(ff.set_playback(3, 1), FfPlayback::Playing);
    assert_eq!(ff.played_level(), 0);
    assert_eq!(ff.set_playback(0, 1), FfPlayback::Playing);
    ff.erase(0);
    assert_eq!(ff.played_level(), 0);
    assert_eq!(ff.played_effect, Some((0, 1)));
}

#[test]
fn playback_goes_by_the_low_sixteen_bits_of_the_value() {
    let mut ff = FfWorkingState::new();
    ff.set_playback(0, 1);
    assert_eq!(ff.set_playback(0, 2), FfPlayback::Unhandled);
    assert_eq!(ff.played_effect, Some((0, 1)));
    assert_eq!(ff.set_playback(0, -1), FfPlayback::Unhandled);
    assert_eq!(ff.played_effect, Some((0, 1)));
    assert_eq!(ff.set_playback(0, 0x1_0000), FfPlayback::Stopped);
    assert_eq!(ff.played_effect, None);
    assert_eq!(ff.set_playback(0, 0x7fff), FfPlayback::Unhandled);
}

#[test]
fn erasing_drops_one_effect_and_leaves_the_others() {
    let mut ff = FfWorkingState {
        uploaded_effects: vec![
            (4, FfEffect::ConstantForce { level: 40 }),
            (0, FfEffect::ConstantForce { level: 10 }),
            (9, FfEffect::Empty),
        ],
        played_effect: Some((4, 1)),
    };
    assert_eq!(ff.played_level(), 40);
    ff.erase(7);
    assert_eq!(ff.uploaded_effects.len(), 3);
    ff.erase(0);
    assert_eq!(ff.effect(0), None);
    assert_eq!(ff.effect(4), Some(FfEffect::ConstantForce { level: 40 }));
    assert_eq!(ff.effect(9), Some(FfEffect::Empty));
    ff.set_playback(9, 1);
    assert_eq!(ff.played_level(), 0);
    ff.upload(Some(-3));
    assert_eq!(ff.effect(0), Some(FfEffect::ConstantForce { level: -3 }));
    assert_eq!(ff.effect(4), Some(FfEffect::ConstantForce { level: 40 }));
}

#[test]
fn the_force_is_summarised_over_half_the_span_of_levels() {
    assert_eq!(ff_level_span(), 65535);
    let mut ff = FfWorkingState::new();
    ff.upload(Some(-16384));
    ff.set_playback(0, 1);
    let summary = ff.played_level() as f32 / (ff_level_span() as f32 / 2.0);
    assert!((summary + 0.5).abs() < 0.0001);
    // With scale 1, influence 0.7, a free wheel and a tick of 10 ms the
    // wheel is pushed by 0.0035 of its half-travel.
    let offset = summary * 1.0 * (1.0 - 0.0) * 0.7 * 0.01;
    assert!((offset + 0.0035).abs() < 0.00001);
}

#[test]
fn a_joystick_without_force_feedback_reports_no_force() {
    let mut ff = FfWorkingState::new();
    ff.upload(Some(20000));
    ff.set_playback(0, 1);
    let (plain, _) = VirtualJoystick::new("w", &wheel_config(None), false);
    let (off, _) = VirtualJoystick::new("w", &wheel_config(Some(false)), false);
    let (on, _) = VirtualJoystick::new("w", &wheel_config(Some(true)), false);
    assert_eq!(plain.get_ff_played_level(&ff), 0);
    assert_eq!(off.get_ff_played_level(&ff), 0);
    assert_eq!(on.get_ff_played_level(&ff), 20000);
}

#[test]
fn a_reader_waits_longer_each_time_it_finds_nothing() {
    let mut sleep = 0;
    let mut seen = Vec::new();
    for _ in 0..12 {
        sleep = next_sleep_millis(sleep, false, 10);
        seen.push(sleep);
    }
    assert_eq!(seen, vec![1, 2, 3, 4, 5, 6, 7, 8, 9, 10, 10, 10]);
    assert_eq!(next_sleep_millis(10, true, 10), 0);
    assert_eq!(next_sleep_millis(0, true, 10), 0);
    assert_eq!(next_sleep_millis(4, false, 5), 5);
    assert_eq!(next_sleep_millis(5, false, 5), 5);
    assert_eq!(next_sleep_millis(7, false, 5), 7);
}
