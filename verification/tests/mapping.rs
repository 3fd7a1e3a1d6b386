use mmvj::config::{
    ControlReference, IdleTickRequirementInfo, ResolvedMapping, ResolvedMappingDestination,
    ResolvedMappingSource,
};
use mmvj::control_type::ControlType;
use mmvj::interval::NumInterval;
use mmvj::mapping::{
    build_router, clamp_range, clamp_to_source, destination_range, has_open_source,
    has_time_driven_step, is_active, is_time_driven, listens_to, mapping_to_string,
    mappings_for_idle_tick, mappings_for_source, plan_transformation, plan_transformation_step,
    pedal_action, range_after_clamp, requires_idle_tick, slot_of, source_range, steering_plan,
    steering_reads_force, usable_joysticks, wanted_device_keys, EngineError, MappingEngine, PedalAction,
    PedalConditions, StepAction, SteeringConditions, SteeringPlan, MAX_UPDATE_RATE, MIN_UPDATE_RATE,
};
use mmvj::midi::{extract_midi_value, parse_midi_message};
use mmvj::mouse::MouseEvent;
use mmvj::schemas::{
    ClampTransform, CubicTransform, EmaFilterTransform, ExponentialTransform, F32Bits,
    ForceFeedbackTransform, HighPassTransform, IntegrateTransform, InvertTransform, LinearTransform,
    LowPassTransform, MidiChannel, MidiControl, MidiMessage, MidiMessageType, MidiNumber,
    JoystickProperties, PowerTransform, QuadraticTransform, ResolvedJoystickControl,
    ResolvedMouseControl, ResolvedVirtualJoystick,
    ResolvedPedalSmootherTransform, ResolvedSteeringTransform, ResolvedTransformationStep,
    SCurveTransform, SmoothstepTransform, SymmetricPowerTransform,
};

fn bits_of(v: f32) -> F32Bits {
    F32Bits { bits: v.to_bits() }
}

fn linear(on_idle: Option<bool>) -> ResolvedTransformationStep {
    ResolvedTransformationStep::Linear {
        linear: LinearTransform { slope: None, shift_x: None, shift_y: None, on_idle },
    }
}

fn steering_with(force_feedback: Option<ForceFeedbackTransform>) -> ResolvedSteeringTransform {
    ResolvedSteeringTransform {
        counts_to_lock: bits_of(60.0),
        deadzone_counts: bits_of(0.0),
        smoothing_alpha: bits_of(1.0),
        auto_center_halflife: bits_of(0.0),
        hold_factor: None,
        force_feedback,
        user_input_power_curve: None,
        user_input_ema_filter_runtime_state_id: 1,
        user_input_ema_filter_average: None,
    }
}

fn steering() -> ResolvedTransformationStep {
    ResolvedTransformationStep::Steering { runtime_state_id: 0, steering: steering_with(None) }
}

fn pedal_smoother() -> ResolvedTransformationStep {
    ResolvedTransformationStep::PedalSmoother {
        runtime_state_id: 2,
        pedal_smoother: ResolvedPedalSmootherTransform {
            rise_rate: bits_of(5000.0),
            fall_rate: bits_of(2000.0),
            smoothing_alpha: bits_of(1.0),
            fall_delay: Some(bits_of(0.3)),
            fall_gentling_factor: None,
        },
    }
}

fn cc(number: u8) -> ControlReference {
    ControlReference::Midi(MidiControl {
        merge_from: None,
        midi_message: Some(MidiMessage {
            msg_type: MidiMessageType::ControlChange,
            channel: MidiChannel::Any,
            number: Some(MidiNumber::Single(number)),
        }),
        range: Some(NumInterval::new(0, 127)),
        description: None,
    })
}

fn mouse_axis(control_type: ControlType) -> ControlReference {
    ControlReference::Mouse(ResolvedMouseControl {
        control_type,
        range: NumInterval::new(-500, 500),
        description: None,
    })
}

fn mapping(
    source_device: &str,
    control: ControlReference,
    joystick: &str,
    destination_control: &str,
    steps: Vec<ResolvedTransformationStep>,
) -> ResolvedMapping {
    ResolvedMapping {
        name: None,
        enabled: true,
        source: ResolvedMappingSource {
            device_key: source_device.to_string(),
            control_key: "source".to_string(),
            control,
        },
        destination: ResolvedMappingDestination {
            device_key: joystick.to_string(),
            control_key: destination_control.to_string(),
            control: ResolvedJoystickControl {
                control_type: ControlType::AbsX,
                range: NumInterval::new(-32768, 32767),
                properties: None,
                initial_value: 0,
            },
        },
        transformation: steps,
        idle_tick_requirement_info: IdleTickRequirementInfo::new(),
    }
}

fn strings(items: &[&str]) -> Vec<String> {
    items.iter().map(|s| s.to_string()).collect()
}

fn pairs(items: &[(&str, &str)]) -> Vec<(String, String)> {
    items.iter().map(|(a, b)| (a.to_string(), b.to_string())).collect()
}

fn sample_mappings() -> Vec<ResolvedMapping> {
    vec![
        mapping("keys", cc(1), "wheel", "steering", vec![steering()]),
        mapping("keys", cc(7), "wheel", "throttle", vec![linear(None)]),
        mapping("mouse", mouse_axis(ControlType::RelX), "wheel", "steering", vec![linear(None)]),
        mapping("pads", cc(1), "wheel", "brake", vec![pedal_smoother()]),
        mapping("keys", cc(2), "absent", "x", vec![steering()]),
        ResolvedMapping { enabled: false, ..mapping("keys", cc(1), "wheel", "clutch", vec![steering()]) },
        mapping("mouse", mouse_axis(ControlType::RelY), "wheel", "brake", vec![linear(None), pedal_smoother()]),
    ]
}

fn started_engine() -> MappingEngine {
    let mut engine = MappingEngine::new(sample_mappings(), 1000);
    engine.initialize(
        &strings(&["wheel"]),
        &pairs(&[("Arturia A", "keys"), ("mouse", "mouse"), ("Arturia B", "keys")]),
    );
    engine
}

#[test]
fn only_steering_and_the_pedal_smoother_move_with_time() {
    assert!(is_time_driven(&steering()));
    assert!(is_time_driven(&pedal_smoother()));
    assert!(!is_time_driven(&linear(None)));
    assert!(!is_time_driven(&ResolvedTransformationStep::Integrate {
        runtime_state_id: 5,
        integrate: IntegrateTransform { range: None, deadzone_norm: None, smoothing_alpha: None },
    }));
    assert!(!is_time_driven(&ResolvedTransformationStep::EmaFilter {
        runtime_state_id: 5,
        ema_filter: EmaFilterTransform { on_idle: None, tau: bits_of(0.1) },
    }));
    assert!(!is_time_driven(&ResolvedTransformationStep::LowPass {
        runtime_state_id: 5,
        lowpass: LowPassTransform { time_constant: None, on_idle: None },
    }));
    assert!(has_time_driven_step(&vec![linear(None), steering()]));
    assert!(!has_time_driven_step(&vec![linear(None), linear(Some(false))]));
    assert!(!has_time_driven_step(&Vec::new()));
}

#[test]
fn a_mapping_is_run_on_idle_ticks_when_it_has_a_step_that_moves_with_time() {
    let all = sample_mappings();
    let expected = [true, false, false, true, true, true, true];
    for (m, e) in all.iter().zip(expected) {
        assert_eq!(requires_idle_tick(m), e);
    }
    let mut recorded = mapping("keys", cc(1), "wheel", "steering", vec![linear(None)]);
    recorded.idle_tick_requirement_info.is_required = Some(true);
    assert!(requires_idle_tick(&recorded));
    assert!(IdleTickRequirementInfo::new().is_required.is_none());
}

#[test]
fn a_mapping_takes_part_when_enabled_and_its_joystick_was_created() {
    let all = sample_mappings();
    let opened = strings(&["other", "wheel"]);
    let expected = [true, true, true, true, false, false, true];
    for (m, e) in all.iter().zip(expected) {
        assert_eq!(is_active(m, &opened), e);
    }
    assert!(!is_active(&all[0], &Vec::new()));
}

#[test]
fn a_mapping_listens_to_the_runtime_names_of_its_source_device() {
    let all = sample_mappings();
    let names = pairs(&[("Arturia A", "keys"), ("mouse", "mouse"), ("Arturia B", "keys")]);
    assert!(listens_to(&all[0], &names, "Arturia A"));
    assert!(listens_to(&all[0], &names, "Arturia B"));
    assert!(!listens_to(&all[0], &names, "mouse"));
    assert!(!listens_to(&all[0], &names, "keys"));
    assert!(listens_to(&all[2], &names, "mouse"));
    assert!(!listens_to(&all[3], &names, "Arturia A"));
    assert!(has_open_source(&all[0], &names));
    assert!(has_open_source(&all[2], &names));
    assert!(!has_open_source(&all[3], &names));
    assert!(!has_open_source(&all[0], &Vec::new()));
}

#[test]
fn the_router_lists_for_each_source_its_mappings_in_configured_order() {
    let all = sample_mappings();
    let opened = strings(&["wheel"]);
    let names = pairs(&[("Arturia A", "keys"), ("mouse", "mouse"), ("Arturia B", "keys")]);
    assert_eq!(mappings_for_source(&all, &opened, &names, "Arturia A"), vec![0, 1]);
    assert_eq!(mappings_for_source(&all, &opened, &names, "Arturia B"), vec![0, 1]);
    assert_eq!(mappings_for_source(&all, &opened, &names, "mouse"), vec![2, 6]);
    assert!(mappings_for_source(&all, &opened, &names, "pads").is_empty());
    let router = build_router(&all, &opened, &names);
    assert_eq!(
        router,
        vec![
            ("Arturia A".to_string(), vec![0, 1]),
            ("mouse".to_string(), vec![2, 6]),
            ("Arturia B".to_string(), vec![0, 1]),
        ]
    );
    let doubled = pairs(&[("mouse", "mouse"), ("mouse", "mouse"), ("pads", "pads")]);
    assert_eq!(
        build_router(&all, &opened, &doubled),
        vec![("mouse".to_string(), vec![2, 6]), ("pads".to_string(), vec![3])]
    );
    assert!(build_router(&all, &Vec::new(), &names).is_empty());
    assert!(build_router(&all, &opened, &Vec::new()).is_empty());
}

#[test]
fn a_mapping_with_only_a_linear_step_never_appears_in_the_idle_tick_batch() {
    let all = sample_mappings();
    let opened = strings(&["wheel"]);
    let names = pairs(&[("Arturia A", "keys"), ("mouse", "mouse"), ("Arturia B", "keys"), ("PadKontrol", "pads")]);
    assert_eq!(mappings_for_idle_tick(&all, &opened, &names), vec![0, 3, 6]);
    let mut engine = MappingEngine::new(all, 1000);
    engine.initialize(&opened, &names);
    assert_eq!(engine.idle_tick_mappings, vec![0, 3, 6]);
    assert!(engine.process_idle_tick().is_empty());
    for i in 0..7 {
        if engine.mappings[i].enabled && engine.mappings[i].destination.device_key == "wheel" {
            engine.set_idle_tick_enabled_on_device_control_for_mapping(i);
        }
        assert!(!engine.process_idle_tick().contains(&1));
        assert!(!engine.process_idle_tick().contains(&2));
    }
    assert_eq!(engine.process_idle_tick(), vec![0, 3, 6]);
}

#[test]
fn a_mapping_with_a_pedal_smoother_is_ticked_once_it_has_run_on_an_input() {
    let mut engine = MappingEngine::new(sample_mappings(), 1000);
    engine.initialize(
        &strings(&["wheel"]),
        &pairs(&[("mouse", "mouse"), ("PadKontrol", "pads")]),
    );
    assert_eq!(engine.idle_tick_mappings, vec![3, 6]);
    assert!(engine.process_idle_tick().is_empty());
    assert!(engine.set_idle_tick_enabled_on_device_control_for_mapping(3));
    // Both mappings write to the brake, so both are due now.
    assert_eq!(engine.process_idle_tick(), vec![3, 6]);
    assert!(!engine.set_idle_tick_enabled_on_device_control_for_mapping(3));
    assert!(!engine.set_idle_tick_enabled_on_device_control_for_mapping(6));
    assert_eq!(engine.process_idle_tick(), vec![3, 6]);
}

#[test]
fn idle_ticks_once_switched_on_stay_on() {
    let mut engine = started_engine();
    assert_eq!(engine.idle_tick_mappings, vec![0, 6]);
    assert!(engine.process_idle_tick().is_empty());
    // The stateless mapping 2 writes to the same control as the steering mapping 0.
    assert!(!engine.set_idle_tick_enabled_on_device_control_for_mapping(2));
    assert!(engine.process_idle_tick().is_empty());
    assert!(engine.set_idle_tick_enabled_on_device_control_for_mapping(0));
    assert_eq!(engine.process_idle_tick(), vec![0]);
    assert!(!engine.set_idle_tick_enabled_on_device_control_for_mapping(2));
    assert_eq!(engine.process_idle_tick(), vec![0]);
    assert!(!engine.set_idle_tick_enabled_on_device_control_for_mapping(1));
    assert_eq!(engine.process_idle_tick(), vec![0]);
    assert!(engine.set_idle_tick_enabled_on_device_control_for_mapping(6));
    assert_eq!(engine.process_idle_tick(), vec![0, 6]);
}

#[test]
fn mappings_that_write_to_one_control_share_their_switch() {
    let all = sample_mappings();
    assert_eq!(slot_of(&all, 0), 0);
    assert_eq!(slot_of(&all, 1), 1);
    assert_eq!(slot_of(&all, 2), 0);
    assert_eq!(slot_of(&all, 3), 3);
    assert_eq!(slot_of(&all, 6), 3);
    let engine = MappingEngine::new(all, 1000);
    assert_eq!(engine.idle_tick_slots, vec![0, 1, 0, 3, 4, 5, 3]);
    assert_eq!(engine.idle_tick_enabled, vec![false; 7]);
    assert!(engine.router.is_empty());
    assert!(!engine.running);
}

#[test]
fn a_midi_message_goes_to_the_mappings_that_listen_for_it() {
    let engine = started_engine();
    let cc1 = parse_midi_message(&[0xB0, 1, 64], "Arturia A").unwrap();
    assert_eq!(engine.process_midi_message(&cc1), vec![0]);
    let cc7 = parse_midi_message(&[0xB5, 7, 64], "Arturia B").unwrap();
    assert_eq!(engine.process_midi_message(&cc7), vec![1]);
    let cc9 = parse_midi_message(&[0xB0, 9, 64], "Arturia A").unwrap();
    assert!(engine.process_midi_message(&cc9).is_empty());
    let note = parse_midi_message(&[0x90, 1, 64], "Arturia A").unwrap();
    assert!(engine.process_midi_message(&note).is_empty());
    let elsewhere = parse_midi_message(&[0xB0, 1, 64], "Unknown").unwrap();
    assert!(engine.process_midi_message(&elsewhere).is_empty());
    let from_mouse_name = parse_midi_message(&[0xB0, 1, 64], "mouse").unwrap();
    assert!(engine.process_midi_message(&from_mouse_name).is_empty());
}

#[test]
fn a_mouse_event_goes_to_the_mappings_of_its_control_type() {
    let engine = started_engine();
    let x = MouseEvent { device_key: "mouse".to_string(), control_type: ControlType::RelX, value: 10 };
    assert_eq!(engine.process_mouse_event(&x), vec![2]);
    let y = MouseEvent { device_key: "mouse".to_string(), control_type: ControlType::RelY, value: 10 };
    assert_eq!(engine.process_mouse_event(&y), vec![6]);
    let wheel = MouseEvent { device_key: "mouse".to_string(), control_type: ControlType::RelWheel, value: 1 };
    assert!(engine.process_mouse_event(&wheel).is_empty());
    let other = MouseEvent { device_key: "trackball".to_string(), control_type: ControlType::RelX, value: 1 };
    assert!(engine.process_mouse_event(&other).is_empty());
    let on_keys = MouseEvent { device_key: "Arturia A".to_string(), control_type: ControlType::RelX, value: 1 };
    assert!(engine.process_mouse_event(&on_keys).is_empty());
}

#[test]
fn the_rate_of_idle_ticks_is_kept_within_its_band() {
    let mut engine = MappingEngine::new(Vec::new(), 3);
    assert_eq!(engine.update_rate, 3);
    for (asked, set) in [(0, 10), (9, 10), (10, 10), (11, 11), (1000, 1000), (10000, 10000), (10001, 10000), (u32::MAX, 10000)] {
        engine.set_update_rate(asked);
        assert_eq!(engine.update_rate, set);
    }
    assert_eq!(MIN_UPDATE_RATE, 10);
    assert_eq!(MAX_UPDATE_RATE, 10000);
}

#[test]
fn starting_and_stopping_only_change_the_running_flag() {
    let mut engine = started_engine();
    assert!(!engine.running);
    engine.run();
    assert!(engine.running);
    assert_eq!(engine.active_mapping_count(), 6);
    engine.stop();
    assert!(!engine.running);
    assert_eq!(engine.active_mapping_count(), 6);
    assert_eq!(MappingEngine::new(sample_mappings(), 10).active_mapping_count(), 0);
}

#[test]
fn on_an_input_every_step_computes() {
    let steps = vec![
        linear(Some(false)),
        steering(),
        ResolvedTransformationStep::Integrate {
            runtime_state_id: 9,
            integrate: IntegrateTransform { range: None, deadzone_norm: None, smoothing_alpha: None },
        },
        ResolvedTransformationStep::EmaFilter {
            runtime_state_id: 10,
            ema_filter: EmaFilterTransform { on_idle: Some(false), tau: bits_of(0.1) },
        },
    ];
    let m = mapping("keys", cc(1), "wheel", "steering", steps);
    assert_eq!(plan_transformation(&m, false), vec![StepAction::Apply; 4]);
    assert_eq!(
        plan_transformation(&m, true),
        vec![StepAction::Skip, StepAction::Apply, StepAction::Skip, StepAction::AdvanceOnly]
    );
    assert!(plan_transformation(&mapping("keys", cc(1), "w", "s", Vec::new()), true).is_empty());
}

#[test]
fn on_an_idle_tick_each_kind_of_step_is_run_passed_over_or_only_advanced() {
    let idle = |step: &ResolvedTransformationStep| plan_transformation_step(step, true);
    assert_eq!(idle(&ResolvedTransformationStep::Invert { invert: InvertTransform { is_relative: false } }), StepAction::Apply);
    assert_eq!(
        idle(&ResolvedTransformationStep::Clamp { clamp: ClampTransform { from: None, to: None, override_range: true } }),
        StepAction::Apply
    );
    assert_eq!(idle(&steering()), StepAction::Apply);
    assert_eq!(idle(&pedal_smoother()), StepAction::Apply);
    assert_eq!(
        idle(&ResolvedTransformationStep::Integrate {
            runtime_state_id: 0,
            integrate: IntegrateTransform { range: None, deadzone_norm: None, smoothing_alpha: None },
        }),
        StepAction::Skip
    );
    for (on_idle, filter, curve) in [
        (None, StepAction::Apply, StepAction::Apply),
        (Some(true), StepAction::Apply, StepAction::Apply),
        (Some(false), StepAction::AdvanceOnly, StepAction::Skip),
    ] {
        assert_eq!(
            idle(&ResolvedTransformationStep::EmaFilter {
                runtime_state_id: 0,
                ema_filter: EmaFilterTransform { on_idle, tau: bits_of(0.2) },
            }),
            filter
        );
        assert_eq!(
            idle(&ResolvedTransformationStep::LowPass {
                runtime_state_id: 0,
                lowpass: LowPassTransform { time_constant: None, on_idle },
            }),
            filter
        );
        assert_eq!(
            idle(&ResolvedTransformationStep::HighPass {
                runtime_state_id: 0,
                highpass: HighPassTransform { cutoff: bits_of(1.0), on_idle },
            }),
            filter
        );
        assert_eq!(idle(&linear(on_idle)), curve);
        assert_eq!(
            idle(&ResolvedTransformationStep::Quadratic { quadratic_curve: QuadraticTransform { on_idle } }),
            curve
        );
        assert_eq!(idle(&ResolvedTransformationStep::Cubic { cubic_curve: CubicTransform { on_idle } }), curve);
        assert_eq!(
            idle(&ResolvedTransformationStep::Smoothstep { smoothstep_curve: SmoothstepTransform { on_idle } }),
            curve
        );
        assert_eq!(
            idle(&ResolvedTransformationStep::SCurve { s_curve: SCurveTransform { steepness: None, on_idle } }),
            curve
        );
        assert_eq!(
            idle(&ResolvedTransformationStep::Exponential { exp_curve: ExponentialTransform { base: None, on_idle } }),
            curve
        );
        assert_eq!(
            idle(&ResolvedTransformationStep::Power { power_curve: PowerTransform { power: None, on_idle } }),
            curve
        );
        assert_eq!(
            idle(&ResolvedTransformationStep::SymmetricPower {
                symmetric_power_curve: SymmetricPowerTransform { power: None, on_idle },
            }),
            curve
        );
    }
}

#[test]
fn the_source_range_defaults_to_the_seven_bits_of_midi() {
    let mut unspecified = mapping("keys", cc(1), "wheel", "steering", Vec::new());
    if let ControlReference::Midi(control) = &mut unspecified.source.control {
        control.range = None;
    }
    let r = source_range(&unspecified);
    assert_eq!((r.from, r.to), (0, 127));
    let given = mapping("keys", cc(1), "wheel", "steering", Vec::new());
    assert_eq!((source_range(&given).from, source_range(&given).to), (0, 127));
    let mouse = mapping("mouse", mouse_axis(ControlType::RelX), "wheel", "steering", Vec::new());
    assert_eq!((source_range(&mouse).from, source_range(&mouse).to), (-500, 500));
    let d = destination_range(&mouse);
    assert_eq!((d.from, d.to), (-32768, 32767));
}

#[test]
fn a_raw_value_out_of_the_source_range_is_clamped_on_entry() {
    let m = mapping("keys", cc(1), "wheel", "steering", Vec::new());
    assert_eq!(clamp_to_source(&m, 64), (64, false));
    assert_eq!(clamp_to_source(&m, 0), (0, false));
    assert_eq!(clamp_to_source(&m, 127), (127, false));
    assert_eq!(clamp_to_source(&m, 128), (127, true));
    assert_eq!(clamp_to_source(&m, 200), (127, true));
    assert_eq!(clamp_to_source(&m, -1), (0, true));
    assert_eq!(clamp_to_source(&m, i32::MIN), (0, true));
}

#[test]
fn a_clamp_that_overrides_the_range_hands_on_its_own() {
    let clamp = ClampTransform { from: Some(50), to: Some(100), override_range: true };
    let prior = NumInterval::new(0, 127);
    let onto = clamp_range(&clamp, &prior);
    assert_eq!((onto.from, onto.to), (50, 100));
    assert_eq!(onto.clamp(200), 100);
    let after = range_after_clamp(&clamp, &prior);
    assert_eq!((after.from, after.to), (50, 100));
    let keeping = ClampTransform { override_range: false, ..clamp };
    let kept = range_after_clamp(&keeping, &prior);
    assert_eq!((kept.from, kept.to), (0, 127));
    assert_eq!(clamp_range(&keeping, &prior).clamp(200), 100);
}

#[test]
fn a_clamp_without_an_end_takes_the_end_of_the_range_that_arrives() {
    let prior = NumInterval::new(-10, 90);
    let open = clamp_range(&ClampTransform { from: None, to: None, override_range: true }, &prior);
    assert_eq!((open.from, open.to), (-10, 90));
    let upper = clamp_range(&ClampTransform { from: None, to: Some(20), override_range: true }, &prior);
    assert_eq!((upper.from, upper.to), (-10, 20));
    let lower = clamp_range(&ClampTransform { from: Some(30), to: None, override_range: true }, &prior);
    assert_eq!((lower.from, lower.to), (30, 90));
    let swapped = clamp_range(&ClampTransform { from: Some(100), to: Some(50), override_range: true }, &prior);
    assert_eq!((swapped.from, swapped.to), (50, 100));
    let crossing = clamp_range(&ClampTransform { from: Some(95), to: None, override_range: true }, &prior);
    assert_eq!((crossing.from, crossing.to), (90, 95));
}

#[test]
fn a_mapping_is_spoken_of_by_its_name_or_by_its_ends() {
    let unnamed = mapping("keys", cc(1), "wheel", "steering", Vec::new());
    assert_eq!(mapping_to_string(&unnamed), "keys.source -> wheel.steering");
    let named = ResolvedMapping { name: Some("mod wheel steers".to_string()), ..unnamed };
    assert_eq!(mapping_to_string(&named), "mod wheel steers");
}

#[test]
fn steering_reads_the_force_only_where_force_feedback_is_switched_on() {
    let ff = |enabled: bool| ForceFeedbackTransform {
        enabled,
        constant_force_influence: bits_of(0.7),
        constant_force_scale: bits_of(1.0),
        constant_force_invert: false,
        hold_factor: None,
    };
    assert!(!steering_reads_force(&steering_with(None)));
    assert!(!steering_reads_force(&steering_with(Some(ff(false)))));
    assert!(steering_reads_force(&steering_with(Some(ff(true)))));
}

fn ff(enabled: bool) -> ForceFeedbackTransform {
    ForceFeedbackTransform {
        enabled,
        constant_force_influence: bits_of(0.7),
        constant_force_scale: bits_of(1.0),
        constant_force_invert: false,
        hold_factor: None,
    }
}

fn conditions(bits: u8) -> SteeringConditions {
    SteeringConditions {
        has_input: bits & 1 != 0,
        force_is_felt: bits & 2 != 0,
        force_is_still: bits & 4 != 0,
        has_halflife: bits & 8 != 0,
        time_has_passed: bits & 16 != 0,
    }
}

#[test]
fn without_force_feedback_steering_depends_on_input_and_centring_alone() {
    for step in [steering_with(None), steering_with(Some(ff(false)))] {
        for bits in 0..32u8 {
            let c = conditions(bits);
            let plan = steering_plan(&step, c);
            assert!(!plan.push_by_force);
            assert_eq!(plan.auto_center, c.has_halflife && c.time_has_passed && !c.has_input);
            let other = steering_plan(
                &step,
                SteeringConditions { force_is_felt: !c.force_is_felt, force_is_still: !c.force_is_still, ..c },
            );
            assert_eq!(plan, other);
        }
    }
}

#[test]
fn with_force_feedback_the_wheel_is_pushed_by_a_felt_force_and_centres_under_a_still_one() {
    let step = steering_with(Some(ff(true)));
    for bits in 0..32u8 {
        let c = conditions(bits);
        let plan = steering_plan(&step, c);
        assert_eq!(plan.push_by_force, c.force_is_felt);
        assert_eq!(
            plan.auto_center,
            c.has_halflife && c.time_has_passed && !c.has_input && c.force_is_still
        );
        assert!(!plan.apply_power_curve);
        assert!(!plan.apply_input_filter);
    }
    let pushed = steering_plan(
        &step,
        SteeringConditions {
            has_input: false,
            force_is_felt: true,
            force_is_still: false,
            has_halflife: true,
            time_has_passed: true,
        },
    );
    assert_eq!(
        pushed,
        SteeringPlan { apply_power_curve: false, apply_input_filter: false, push_by_force: true, auto_center: false }
    );
}

#[test]
fn curve_and_filter_shape_the_position_only_on_an_input_that_moves_the_wheel() {
    let mut step = steering_with(None);
    step.user_input_power_curve = Some(SymmetricPowerTransform { power: Some(bits_of(2.0)), on_idle: None });
    step.user_input_ema_filter_average = Some(EmaFilterTransform { on_idle: None, tau: bits_of(0.05) });
    for bits in 0..32u8 {
        let c = conditions(bits);
        let plan = steering_plan(&step, c);
        assert_eq!(plan.apply_power_curve, c.has_input);
        assert_eq!(plan.apply_input_filter, c.has_input);
        if c.has_input {
            assert!(!plan.auto_center);
        }
    }
    step.user_input_power_curve = None;
    assert!(!steering_plan(&step, conditions(1)).apply_power_curve);
    assert!(steering_plan(&step, conditions(1)).apply_input_filter);
}

fn pedal_with(fall_delay: Option<f32>) -> ResolvedPedalSmootherTransform {
    ResolvedPedalSmootherTransform {
        rise_rate: bits_of(5000.0),
        fall_rate: bits_of(2000.0),
        smoothing_alpha: bits_of(1.0),
        fall_delay: fall_delay.map(bits_of),
        fall_gentling_factor: None,
    }
}

#[test]
fn the_pedal_rises_at_once_and_falls_after_its_delay() {
    let delayed = pedal_with(Some(0.3));
    let at_once = pedal_with(None);
    let c = |is_idle_tick, time_has_passed, is_rising, delay_has_passed| PedalConditions {
        is_idle_tick,
        time_has_passed,
        is_rising,
        delay_has_passed,
    };
    for pedal in [&delayed, &at_once] {
        for bits in 0..8u8 {
            let any = c(false, bits & 1 != 0, bits & 2 != 0, bits & 4 != 0);
            assert_eq!(pedal_action(pedal, any), PedalAction::TakeTarget);
            let still = c(true, false, bits & 2 != 0, bits & 4 != 0);
            assert_eq!(pedal_action(pedal, still), PedalAction::Hold);
        }
        assert_eq!(pedal_action(pedal, c(true, true, true, false)), PedalAction::Rise);
        assert_eq!(pedal_action(pedal, c(true, true, true, true)), PedalAction::Rise);
        assert_eq!(pedal_action(pedal, c(true, true, false, true)), PedalAction::Fall);
    }
    assert_eq!(pedal_action(&delayed, c(true, true, false, false)), PedalAction::Wait);
    assert_eq!(pedal_action(&at_once, c(true, true, false, false)), PedalAction::Fall);
}

#[test]
fn after_a_drop_the_output_waits_out_the_delay_on_every_tick() {
    // An input of 0 arrives at t = 1 s; ticks come every 10 ms; the delay is 0.3 s.
    let pedal = pedal_with(Some(0.3));
    let mut waits = 0;
    let mut falls = 0;
    for tick in 1..=60 {
        let since_input = tick as f32 * 0.01;
        let action = pedal_action(
            &pedal,
            PedalConditions {
                is_idle_tick: true,
                time_has_passed: true,
                is_rising: false,
                delay_has_passed: 0.3 < since_input,
            },
        );
        match action {
            PedalAction::Wait => {
                assert_eq!(falls, 0);
                waits += 1;
            }
            PedalAction::Fall => falls += 1,
            other => panic!("{:?}", other),
        }
    }
    assert!(waits >= 29);
    assert_eq!(waits + falls, 60);
}

fn joystick(enabled: bool) -> ResolvedVirtualJoystick {
    ResolvedVirtualJoystick {
        enabled,
        persistent: false,
        name: "j".to_string(),
        properties: JoystickProperties { vendor_id: 1, product_id: 2, version: 3 },
        controls: Vec::new(),
        force_feedback: None,
    }
}

#[test]
fn the_devices_that_enabled_mappings_name_are_listed_once_each() {
    let all = sample_mappings();
    assert_eq!(wanted_device_keys(&all, true), strings(&["keys", "mouse", "pads"]));
    assert_eq!(wanted_device_keys(&all, false), strings(&["wheel", "absent"]));
    assert!(wanted_device_keys(&Vec::new(), true).is_empty());
    let only_disabled = vec![ResolvedMapping { enabled: false, ..mapping("keys", cc(1), "wheel", "s", Vec::new()) }];
    assert!(wanted_device_keys(&only_disabled, true).is_empty());
    assert!(wanted_device_keys(&only_disabled, false).is_empty());
}

#[test]
fn joysticks_are_used_when_resolved_and_enabled() {
    let all = sample_mappings();
    let both = vec![("absent".to_string(), joystick(false)), ("wheel".to_string(), joystick(true))];
    assert_eq!(usable_joysticks(&all, &both), Ok(strings(&["wheel"])));
    let enabled = vec![("absent".to_string(), joystick(true)), ("wheel".to_string(), joystick(true))];
    assert_eq!(usable_joysticks(&all, &enabled), Ok(strings(&["wheel", "absent"])));
    let missing = vec![("wheel".to_string(), joystick(true))];
    assert_eq!(usable_joysticks(&all, &missing), Err(EngineError::JoystickNotResolved));
    assert_eq!(usable_joysticks(&Vec::new(), &missing), Ok(Vec::new()));
    let extra = vec![
        ("spare".to_string(), joystick(true)),
        ("wheel".to_string(), joystick(false)),
        ("absent".to_string(), joystick(false)),
    ];
    assert_eq!(usable_joysticks(&all, &extra), Ok(Vec::new()));
}

#[test]
fn the_mod_wheel_reaches_the_steering_step_with_its_value() {
    let mappings = vec![mapping("keys", cc(1), "wheel", "steering", vec![steering()])];
    let mut engine = MappingEngine::new(mappings, 1000);
    engine.initialize(&strings(&["wheel"]), &pairs(&[("Arturia KeyLab", "keys")]));
    let mut inputs = Vec::new();
    for (channel, value) in [(0u8, 64u8), (9, 64), (15, 0)] {
        let msg = parse_midi_message(&[0xB0 | channel, 1, value], "Arturia KeyLab").unwrap();
        let taken = engine.process_midi_message(&msg);
        assert_eq!(taken, vec![0]);
        let (entered, clamped) = clamp_to_source(&engine.mappings[0], extract_midi_value(&msg));
        assert!(!clamped);
        inputs.push(entered);
        assert_eq!(plan_transformation(&engine.mappings[0], false), vec![StepAction::Apply]);
        engine.set_idle_tick_enabled_on_device_control_for_mapping(0);
    }
    assert_eq!(inputs, vec![64, 64, 0]);
    // Each input of 64 asks for 64/30 of the half-travel with 60 counts to lock.
    let delta = inputs[0] as f32 / (60.0_f32 / 2.0);
    assert!((delta - 64.0 / 30.0).abs() < 1e-6);
    // With a half-life of zero and no force feedback nothing moves the wheel afterwards.
    if let ResolvedTransformationStep::Steering { steering, .. } = &engine.mappings[0].transformation[0] {
        let plan = steering_plan(
            steering,
            SteeringConditions {
                has_input: false,
                force_is_felt: false,
                force_is_still: true,
                has_halflife: false,
                time_has_passed: true,
            },
        );
        assert!(!plan.auto_center);
        assert!(!plan.push_by_force);
    } else {
        panic!("the mapping has a steering step");
    }
    assert_eq!(engine.process_idle_tick(), vec![0]);
}
