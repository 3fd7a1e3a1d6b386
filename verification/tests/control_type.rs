use std::collections::HashSet;

use evdev::{AbsoluteAxisCode, EventType, InputEvent, KeyCode, RelativeAxisCode};
use heck::ToShoutySnakeCase;
use mmvj::control_type::{ControlKind, ControlType, ParseControlTypeError, CONTROL_TYPE_COUNT};

fn control_of(event: InputEvent) -> ControlType {
    ControlType::from_evdev(event.event_type().0, event.code())
}

#[test]
fn test_absolute_iterator() {
    let abs_controls: Vec<ControlType> = ControlType::iter_absolute().collect();

    // Check we got all absolute controls
    assert!(!abs_controls.is_empty());

    // Verify all are absolute
    for control in &abs_controls {
        assert!(control.is_absolute(), "{:?} should be absolute", control);
        assert!(
            !control.is_relative(),
            "{:?} should not be relative",
            control
        );
        assert!(!control.is_button(), "{:?} should not be button", control);
    }

    // Check specific controls are present
    assert!(abs_controls.contains(&ControlType::AbsX));
    assert!(abs_controls.contains(&ControlType::AbsY));
    assert!(abs_controls.contains(&ControlType::AbsZ));
    assert!(abs_controls.contains(&ControlType::AbsBrake));
    assert!(abs_controls.contains(&ControlType::AbsGas));
}

#[test]
fn test_relative_iterator() {
    let rel_controls: Vec<ControlType> = ControlType::iter_relative().collect();

    // Check we got all relative controls
    assert!(!rel_controls.is_empty());

    // Verify all are relative
    for control in &rel_controls {
        assert!(control.is_relative(), "{:?} should be relative", control);
        assert!(
            !control.is_absolute(),
            "{:?} should not be absolute",
            control
        );
        assert!(!control.is_button(), "{:?} should not be button", control);
    }

    // Check specific controls are present
    assert!(rel_controls.contains(&ControlType::RelX));
    assert!(rel_controls.contains(&ControlType::RelY));
    assert!(rel_controls.contains(&ControlType::RelWheel));
    assert!(rel_controls.contains(&ControlType::RelHwheel));
}

#[test]
fn test_button_iterator() {
    let btn_controls: Vec<ControlType> = ControlType::iter_button().collect();

    // Check we got all button controls
    assert!(!btn_controls.is_empty());

    // Verify all are buttons
    for control in &btn_controls {
        assert!(control.is_button(), "{:?} should be button", control);
        assert!(
            !control.is_relative(),
            "{:?} should not be relative",
            control
        );
    }

    // Check specific controls are present
    assert!(btn_controls.contains(&ControlType::BtnSouth));
    assert!(btn_controls.contains(&ControlType::BtnEast));
    assert!(btn_controls.contains(&ControlType::BtnWest));
    assert!(btn_controls.contains(&ControlType::BtnNorth));
    assert!(btn_controls.contains(&ControlType::BtnLeft));
    assert!(btn_controls.contains(&ControlType::BtnRight));
}

#[test]
fn test_iterator_exact_size() {
    let abs_iter = ControlType::iter_absolute();
    let abs_count = abs_iter.len();
    assert_eq!(abs_count, abs_iter.count());

    let rel_iter = ControlType::iter_relative();
    let rel_count = rel_iter.len();
    assert_eq!(rel_count, rel_iter.count());

    let btn_iter = ControlType::iter_button();
    let btn_count = btn_iter.len();
    assert_eq!(btn_count, btn_iter.count());
}

#[test]
fn test_iterator_next_behavior() {
    let mut iter = ControlType::iter_button();

    // Get first item
    let first = iter.next();
    assert!(first.is_some());

    // Get second item
    let second = iter.next();
    assert!(second.is_some());

    // First and second should be different
    assert_ne!(first, second);

    // Should eventually return None
    let mut count = 2;
    while iter.next().is_some() {
        count += 1;
        if count > 100 {
            panic!("Iterator didn't terminate");
        }
    }

    // After None, should keep returning None
    assert!(iter.next().is_none());
    assert!(iter.next().is_none());
}

#[test]
fn test_from_evdev_absolute() {
    let event = InputEvent::new(EventType::ABSOLUTE.0, AbsoluteAxisCode::ABS_X.0, 100);
    let control: ControlType = control_of(event);
    assert_eq!(control, ControlType::AbsX);

    let event = InputEvent::new(EventType::ABSOLUTE.0, AbsoluteAxisCode::ABS_Y.0, 200);
    let control: ControlType = control_of(event);
    assert_eq!(control, ControlType::AbsY);

    let event = InputEvent::new(EventType::ABSOLUTE.0, AbsoluteAxisCode::ABS_BRAKE.0, 50);
    let control: ControlType = control_of(event);
    assert_eq!(control, ControlType::AbsBrake);
}

#[test]
fn test_from_evdev_relative() {
    let event = InputEvent::new(EventType::RELATIVE.0, RelativeAxisCode::REL_X.0, 10);
    let control: ControlType = control_of(event);
    assert_eq!(control, ControlType::RelX);

    let event = InputEvent::new(EventType::RELATIVE.0, RelativeAxisCode::REL_WHEEL.0, -1);
    let control: ControlType = control_of(event);
    assert_eq!(control, ControlType::RelWheel);
}

#[test]
fn test_from_evdev_button() {
    let event = InputEvent::new(EventType::KEY.0, KeyCode::BTN_SOUTH.0, 1);
    let control: ControlType = control_of(event);
    assert_eq!(control, ControlType::BtnSouth);

    let event = InputEvent::new(EventType::KEY.0, KeyCode::BTN_LEFT.0, 1);
    let control: ControlType = control_of(event);
    assert_eq!(control, ControlType::BtnLeft);
}

#[test]
fn test_to_u16_absolute() {
    let code: u16 = ControlType::AbsX.into();
    assert_eq!(code, AbsoluteAxisCode::ABS_X.0);

    let code: u16 = ControlType::AbsY.into();
    assert_eq!(code, AbsoluteAxisCode::ABS_Y.0);

    let code: u16 = ControlType::AbsGas.into();
    assert_eq!(code, AbsoluteAxisCode::ABS_GAS.0);
}

#[test]
fn test_to_u16_relative() {
    let code: u16 = ControlType::RelX.into();
    assert_eq!(code, RelativeAxisCode::REL_X.0);

    let code: u16 = ControlType::RelWheel.into();
    assert_eq!(code, RelativeAxisCode::REL_WHEEL.0);
}

#[test]
fn test_to_u16_button() {
    let code: u16 = ControlType::BtnSouth.into();
    assert_eq!(code, KeyCode::BTN_SOUTH.0);

    let code: u16 = ControlType::BtnLeft.into();
    assert_eq!(code, KeyCode::BTN_LEFT.0);
}

#[test]
fn test_roundtrip_conversion() {
    // Test absolute
    let control = ControlType::AbsX;
    let code: u16 = control.into();
    let event = InputEvent::new(EventType::ABSOLUTE.0, code, 0);
    let converted: ControlType = control_of(event);
    assert_eq!(control, converted);

    // Test relative
    let control = ControlType::RelWheel;
    let code: u16 = control.into();
    let event = InputEvent::new(EventType::RELATIVE.0, code, 0);
    let converted: ControlType = control_of(event);
    assert_eq!(control, converted);

    // Test button
    let control = ControlType::BtnSouth;
    let code: u16 = control.into();
    let event = InputEvent::new(EventType::KEY.0, code, 0);
    let converted: ControlType = control_of(event);
    assert_eq!(control, converted);
}

#[test]
fn test_helper_methods() {
    // Test absolute
    assert!(ControlType::AbsX.is_absolute());
    assert!(!ControlType::AbsX.is_relative());
    assert!(!ControlType::AbsX.is_button());

    // Test relative
    assert!(!ControlType::RelX.is_absolute());
    assert!(ControlType::RelX.is_relative());
    assert!(!ControlType::RelX.is_button());

    // Test button
    assert!(!ControlType::BtnSouth.is_absolute());
    assert!(!ControlType::BtnSouth.is_relative());
    assert!(ControlType::BtnSouth.is_button());

    // Test unhandled
    assert!(!ControlType::Unhandled.is_absolute());
    assert!(!ControlType::Unhandled.is_relative());
    assert!(!ControlType::Unhandled.is_button());
    assert!(ControlType::Unhandled.is_unhandled());
}

#[test]
fn test_string_parsing() {
    // Test parsing absolute
    assert_eq!(ControlType::from_str("ABS_X").unwrap(), ControlType::AbsX);
    assert_eq!(
        ControlType::from_str("ABS_BRAKE").unwrap(),
        ControlType::AbsBrake
    );

    // Test parsing relative
    assert_eq!(ControlType::from_str("REL_X").unwrap(), ControlType::RelX);
    assert_eq!(
        ControlType::from_str("REL_WHEEL").unwrap(),
        ControlType::RelWheel
    );

    // Test parsing button
    assert_eq!(
        ControlType::from_str("BTN_SOUTH").unwrap(),
        ControlType::BtnSouth
    );
    assert_eq!(
        ControlType::from_str("BTN_LEFT").unwrap(),
        ControlType::BtnLeft
    );

    // Test invalid string
    assert!(ControlType::from_str("INVALID").is_err());
}

#[test]
fn test_to_string() {
    assert_eq!(ControlType::AbsX.to_string(), "ABS_X");
    assert_eq!(ControlType::RelWheel.to_string(), "REL_WHEEL");
    assert_eq!(ControlType::BtnSouth.to_string(), "BTN_SOUTH");
    assert_eq!(ControlType::Unhandled.to_string(), "UNHANDLED");
}

#[test]
fn test_clone_and_copy() {
    let control = ControlType::AbsX;
    let cloned = control.clone();
    let copied = control;

    assert_eq!(control, cloned);
    assert_eq!(control, copied);
}

#[test]
fn test_default() {
    let default = ControlType::default();
    assert_eq!(default, ControlType::Unhandled);
}

#[test]
fn test_multitouch_controls() {
    // Test that multitouch controls are properly included
    let abs_controls: Vec<ControlType> = ControlType::iter_absolute().collect();

    assert!(abs_controls.contains(&ControlType::AbsMtSlot));
    assert!(abs_controls.contains(&ControlType::AbsMtTouchMajor));
    assert!(abs_controls.contains(&ControlType::AbsMtPositionX));
    assert!(abs_controls.contains(&ControlType::AbsMtPositionY));
}

#[test]
fn test_iterator_clone() {
    let iter1 = ControlType::iter_button();
    let mut iter2 = iter1.clone();

    // Advance iter2
    iter2.next();
    iter2.next();

    // iter1 should still be at the beginning
    let count1 = iter1.count();
    let count2 = iter2.count();

    assert_eq!(count1, count2 + 2);
}

#[test]
fn test_no_duplicates_in_iterators() {
    // Check absolute controls
    let abs_controls: Vec<ControlType> = ControlType::iter_absolute().collect();
    let abs_set: HashSet<_> = abs_controls.iter().collect();
    assert_eq!(
        abs_controls.len(),
        abs_set.len(),
        "Duplicate in absolute iterator"
    );

    // Check relative controls
    let rel_controls: Vec<ControlType> = ControlType::iter_relative().collect();
    let rel_set: HashSet<_> = rel_controls.iter().collect();
    assert_eq!(
        rel_controls.len(),
        rel_set.len(),
        "Duplicate in relative iterator"
    );

    // Check button controls
    let btn_controls: Vec<ControlType> = ControlType::iter_button().collect();
    let btn_set: HashSet<_> = btn_controls.iter().collect();
    assert_eq!(
        btn_controls.len(),
        btn_set.len(),
        "Duplicate in button iterator"
    );
}

#[test]
fn test_unhandled_conversion() {
    let code: u16 = ControlType::Unhandled.into();
    assert_eq!(code, 0);

    // MIDI controls should also convert to 0 (unimplemented)
    let code: u16 = ControlType::PitchWheel.into();
    assert_eq!(code, 0);
}

fn all_control_types() -> Vec<ControlType> {
    (0..CONTROL_TYPE_COUNT).map(ControlType::at).collect()
}

#[test]
fn the_list_holds_every_control_type_once() {
    let all = all_control_types();
    assert_eq!(all.len(), 70);
    let set: HashSet<_> = all.iter().collect();
    assert_eq!(set.len(), 70);
    for (i, c) in all.iter().enumerate() {
        assert_eq!(c.index(), i);
    }
    assert_eq!(ControlType::at(69), ControlType::Unhandled);
    assert_eq!(ControlType::at(70), ControlType::Unhandled);
    assert_eq!(ControlType::at(usize::MAX), ControlType::Unhandled);
}

#[test]
fn the_kinds_stand_together_and_have_the_counted_sizes() {
    assert_eq!(ControlType::iter_absolute().len(), 41);
    assert_eq!(ControlType::iter_relative().len(), 12);
    assert_eq!(ControlType::iter_button().len(), 11);
    assert_eq!(ControlKind::Absolute.first(), 0);
    assert_eq!(ControlKind::Relative.first(), 41);
    assert_eq!(ControlKind::Button.first(), 53);
    for c in all_control_types() {
        let expected = match c.index() {
            0..=40 => Some(ControlKind::Absolute),
            41..=52 => Some(ControlKind::Relative),
            53..=63 => Some(ControlKind::Button),
            _ => None,
        };
        assert_eq!(c.kind(), expected, "{:?}", c);
    }
    assert_eq!(ControlType::PitchWheel.kind(), None);
    assert_eq!(ControlType::Unhandled.kind(), None);
}

#[test]
fn names_are_the_upper_snake_case_of_the_variants() {
    for c in all_control_types() {
        let expected = format!("{:?}", c).to_shouty_snake_case();
        assert_eq!(c.name(), expected);
        assert_eq!(c.to_string(), expected);
    }
    assert_eq!(ControlType::AbsHat0X.name(), "ABS_HAT0_X");
    assert_eq!(ControlType::RelHWheelHiRes.name(), "REL_H_WHEEL_HI_RES");
    assert_eq!(ControlType::RelHwheel.name(), "REL_HWHEEL");
    assert_eq!(ControlType::ModulationWheel.name(), "MODULATION_WHEEL");
}

#[test]
fn parsing_a_name_gives_the_control_back() {
    for c in all_control_types() {
        assert_eq!(ControlType::from_str(c.name()), Ok(c));
        assert_eq!(ControlType::from_str(&c.to_string()), Ok(c));
    }
    assert_eq!(
        ControlType::from_str("abs_x"),
        Err(ParseControlTypeError::UnknownName)
    );
    assert_eq!(
        ControlType::from_str(""),
        Err(ParseControlTypeError::UnknownName)
    );
    assert_eq!(
        ControlType::from_str("ABS_X "),
        Err(ParseControlTypeError::UnknownName)
    );
    assert_eq!(
        ControlType::from_str("ABS_HAT0X"),
        Err(ParseControlTypeError::UnknownName)
    );
}

#[test]
fn event_types_are_those_of_the_kernel() {
    assert_eq!(ControlKind::Button.event_type(), EventType::KEY.0);
    assert_eq!(ControlKind::Relative.event_type(), EventType::RELATIVE.0);
    assert_eq!(ControlKind::Absolute.event_type(), EventType::ABSOLUTE.0);
    assert_eq!(ControlKind::of_event_type(EventType::KEY.0), Some(ControlKind::Button));
    assert_eq!(
        ControlKind::of_event_type(EventType::RELATIVE.0),
        Some(ControlKind::Relative)
    );
    assert_eq!(
        ControlKind::of_event_type(EventType::ABSOLUTE.0),
        Some(ControlKind::Absolute)
    );
    assert_eq!(ControlKind::of_event_type(EventType::SYNCHRONIZATION.0), None);
    assert_eq!(ControlKind::of_event_type(EventType::MISC.0), None);
}

#[test]
fn codes_are_those_of_the_kernel() {
    let expected: Vec<(ControlType, u16)> = vec![
        (ControlType::AbsX, AbsoluteAxisCode::ABS_X.0),
        (ControlType::AbsY, AbsoluteAxisCode::ABS_Y.0),
        (ControlType::AbsZ, AbsoluteAxisCode::ABS_Z.0),
        (ControlType::AbsRX, AbsoluteAxisCode::ABS_RX.0),
        (ControlType::AbsRY, AbsoluteAxisCode::ABS_RY.0),
        (ControlType::AbsRZ, AbsoluteAxisCode::ABS_RZ.0),
        (ControlType::AbsThrottle, AbsoluteAxisCode::ABS_THROTTLE.0),
        (ControlType::AbsRudder, AbsoluteAxisCode::ABS_RUDDER.0),
        (ControlType::AbsWheel, AbsoluteAxisCode::ABS_WHEEL.0),
        (ControlType::AbsGas, AbsoluteAxisCode::ABS_GAS.0),
        (ControlType::AbsBrake, AbsoluteAxisCode::ABS_BRAKE.0),
        (ControlType::AbsHat0X, AbsoluteAxisCode::ABS_HAT0X.0),
        (ControlType::AbsHat0Y, AbsoluteAxisCode::ABS_HAT0Y.0),
        (ControlType::AbsHat1X, AbsoluteAxisCode::ABS_HAT1X.0),
        (ControlType::AbsHat1Y, AbsoluteAxisCode::ABS_HAT1Y.0),
        (ControlType::AbsHat2X, AbsoluteAxisCode::ABS_HAT2X.0),
        (ControlType::AbsHat2Y, AbsoluteAxisCode::ABS_HAT2Y.0),
        (ControlType::AbsHat3X, AbsoluteAxisCode::ABS_HAT3X.0),
        (ControlType::AbsHat3Y, AbsoluteAxisCode::ABS_HAT3Y.0),
        (ControlType::AbsPressure, AbsoluteAxisCode::ABS_PRESSURE.0),
        (ControlType::AbsDistance, AbsoluteAxisCode::ABS_DISTANCE.0),
        (ControlType::AbsTiltX, AbsoluteAxisCode::ABS_TILT_X.0),
        (ControlType::AbsTiltY, AbsoluteAxisCode::ABS_TILT_Y.0),
        (ControlType::AbsToolWidth, AbsoluteAxisCode::ABS_TOOL_WIDTH.0),
        (ControlType::AbsVolume, AbsoluteAxisCode::ABS_VOLUME.0),
        (ControlType::AbsMisc, AbsoluteAxisCode::ABS_MISC.0),
        (ControlType::AbsMtSlot, AbsoluteAxisCode::ABS_MT_SLOT.0),
        (ControlType::AbsMtTouchMajor, AbsoluteAxisCode::ABS_MT_TOUCH_MAJOR.0),
        (ControlType::AbsMtTouchMinor, AbsoluteAxisCode::ABS_MT_TOUCH_MINOR.0),
        (ControlType::AbsMtWidthMajor, AbsoluteAxisCode::ABS_MT_WIDTH_MAJOR.0),
        (ControlType::AbsMtWidthMinor, AbsoluteAxisCode::ABS_MT_WIDTH_MINOR.0),
        (ControlType::AbsMtOrientation, AbsoluteAxisCode::ABS_MT_ORIENTATION.0),
        (ControlType::AbsMtPositionX, AbsoluteAxisCode::ABS_MT_POSITION_X.0),
        (ControlType::AbsMtPositionY, AbsoluteAxisCode::ABS_MT_POSITION_Y.0),
        (ControlType::AbsMtToolType, AbsoluteAxisCode::ABS_MT_TOOL_TYPE.0),
        (ControlType::AbsMtBlobId, AbsoluteAxisCode::ABS_MT_BLOB_ID.0),
        (ControlType::AbsMtTrackingId, AbsoluteAxisCode::ABS_MT_TRACKING_ID.0),
        (ControlType::AbsMtPressure, AbsoluteAxisCode::ABS_MT_PRESSURE.0),
        (ControlType::AbsMtDistance, AbsoluteAxisCode::ABS_MT_DISTANCE.0),
        (ControlType::AbsMtToolX, AbsoluteAxisCode::ABS_MT_TOOL_X.0),
        (ControlType::AbsMtToolY, AbsoluteAxisCode::ABS_MT_TOOL_Y.0),
        (ControlType::RelX, RelativeAxisCode::REL_X.0),
        (ControlType::RelY, RelativeAxisCode::REL_Y.0),
        (ControlType::RelZ, RelativeAxisCode::REL_Z.0),
        (ControlType::RelRX, RelativeAxisCode::REL_RX.0),
        (ControlType::RelRY, RelativeAxisCode::REL_RY.0),
        (ControlType::RelRZ, RelativeAxisCode::REL_RZ.0),
        (ControlType::RelHwheel, RelativeAxisCode::REL_HWHEEL.0),
        (ControlType::RelDial, RelativeAxisCode::REL_DIAL.0),
        (ControlType::RelWheel, RelativeAxisCode::REL_WHEEL.0),
        (ControlType::RelMisc, RelativeAxisCode::REL_MISC.0),
        (ControlType::RelWheelHiRes, RelativeAxisCode::REL_WHEEL_HI_RES.0),
        (ControlType::RelHWheelHiRes, RelativeAxisCode::REL_HWHEEL_HI_RES.0),
        (ControlType::BtnSouth, KeyCode::BTN_SOUTH.0),
        (ControlType::BtnEast, KeyCode::BTN_EAST.0),
        (ControlType::BtnWest, KeyCode::BTN_WEST.0),
        (ControlType::BtnNorth, KeyCode::BTN_NORTH.0),
        (ControlType::BtnStart, KeyCode::BTN_START.0),
        (ControlType::BtnSelect, KeyCode::BTN_SELECT.0),
        (ControlType::BtnLeft, KeyCode::BTN_LEFT.0),
        (ControlType::BtnRight, KeyCode::BTN_RIGHT.0),
        (ControlType::BtnMiddle, KeyCode::BTN_MIDDLE.0),
        (ControlType::BtnSide, KeyCode::BTN_SIDE.0),
        (ControlType::BtnExtra, KeyCode::BTN_EXTRA.0),
    ];
    assert_eq!(expected.len(), 64);
    for (control, code) in expected {
        assert_eq!(control.code(), code, "{:?}", control);
        assert_eq!(u16::from(control), code, "{:?}", control);
    }
}

#[test]
fn kind_and_code_lead_back_to_the_control() {
    for c in all_control_types() {
        match c.kind() {
            Some(kind) => {
                assert_eq!(ControlType::from_evdev(kind.event_type(), c.code()), c);
            }
            None => assert_eq!(c.code(), 0),
        }
    }
}

#[test]
fn events_that_belong_to_no_control_are_unhandled() {
    assert_eq!(
        control_of(InputEvent::new(EventType::SYNCHRONIZATION.0, 0, 0)),
        ControlType::Unhandled
    );
    assert_eq!(
        control_of(InputEvent::new(EventType::ABSOLUTE.0, 0x0b, 0)),
        ControlType::Unhandled
    );
    assert_eq!(
        control_of(InputEvent::new(EventType::RELATIVE.0, RelativeAxisCode::REL_RESERVED.0, 0)),
        ControlType::Unhandled
    );
    assert_eq!(
        control_of(InputEvent::new(EventType::KEY.0, KeyCode::KEY_A.0, 1)),
        ControlType::Unhandled
    );
    assert_eq!(
        control_of(InputEvent::new(EventType::KEY.0, 0, 1)),
        ControlType::Unhandled
    );
    assert_eq!(ControlType::from_evdev(0x7777, 0), ControlType::Unhandled);
}

#[test]
fn a_walk_hands_out_the_controls_of_its_kind_in_order() {
    let mut walk = ControlType::iter_relative();
    assert_eq!(walk.next(), Some(ControlType::RelX));
    assert_eq!(walk.next(), Some(ControlType::RelY));
    assert_eq!(walk.len(), 10);
    let rest = walk.collect();
    assert_eq!(rest.first(), Some(&ControlType::RelZ));
    assert_eq!(rest.last(), Some(&ControlType::RelHWheelHiRes));
    assert_eq!(rest.len(), 10);
    let mut spent = ControlType::iter_button();
    for _ in 0..11 {
        assert!(spent.next().is_some());
    }
    assert_eq!(spent.next(), None);
    assert_eq!(spent.len(), 0);
    assert!(spent.collect().is_empty());
}
