use crate::text::str_eq;
use vstd::prelude::*;

verus! {

/// The three kinds of control that the kernel's input layer knows.
#[derive(Debug, Clone, Copy, PartialEq, Eq, Hash, Structural)]
pub enum ControlKind {
    /// An axis that reports a position within a range.
    Absolute,
    /// An axis that reports a signed movement.
    Relative,
    /// A key or button, down or up.
    Button,
}

/// The number of control types, `Unhandled` included.
pub const CONTROL_TYPE_COUNT: usize = 70;

/// A control of a source or destination device: one flat list over the
/// absolute axes, the relative axes and the buttons of the kernel's input
/// layer, the controls that only a MIDI device has, and `Unhandled` for
/// everything else.
#[derive(Debug, Clone, Copy, PartialEq, Eq, Hash, Structural)]
pub enum ControlType {
    AbsX,
    AbsY,
    AbsZ,
    AbsRX,
    AbsRY,
    AbsRZ,
    AbsThrottle,
    AbsRudder,
    AbsWheel,
    AbsGas,
    AbsBrake,
    AbsHat0X,
    AbsHat0Y,
    AbsHat1X,
    AbsHat1Y,
    AbsHat2X,
    AbsHat2Y,
    AbsHat3X,
    AbsHat3Y,
    AbsPressure,
    AbsDistance,
    AbsTiltX,
    AbsTiltY,
    AbsToolWidth,
    AbsVolume,
    AbsMisc,
    /// MT slot being modified.
    AbsMtSlot,
    /// Major axis of touching ellipse.
    AbsMtTouchMajor,
    /// Minor axis (omit if circular).
    AbsMtTouchMinor,
    /// Major axis of approaching ellipse.
    AbsMtWidthMajor,
    /// Minor axis (omit if circular).
    AbsMtWidthMinor,
    /// Ellipse orientation.
    AbsMtOrientation,
    /// Center X touch position.
    AbsMtPositionX,
    /// Center Y touch position.
    AbsMtPositionY,
    /// Type of touching device.
    AbsMtToolType,
    /// Group a set of packets as a blob.
    AbsMtBlobId,
    /// Unique ID of the initiated contact.
    AbsMtTrackingId,
    /// Pressure on contact area.
    AbsMtPressure,
    /// Contact over distance.
    AbsMtDistance,
    /// Center X tool position.
    AbsMtToolX,
    /// Center Y tool position.
    AbsMtToolY,
    RelX,
    RelY,
    RelZ,
    RelRX,
    RelRY,
    RelRZ,
    RelHwheel,
    RelDial,
    RelWheel,
    RelMisc,
    RelWheelHiRes,
    RelHWheelHiRes,
    BtnSouth,
    BtnEast,
    BtnWest,
    BtnNorth,
    BtnStart,
    BtnSelect,
    BtnLeft,
    BtnRight,
    BtnMiddle,
    BtnSide,
    BtnExtra,
    PitchWheel,
    ModulationWheel,
    Note,
    ControlChange,
    ProgramChange,
    Unhandled,
}

impl ControlKind {
    /// The kernel's event type for controls of this kind.
    pub open spec fn spec_event_type(self) -> u16 {
        match self {
            ControlKind::Button => 1,
            ControlKind::Relative => 2,
            ControlKind::Absolute => 3,
        }
    }

    /// The place in the list of control types where this kind begins.
    pub open spec fn spec_first(self) -> nat {
        match self {
            ControlKind::Absolute => 0,
            ControlKind::Relative => 41,
            ControlKind::Button => 53,
        }
    }

    /// How many control types are of this kind.
    pub open spec fn spec_count(self) -> nat {
        match self {
            ControlKind::Absolute => 41,
            ControlKind::Relative => 12,
            ControlKind::Button => 11,
        }
    }

    /// The kind that events of the given type belong to, if any.
    pub open spec fn spec_of_event_type(event_type: u16) -> Option<ControlKind> {
        if event_type == 1 {
            Some(ControlKind::Button)
        } else if event_type == 2 {
            Some(ControlKind::Relative)
        } else if event_type == 3 {
            Some(ControlKind::Absolute)
        } else {
            None
        }
    }

    /// The kernel's event type for controls of this kind.
    pub fn event_type(self) -> (r: u16)
        ensures
            r == self.spec_event_type(),
    {
        match self {
            ControlKind::Button => 1,
            ControlKind::Relative => 2,
            ControlKind::Absolute => 3,
        }
    }

    /// The kind that events of the given type belong to, if any.
    pub fn of_event_type(event_type: u16) -> (r: Option<ControlKind>)
        ensures
            r == Self::spec_of_event_type(event_type),
    {
        if event_type == 1 {
            Some(ControlKind::Button)
        } else if event_type == 2 {
            Some(ControlKind::Relative)
        } else if event_type == 3 {
            Some(ControlKind::Absolute)
        } else {
            None
        }
    }

    /// The place in the list of control types where this kind begins.
    pub fn first(self) -> (r: usize)
        ensures
            r == self.spec_first(),
    {
        match self {
            ControlKind::Absolute => 0,
            ControlKind::Relative => 41,
            ControlKind::Button => 53,
        }
    }

    /// How many control types are of this kind.
    pub fn count(self) -> (r: usize)
        ensures
            r == self.spec_count(),
    {
        match self {
            ControlKind::Absolute => 41,
            ControlKind::Relative => 12,
            ControlKind::Button => 11,
        }
    }
}

impl ControlType {
    /// The kind of the control; none for a MIDI control and for `Unhandled`.
    pub open spec fn spec_kind(self) -> Option<ControlKind> {
        match self {
            ControlType::AbsX | ControlType::AbsY | ControlType::AbsZ | ControlType::AbsRX
            | ControlType::AbsRY | ControlType::AbsRZ | ControlType::AbsThrottle
            | ControlType::AbsRudder | ControlType::AbsWheel | ControlType::AbsGas
            | ControlType::AbsBrake | ControlType::AbsHat0X | ControlType::AbsHat0Y
            | ControlType::AbsHat1X | ControlType::AbsHat1Y | ControlType::AbsHat2X
            | ControlType::AbsHat2Y | ControlType::AbsHat3X | ControlType::AbsHat3Y
            | ControlType::AbsPressure | ControlType::AbsDistance | ControlType::AbsTiltX
            | ControlType::AbsTiltY | ControlType::AbsToolWidth | ControlType::AbsVolume
            | ControlType::AbsMisc | ControlType::AbsMtSlot | ControlType::AbsMtTouchMajor
            | ControlType::AbsMtTouchMinor | ControlType::AbsMtWidthMajor
            | ControlType::AbsMtWidthMinor | ControlType::AbsMtOrientation
            | ControlType::AbsMtPositionX | ControlType::AbsMtPositionY
            | ControlType::AbsMtToolType | ControlType::AbsMtBlobId
            | ControlType::AbsMtTrackingId | ControlType::AbsMtPressure
            | ControlType::AbsMtDistance | ControlType::AbsMtToolX | ControlType::AbsMtToolY => Some(ControlKind::Absolute),
            ControlType::RelX | ControlType::RelY | ControlType::RelZ | ControlType::RelRX
            | ControlType::RelRY | ControlType::RelRZ | ControlType::RelHwheel
            | ControlType::RelDial | ControlType::RelWheel | ControlType::RelMisc
            | ControlType::RelWheelHiRes | ControlType::RelHWheelHiRes => Some(ControlKind::Relative),
            ControlType::BtnSouth | ControlType::BtnEast | ControlType::BtnWest
            | ControlType::BtnNorth | ControlType::BtnStart | ControlType::BtnSelect
            | ControlType::BtnLeft | ControlType::BtnRight | ControlType::BtnMiddle
            | ControlType::BtnSide | ControlType::BtnExtra => Some(ControlKind::Button),
            _ => None,
        }
    }

    /// The place of the control in the list of all control types.
    pub open spec fn spec_index(self) -> nat {
        match self {
            ControlType::AbsX => 0,
            ControlType::AbsY => 1,
            ControlType::AbsZ => 2,
            ControlType::AbsRX => 3,
            ControlType::AbsRY => 4,
            ControlType::AbsRZ => 5,
            ControlType::AbsThrottle => 6,
            ControlType::AbsRudder => 7,
            ControlType::AbsWheel => 8,
            ControlType::AbsGas => 9,
            ControlType::AbsBrake => 10,
            ControlType::AbsHat0X => 11,
            ControlType::AbsHat0Y => 12,
            ControlType::AbsHat1X => 13,
            ControlType::AbsHat1Y => 14,
            ControlType::AbsHat2X => 15,
            ControlType::AbsHat2Y => 16,
            ControlType::AbsHat3X => 17,
            ControlType::AbsHat3Y => 18,
            ControlType::AbsPressure => 19,
            ControlType::AbsDistance => 20,
            ControlType::AbsTiltX => 21,
            ControlType::AbsTiltY => 22,
            ControlType::AbsToolWidth => 23,
            ControlType::AbsVolume => 24,
            ControlType::AbsMisc => 25,
            ControlType::AbsMtSlot => 26,
            ControlType::AbsMtTouchMajor => 27,
            ControlType::AbsMtTouchMinor => 28,
            ControlType::AbsMtWidthMajor => 29,
            ControlType::AbsMtWidthMinor => 30,
            ControlType::AbsMtOrientation => 31,
            ControlType::AbsMtPositionX => 32,
            ControlType::AbsMtPositionY => 33,
            ControlType::AbsMtToolType => 34,
            ControlType::AbsMtBlobId => 35,
            ControlType::AbsMtTrackingId => 36,
            ControlType::AbsMtPressure => 37,
            ControlType::AbsMtDistance => 38,
            ControlType::AbsMtToolX => 39,
            ControlType::AbsMtToolY => 40,
            ControlType::RelX => 41,
            ControlType::RelY => 42,
            ControlType::RelZ => 43,
            ControlType::RelRX => 44,
            ControlType::RelRY => 45,
            ControlType::RelRZ => 46,
            ControlType::RelHwheel => 47,
            ControlType::RelDial => 48,
            ControlType::RelWheel => 49,
            ControlType::RelMisc => 50,
            ControlType::RelWheelHiRes => 51,
            ControlType::RelHWheelHiRes => 52,
            ControlType::BtnSouth => 53,
            ControlType::BtnEast => 54,
            ControlType::BtnWest => 55,
            ControlType::BtnNorth => 56,
            ControlType::BtnStart => 57,
            ControlType::BtnSelect => 58,
            ControlType::BtnLeft => 59,
            ControlType::BtnRight => 60,
            ControlType::BtnMiddle => 61,
            ControlType::BtnSide => 62,
            ControlType::BtnExtra => 63,
            ControlType::PitchWheel => 64,
            ControlType::ModulationWheel => 65,
            ControlType::Note => 66,
            ControlType::ControlChange => 67,
            ControlType::ProgramChange => 68,
            ControlType::Unhandled => 69,
        }
    }

    /// The control at the given place of the list; `Unhandled` beyond its end.
    pub open spec fn spec_at(i: int) -> ControlType {
        if i == 0 {
            ControlType::AbsX
        } else if i == 1 {
            ControlType::AbsY
        } else if i == 2 {
            ControlType::AbsZ
        } else if i == 3 {
            ControlType::AbsRX
        } else if i == 4 {
            ControlType::AbsRY
        } else if i == 5 {
            ControlType::AbsRZ
        } else if i == 6 {
            ControlType::AbsThrottle
        } else if i == 7 {
            ControlType::AbsRudder
        } else if i == 8 {
            ControlType::AbsWheel
        } else if i == 9 {
            ControlType::AbsGas
        } else if i == 10 {
            ControlType::AbsBrake
        } else if i == 11 {
            ControlType::AbsHat0X
        } else if i == 12 {
            ControlType::AbsHat0Y
        } else if i == 13 {
            ControlType::AbsHat1X
        } else if i == 14 {
            ControlType::AbsHat1Y
        } else if i == 15 {
            ControlType::AbsHat2X
        } else if i == 16 {
            ControlType::AbsHat2Y
        } else if i == 17 {
            ControlType::AbsHat3X
        } else if i == 18 {
            ControlType::AbsHat3Y
        } else if i == 19 {
            ControlType::AbsPressure
        } else if i == 20 {
            ControlType::AbsDistance
        } else if i == 21 {
            ControlType::AbsTiltX
        } else if i == 22 {
            ControlType::AbsTiltY
        } else if i == 23 {
            ControlType::AbsToolWidth
        } else if i == 24 {
            ControlType::AbsVolume
        } else if i == 25 {
            ControlType::AbsMisc
        } else if i == 26 {
            ControlType::AbsMtSlot
        } else if i == 27 {
            ControlType::AbsMtTouchMajor
        } else if i == 28 {
            ControlType::AbsMtTouchMinor
        } else if i == 29 {
            ControlType::AbsMtWidthMajor
        } else if i == 30 {
            ControlType::AbsMtWidthMinor
        } else if i == 31 {
            ControlType::AbsMtOrientation
        } else if i == 32 {
            ControlType::AbsMtPositionX
        } else if i == 33 {
            ControlType::AbsMtPositionY
        } else if i == 34 {
            ControlType::AbsMtToolType
        } else if i == 35 {
            ControlType::AbsMtBlobId
        } else if i == 36 {
            ControlType::AbsMtTrackingId
        } else if i == 37 {
            ControlType::AbsMtPressure
        } else if i == 38 {
            ControlType::AbsMtDistance
        } else if i == 39 {
            ControlType::AbsMtToolX
        } else if i == 40 {
            ControlType::AbsMtToolY
        } else if i == 41 {
            ControlType::RelX
        } else if i == 42 {
            ControlType::RelY
        } else if i == 43 {
            ControlType::RelZ
        } else if i == 44 {
            ControlType::RelRX
        } else if i == 45 {
            ControlType::RelRY
        } else if i == 46 {
            ControlType::RelRZ
        } else if i == 47 {
            ControlType::RelHwheel
        } else if i == 48 {
            ControlType::RelDial
        } else if i == 49 {
            ControlType::RelWheel
        } else if i == 50 {
            ControlType::RelMisc
        } else if i == 51 {
            ControlType::RelWheelHiRes
        } else if i == 52 {
            ControlType::RelHWheelHiRes
        } else if i == 53 {
            ControlType::BtnSouth
        } else if i == 54 {
            ControlType::BtnEast
        } else if i == 55 {
            ControlType::BtnWest
        } else if i == 56 {
            ControlType::BtnNorth
        } else if i == 57 {
            ControlType::BtnStart
        } else if i == 58 {
            ControlType::BtnSelect
        } else if i == 59 {
            ControlType::BtnLeft
        } else if i == 60 {
            ControlType::BtnRight
        } else if i == 61 {
            ControlType::BtnMiddle
        } else if i == 62 {
            ControlType::BtnSide
        } else if i == 63 {
            ControlType::BtnExtra
        } else if i == 64 {
            ControlType::PitchWheel
        } else if i == 65 {
            ControlType::ModulationWheel
        } else if i == 66 {
            ControlType::Note
        } else if i == 67 {
            ControlType::ControlChange
        } else if i == 68 {
            ControlType::ProgramChange
        } else {
            ControlType::Unhandled
        }
    }

    /// The code by which the kernel names the control within its kind; 0
    /// for a control that the kernel does not know.
    pub open spec fn spec_code(self) -> u16 {
        match self {
            ControlType::AbsX => 0x00,
            ControlType::AbsY => 0x01,
            ControlType::AbsZ => 0x02,
            ControlType::AbsRX => 0x03,
            ControlType::AbsRY => 0x04,
            ControlType::AbsRZ => 0x05,
            ControlType::AbsThrottle => 0x06,
            ControlType::AbsRudder => 0x07,
            ControlType::AbsWheel => 0x08,
            ControlType::AbsGas => 0x09,
            ControlType::AbsBrake => 0x0a,
            ControlType::AbsHat0X => 0x10,
            ControlType::AbsHat0Y => 0x11,
            ControlType::AbsHat1X => 0x12,
            ControlType::AbsHat1Y => 0x13,
            ControlType::AbsHat2X => 0x14,
            ControlType::AbsHat2Y => 0x15,
            ControlType::AbsHat3X => 0x16,
            ControlType::AbsHat3Y => 0x17,
            ControlType::AbsPressure => 0x18,
            ControlType::AbsDistance => 0x19,
            ControlType::AbsTiltX => 0x1a,
            ControlType::AbsTiltY => 0x1b,
            ControlType::AbsToolWidth => 0x1c,
            ControlType::AbsVolume => 0x20,
            ControlType::AbsMisc => 0x28,
            ControlType::AbsMtSlot => 0x2f,
            ControlType::AbsMtTouchMajor => 0x30,
            ControlType::AbsMtTouchMinor => 0x31,
            ControlType::AbsMtWidthMajor => 0x32,
            ControlType::AbsMtWidthMinor => 0x33,
            ControlType::AbsMtOrientation => 0x34,
            ControlType::AbsMtPositionX => 0x35,
            ControlType::AbsMtPositionY => 0x36,
            ControlType::AbsMtToolType => 0x37,
            ControlType::AbsMtBlobId => 0x38,
            ControlType::AbsMtTrackingId => 0x39,
            ControlType::AbsMtPressure => 0x3a,
            ControlType::AbsMtDistance => 0x3b,
            ControlType::AbsMtToolX => 0x3c,
            ControlType::AbsMtToolY => 0x3d,
            ControlType::RelX => 0x00,
            ControlType::RelY => 0x01,
            ControlType::RelZ => 0x02,
            ControlType::RelRX => 0x03,
            ControlType::RelRY => 0x04,
            ControlType::RelRZ => 0x05,
            ControlType::RelHwheel => 0x06,
            ControlType::RelDial => 0x07,
            ControlType::RelWheel => 0x08,
            ControlType::RelMisc => 0x09,
            ControlType::RelWheelHiRes => 0x0b,
            ControlType::RelHWheelHiRes => 0x0c,
            ControlType::BtnSouth => 0x130,
            ControlType::BtnEast => 0x131,
            ControlType::BtnWest => 0x134,
            ControlType::BtnNorth => 0x133,
            ControlType::BtnStart => 0x13b,
            ControlType::BtnSelect => 0x13a,
            ControlType::BtnLeft => 0x110,
            ControlType::BtnRight => 0x111,
            ControlType::BtnMiddle => 0x112,
            ControlType::BtnSide => 0x113,
            ControlType::BtnExtra => 0x114,
            _ => 0,
        }
    }

    /// The canonical name of the control, in upper case with underscores.
    pub open spec fn spec_name(self) -> Seq<char> {
        match self {
            ControlType::AbsX => "ABS_X"@,
            ControlType::AbsY => "ABS_Y"@,
            ControlType::AbsZ => "ABS_Z"@,
            ControlType::AbsRX => "ABS_RX"@,
            ControlType::AbsRY => "ABS_RY"@,
            ControlType::AbsRZ => "ABS_RZ"@,
            ControlType::AbsThrottle => "ABS_THROTTLE"@,
            ControlType::AbsRudder => "ABS_RUDDER"@,
            ControlType::AbsWheel => "ABS_WHEEL"@,
            ControlType::AbsGas => "ABS_GAS"@,
            ControlType::AbsBrake => "ABS_BRAKE"@,
            ControlType::AbsHat0X => "ABS_HAT0_X"@,
            ControlType::AbsHat0Y => "ABS_HAT0_Y"@,
            ControlType::AbsHat1X => "ABS_HAT1_X"@,
            ControlType::AbsHat1Y => "ABS_HAT1_Y"@,
            ControlType::AbsHat2X => "ABS_HAT2_X"@,
            ControlType::AbsHat2Y => "ABS_HAT2_Y"@,
            ControlType::AbsHat3X => "ABS_HAT3_X"@,
            ControlType::AbsHat3Y => "ABS_HAT3_Y"@,
            ControlType::AbsPressure => "ABS_PRESSURE"@,
            ControlType::AbsDistance => "ABS_DISTANCE"@,
            ControlType::AbsTiltX => "ABS_TILT_X"@,
            ControlType::AbsTiltY => "ABS_TILT_Y"@,
            ControlType::AbsToolWidth => "ABS_TOOL_WIDTH"@,
            ControlType::AbsVolume => "ABS_VOLUME"@,
            ControlType::AbsMisc => "ABS_MISC"@,
            ControlType::AbsMtSlot => "ABS_MT_SLOT"@,
            ControlType::AbsMtTouchMajor => "ABS_MT_TOUCH_MAJOR"@,
            ControlType::AbsMtTouchMinor => "ABS_MT_TOUCH_MINOR"@,
            ControlType::AbsMtWidthMajor => "ABS_MT_WIDTH_MAJOR"@,
            ControlType::AbsMtWidthMinor => "ABS_MT_WIDTH_MINOR"@,
            ControlType::AbsMtOrientation => "ABS_MT_ORIENTATION"@,
            ControlType::AbsMtPositionX => "ABS_MT_POSITION_X"@,
            ControlType::AbsMtPositionY => "ABS_MT_POSITION_Y"@,
            ControlType::AbsMtToolType => "ABS_MT_TOOL_TYPE"@,
            ControlType::AbsMtBlobId => "ABS_MT_BLOB_ID"@,
            ControlType::AbsMtTrackingId => "ABS_MT_TRACKING_ID"@,
            ControlType::AbsMtPressure => "ABS_MT_PRESSURE"@,
            ControlType::AbsMtDistance => "ABS_MT_DISTANCE"@,
            ControlType::AbsMtToolX => "ABS_MT_TOOL_X"@,
            ControlType::AbsMtToolY => "ABS_MT_TOOL_Y"@,
            ControlType::RelX => "REL_X"@,
            ControlType::RelY => "REL_Y"@,
            ControlType::RelZ => "REL_Z"@,
            ControlType::RelRX => "REL_RX"@,
            ControlType::RelRY => "REL_RY"@,
            ControlType::RelRZ => "REL_RZ"@,
            ControlType::RelHwheel => "REL_HWHEEL"@,
            ControlType::RelDial => "REL_DIAL"@,
            ControlType::RelWheel => "REL_WHEEL"@,
            ControlType::RelMisc => "REL_MISC"@,
            ControlType::RelWheelHiRes => "REL_WHEEL_HI_RES"@,
            ControlType::RelHWheelHiRes => "REL_H_WHEEL_HI_RES"@,
            ControlType::BtnSouth => "BTN_SOUTH"@,
            ControlType::BtnEast => "BTN_EAST"@,
            ControlType::BtnWest => "BTN_WEST"@,
            ControlType::BtnNorth => "BTN_NORTH"@,
            ControlType::BtnStart => "BTN_START"@,
            ControlType::BtnSelect => "BTN_SELECT"@,
            ControlType::BtnLeft => "BTN_LEFT"@,
            ControlType::BtnRight => "BTN_RIGHT"@,
            ControlType::BtnMiddle => "BTN_MIDDLE"@,
            ControlType::BtnSide => "BTN_SIDE"@,
            ControlType::BtnExtra => "BTN_EXTRA"@,
            ControlType::PitchWheel => "PITCH_WHEEL"@,
            ControlType::ModulationWheel => "MODULATION_WHEEL"@,
            ControlType::Note => "NOTE"@,
            ControlType::ControlChange => "CONTROL_CHANGE"@,
            ControlType::ProgramChange => "PROGRAM_CHANGE"@,
            ControlType::Unhandled => "UNHANDLED"@,
        }
    }

    /// Whether the control is the one that stands for everything unknown.
    pub fn is_unhandled(&self) -> (b: bool)
        ensures
            b == (*self == ControlType::Unhandled),
    {
        matches!(self, ControlType::Unhandled)
    }

    /// The kind of the control; none for a MIDI control and for `Unhandled`.
    pub fn kind(&self) -> (r: Option<ControlKind>)
        ensures
            r == self.spec_kind(),
    {
        let i: usize = self.index();
        if i < 41 {
            Some(ControlKind::Absolute)
        } else if i < 53 {
            Some(ControlKind::Relative)
        } else if i < 64 {
            Some(ControlKind::Button)
        } else {
            None
        }
    }

    /// Whether the control is an absolute axis.
    pub fn is_absolute(&self) -> (b: bool)
        ensures
            b == (self.spec_kind() == Some(ControlKind::Absolute)),
    {
        matches!(self.kind(), Some(ControlKind::Absolute))
    }

    /// Whether the control is a relative axis.
    pub fn is_relative(&self) -> (b: bool)
        ensures
            b == (self.spec_kind() == Some(ControlKind::Relative)),
    {
        matches!(self.kind(), Some(ControlKind::Relative))
    }

    /// Whether the control is a button.
    pub fn is_button(&self) -> (b: bool)
        ensures
            b == (self.spec_kind() == Some(ControlKind::Button)),
    {
        matches!(self.kind(), Some(ControlKind::Button))
    }

    /// The place of the control in the list of all control types.
    pub fn index(&self) -> (r: usize)
        ensures
            r == self.spec_index(),
            r < CONTROL_TYPE_COUNT,
    {
        match self {
            ControlType::AbsX => 0,
            ControlType::AbsY => 1,
            ControlType::AbsZ => 2,
            ControlType::AbsRX => 3,
            ControlType::AbsRY => 4,
            ControlType::AbsRZ => 5,
            ControlType::AbsThrottle => 6,
            ControlType::AbsRudder => 7,
            ControlType::AbsWheel => 8,
            ControlType::AbsGas => 9,
            ControlType::AbsBrake => 10,
            ControlType::AbsHat0X => 11,
            ControlType::AbsHat0Y => 12,
            ControlType::AbsHat1X => 13,
            ControlType::AbsHat1Y => 14,
            ControlType::AbsHat2X => 15,
            ControlType::AbsHat2Y => 16,
            ControlType::AbsHat3X => 17,
            ControlType::AbsHat3Y => 18,
            ControlType::AbsPressure => 19,
            ControlType::AbsDistance => 20,
            ControlType::AbsTiltX => 21,
            ControlType::AbsTiltY => 22,
            ControlType::AbsToolWidth => 23,
            ControlType::AbsVolume => 24,
            ControlType::AbsMisc => 25,
            ControlType::AbsMtSlot => 26,
            ControlType::AbsMtTouchMajor => 27,
            ControlType::AbsMtTouchMinor => 28,
            ControlType::AbsMtWidthMajor => 29,
            ControlType::AbsMtWidthMinor => 30,
            ControlType::AbsMtOrientation => 31,
            ControlType::AbsMtPositionX => 32,
            ControlType::AbsMtPositionY => 33,
            ControlType::AbsMtToolType => 34,
            ControlType::AbsMtBlobId => 35,
            ControlType::AbsMtTrackingId => 36,
            ControlType::AbsMtPressure => 37,
            ControlType::AbsMtDistance => 38,
            ControlType::AbsMtToolX => 39,
            ControlType::AbsMtToolY => 40,
            ControlType::RelX => 41,
            ControlType::RelY => 42,
            ControlType::RelZ => 43,
            ControlType::RelRX => 44,
            ControlType::RelRY => 45,
            ControlType::RelRZ => 46,
            ControlType::RelHwheel => 47,
            ControlType::RelDial => 48,
            ControlType::RelWheel => 49,
            ControlType::RelMisc => 50,
            ControlType::RelWheelHiRes => 51,
            ControlType::RelHWheelHiRes => 52,
            ControlType::BtnSouth => 53,
            ControlType::BtnEast => 54,
            ControlType::BtnWest => 55,
            ControlType::BtnNorth => 56,
            ControlType::BtnStart => 57,
            ControlType::BtnSelect => 58,
            ControlType::BtnLeft => 59,
            ControlType::BtnRight => 60,
            ControlType::BtnMiddle => 61,
            ControlType::BtnSide => 62,
            ControlType::BtnExtra => 63,
            ControlType::PitchWheel => 64,
            ControlType::ModulationWheel => 65,
            ControlType::Note => 66,
            ControlType::ControlChange => 67,
            ControlType::ProgramChange => 68,
            ControlType::Unhandled => 69,
        }
    }

    /// The control at the given place of the list; `Unhandled` beyond its end.
    pub fn at(i: usize) -> (r: ControlType)
        ensures
            r == Self::spec_at(i as int),
    {
        match i {
            0 => ControlType::AbsX,
            1 => ControlType::AbsY,
            2 => ControlType::AbsZ,
            3 => ControlType::AbsRX,
            4 => ControlType::AbsRY,
            5 => ControlType::AbsRZ,
            6 => ControlType::AbsThrottle,
            7 => ControlType::AbsRudder,
            8 => ControlType::AbsWheel,
            9 => ControlType::AbsGas,
            10 => ControlType::AbsBrake,
            11 => ControlType::AbsHat0X,
            12 => ControlType::AbsHat0Y,
            13 => ControlType::AbsHat1X,
            14 => ControlType::AbsHat1Y,
            15 => ControlType::AbsHat2X,
            16 => ControlType::AbsHat2Y,
            17 => ControlType::AbsHat3X,
            18 => ControlType::AbsHat3Y,
            19 => ControlType::AbsPressure,
            20 => ControlType::AbsDistance,
            21 => ControlType::AbsTiltX,
            22 => ControlType::AbsTiltY,
            23 => ControlType::AbsToolWidth,
            24 => ControlType::AbsVolume,
            25 => ControlType::AbsMisc,
            26 => ControlType::AbsMtSlot,
            27 => ControlType::AbsMtTouchMajor,
            28 => ControlType::AbsMtTouchMinor,
            29 => ControlType::AbsMtWidthMajor,
            30 => ControlType::AbsMtWidthMinor,
            31 => ControlType::AbsMtOrientation,
            32 => ControlType::AbsMtPositionX,
            33 => ControlType::AbsMtPositionY,
            34 => ControlType::AbsMtToolType,
            35 => ControlType::AbsMtBlobId,
            36 => ControlType::AbsMtTrackingId,
            37 => ControlType::AbsMtPressure,
            38 => ControlType::AbsMtDistance,
            39 => ControlType::AbsMtToolX,
            40 => ControlType::AbsMtToolY,
            41 => ControlType::RelX,
            42 => ControlType::RelY,
            43 => ControlType::RelZ,
            44 => ControlType::RelRX,
            45 => ControlType::RelRY,
            46 => ControlType::RelRZ,
            47 => ControlType::RelHwheel,
            48 => ControlType::RelDial,
            49 => ControlType::RelWheel,
            50 => ControlType::RelMisc,
            51 => ControlType::RelWheelHiRes,
            52 => ControlType::RelHWheelHiRes,
            53 => ControlType::BtnSouth,
            54 => ControlType::BtnEast,
            55 => ControlType::BtnWest,
            56 => ControlType::BtnNorth,
            57 => ControlType::BtnStart,
            58 => ControlType::BtnSelect,
            59 => ControlType::BtnLeft,
            60 => ControlType::BtnRight,
            61 => ControlType::BtnMiddle,
            62 => ControlType::BtnSide,
            63 => ControlType::BtnExtra,
            64 => ControlType::PitchWheel,
            65 => ControlType::ModulationWheel,
            66 => ControlType::Note,
            67 => ControlType::ControlChange,
            68 => ControlType::ProgramChange,
            _ => ControlType::Unhandled,
        }
    }

    /// The code by which the kernel names the control within its kind; 0
    /// for a control that the kernel does not know.
    pub fn code(&self) -> (r: u16)
        ensures
            r == self.spec_code(),
    {
        match self {
            ControlType::AbsX => 0x00,
            ControlType::AbsY => 0x01,
            ControlType::AbsZ => 0x02,
            ControlType::AbsRX => 0x03,
            ControlType::AbsRY => 0x04,
            ControlType::AbsRZ => 0x05,
            ControlType::AbsThrottle => 0x06,
            ControlType::AbsRudder => 0x07,
            ControlType::AbsWheel => 0x08,
            ControlType::AbsGas => 0x09,
            ControlType::AbsBrake => 0x0a,
            ControlType::AbsHat0X => 0x10,
            ControlType::AbsHat0Y => 0x11,
            ControlType::AbsHat1X => 0x12,
            ControlType::AbsHat1Y => 0x13,
            ControlType::AbsHat2X => 0x14,
            ControlType::AbsHat2Y => 0x15,
            ControlType::AbsHat3X => 0x16,
            ControlType::AbsHat3Y => 0x17,
            ControlType::AbsPressure => 0x18,
            ControlType::AbsDistance => 0x19,
            ControlType::AbsTiltX => 0x1a,
            ControlType::AbsTiltY => 0x1b,
            ControlType::AbsToolWidth => 0x1c,
            ControlType::AbsVolume => 0x20,
            ControlType::AbsMisc => 0x28,
            ControlType::AbsMtSlot => 0x2f,
            ControlType::AbsMtTouchMajor => 0x30,
            ControlType::AbsMtTouchMinor => 0x31,
            ControlType::AbsMtWidthMajor => 0x32,
            ControlType::AbsMtWidthMinor => 0x33,
            ControlType::AbsMtOrientation => 0x34,
            ControlType::AbsMtPositionX => 0x35,
            ControlType::AbsMtPositionY => 0x36,
            ControlType::AbsMtToolType => 0x37,
            ControlType::AbsMtBlobId => 0x38,
            ControlType::AbsMtTrackingId => 0x39,
            ControlType::AbsMtPressure => 0x3a,
            ControlType::AbsMtDistance => 0x3b,
            ControlType::AbsMtToolX => 0x3c,
            ControlType::AbsMtToolY => 0x3d,
            ControlType::RelX => 0x00,
            ControlType::RelY => 0x01,
            ControlType::RelZ => 0x02,
            ControlType::RelRX => 0x03,
            ControlType::RelRY => 0x04,
            ControlType::RelRZ => 0x05,
            ControlType::RelHwheel => 0x06,
            ControlType::RelDial => 0x07,
            ControlType::RelWheel => 0x08,
            ControlType::RelMisc => 0x09,
            ControlType::RelWheelHiRes => 0x0b,
            ControlType::RelHWheelHiRes => 0x0c,
            ControlType::BtnSouth => 0x130,
            ControlType::BtnEast => 0x131,
            ControlType::BtnWest => 0x134,
            ControlType::BtnNorth => 0x133,
            ControlType::BtnStart => 0x13b,
            ControlType::BtnSelect => 0x13a,
            ControlType::BtnLeft => 0x110,
            ControlType::BtnRight => 0x111,
            ControlType::BtnMiddle => 0x112,
            ControlType::BtnSide => 0x113,
            ControlType::BtnExtra => 0x114,
            _ => 0,
        }
    }

    /// The canonical name of the control, in upper case with underscores.
    pub fn name(&self) -> (r: &'static str)
        ensures
            r@ == self.spec_name(),
    {
        match self {
            ControlType::AbsX => "ABS_X",
            ControlType::AbsY => "ABS_Y",
            ControlType::AbsZ => "ABS_Z",
            ControlType::AbsRX => "ABS_RX",
            ControlType::AbsRY => "ABS_RY",
            ControlType::AbsRZ => "ABS_RZ",
            ControlType::AbsThrottle => "ABS_THROTTLE",
            ControlType::AbsRudder => "ABS_RUDDER",
            ControlType::AbsWheel => "ABS_WHEEL",
            ControlType::AbsGas => "ABS_GAS",
            ControlType::AbsBrake => "ABS_BRAKE",
            ControlType::AbsHat0X => "ABS_HAT0_X",
            ControlType::AbsHat0Y => "ABS_HAT0_Y",
            ControlType::AbsHat1X => "ABS_HAT1_X",
            ControlType::AbsHat1Y => "ABS_HAT1_Y",
            ControlType::AbsHat2X => "ABS_HAT2_X",
            ControlType::AbsHat2Y => "ABS_HAT2_Y",
            ControlType::AbsHat3X => "ABS_HAT3_X",
            ControlType::AbsHat3Y => "ABS_HAT3_Y",
            ControlType::AbsPressure => "ABS_PRESSURE",
            ControlType::AbsDistance => "ABS_DISTANCE",
            ControlType::AbsTiltX => "ABS_TILT_X",
            ControlType::AbsTiltY => "ABS_TILT_Y",
            ControlType::AbsToolWidth => "ABS_TOOL_WIDTH",
            ControlType::AbsVolume => "ABS_VOLUME",
            ControlType::AbsMisc => "ABS_MISC",
            ControlType::AbsMtSlot => "ABS_MT_SLOT",
            ControlType::AbsMtTouchMajor => "ABS_MT_TOUCH_MAJOR",
            ControlType::AbsMtTouchMinor => "ABS_MT_TOUCH_MINOR",
            ControlType::AbsMtWidthMajor => "ABS_MT_WIDTH_MAJOR",
            ControlType::AbsMtWidthMinor => "ABS_MT_WIDTH_MINOR",
            ControlType::AbsMtOrientation => "ABS_MT_ORIENTATION",
            ControlType::AbsMtPositionX => "ABS_MT_POSITION_X",
            ControlType::AbsMtPositionY => "ABS_MT_POSITION_Y",
            ControlType::AbsMtToolType => "ABS_MT_TOOL_TYPE",
            ControlType::AbsMtBlobId => "ABS_MT_BLOB_ID",
            ControlType::AbsMtTrackingId => "ABS_MT_TRACKING_ID",
            ControlType::AbsMtPressure => "ABS_MT_PRESSURE",
            ControlType::AbsMtDistance => "ABS_MT_DISTANCE",
            ControlType::AbsMtToolX => "ABS_MT_TOOL_X",
            ControlType::AbsMtToolY => "ABS_MT_TOOL_Y",
            ControlType::RelX => "REL_X",
            ControlType::RelY => "REL_Y",
            ControlType::RelZ => "REL_Z",
            ControlType::RelRX => "REL_RX",
            ControlType::RelRY => "REL_RY",
            ControlType::RelRZ => "REL_RZ",
            ControlType::RelHwheel => "REL_HWHEEL",
            ControlType::RelDial => "REL_DIAL",
            ControlType::RelWheel => "REL_WHEEL",
            ControlType::RelMisc => "REL_MISC",
            ControlType::RelWheelHiRes => "REL_WHEEL_HI_RES",
            ControlType::RelHWheelHiRes => "REL_H_WHEEL_HI_RES",
            ControlType::BtnSouth => "BTN_SOUTH",
            ControlType::BtnEast => "BTN_EAST",
            ControlType::BtnWest => "BTN_WEST",
            ControlType::BtnNorth => "BTN_NORTH",
            ControlType::BtnStart => "BTN_START",
            ControlType::BtnSelect => "BTN_SELECT",
            ControlType::BtnLeft => "BTN_LEFT",
            ControlType::BtnRight => "BTN_RIGHT",
            ControlType::BtnMiddle => "BTN_MIDDLE",
            ControlType::BtnSide => "BTN_SIDE",
            ControlType::BtnExtra => "BTN_EXTRA",
            ControlType::PitchWheel => "PITCH_WHEEL",
            ControlType::ModulationWheel => "MODULATION_WHEEL",
            ControlType::Note => "NOTE",
            ControlType::ControlChange => "CONTROL_CHANGE",
            ControlType::ProgramChange => "PROGRAM_CHANGE",
            ControlType::Unhandled => "UNHANDLED",
        }
    }
}

/// Why a string is not the name of a control type.
#[derive(Debug, Clone, Copy, PartialEq, Eq, Structural)]
pub enum ParseControlTypeError {
    /// No control type has that name.
    UnknownName,
}

/// That `r` is the control for an event of type `event_type` and code `code`:
/// the control of the event type's kind that has this code, and `Unhandled`
/// where no control has.
pub open spec fn is_control_of_event(r: ControlType, event_type: u16, code: u16) -> bool {
    &&& r != ControlType::Unhandled ==> {
        &&& r.spec_kind() is Some
        &&& r.spec_kind() == ControlKind::spec_of_event_type(event_type)
        &&& r.spec_code() == code
    }
    &&& forall|c: ControlType|
        #![trigger c.spec_code()]
        c.spec_kind() is Some && c.spec_kind() == ControlKind::spec_of_event_type(event_type)
            && c.spec_code() == code ==> r == c
}

/// That `r` is what parsing the name `s` gives: the control type of that
/// name, and an error where no control type has it.
pub open spec fn is_parse_of(r: Result<ControlType, ParseControlTypeError>, s: Seq<char>) -> bool {
    &&& r matches Ok(c) ==> c.spec_name() == s
    &&& r is Err ==> forall|c: ControlType| #![trigger c.spec_name()] c.spec_name() != s
}

impl ControlType {
    /// The control that an event of the kernel's input layer belongs to,
    /// from the event's type and code.
    pub fn from_evdev(event_type: u16, code: u16) -> (r: ControlType)
        ensures
            is_control_of_event(r, event_type, code),
    {
        match ControlKind::of_event_type(event_type) {
            None => ControlType::Unhandled,
            Some(kind) => {
                let first: usize = kind.first();
                let end: usize = first + kind.count();
                let mut i: usize = first;
                while i < end
                    invariant
                        ControlKind::spec_of_event_type(event_type) == Some(kind),
                        first == kind.spec_first(),
                        end == first + kind.spec_count(),
                        first <= i <= end,
                        forall|j: int| first <= j < i ==> (#[trigger] Self::spec_at(j)).spec_code() != code,
                    decreases end - i,
                {
                    let c = ControlType::at(i);
                    if c.code() == code {
                        proof {
                            lemma_at_laws(i as int);
                            lemma_kind_range(c, kind);
                            assert forall|d: ControlType|
                                d.spec_kind() is Some && d.spec_kind() == Some(kind)
                                    && #[trigger] d.spec_code() == code implies c == d by {
                                lemma_codes_distinct(c, d);
                            }
                        }
                        return c;
                    }
                    i += 1;
                }
                proof {
                    assert forall|d: ControlType|
                        d.spec_kind() is Some && d.spec_kind() == Some(kind)
                            && #[trigger] d.spec_code() == code implies ControlType::Unhandled
                        == d by {
                        lemma_index_laws(d);
                        lemma_kind_range(d, kind);
                        assert(Self::spec_at(d.spec_index() as int) == d);
                    }
                }
                ControlType::Unhandled
            },
        }
    }

    /// The canonical name of the control as an owned string.
    pub fn to_string(&self) -> (r: String)
        ensures
            r@ == self.spec_name(),
    {
        self.name().to_owned()
    }

    /// The control type of the given canonical name.
    pub fn from_str(s: &str) -> (r: Result<ControlType, ParseControlTypeError>)
        ensures
            is_parse_of(r, s@),
    {
        let mut i: usize = 0;
        while i < CONTROL_TYPE_COUNT
            invariant
                i <= CONTROL_TYPE_COUNT,
                forall|j: int| 0 <= j < i ==> (#[trigger] Self::spec_at(j)).spec_name() != s@,
            decreases CONTROL_TYPE_COUNT - i,
        {
            let c = ControlType::at(i);
            if str_eq(c.name(), s) {
                return Ok(c);
            }
            i += 1;
        }
        proof {
            assert forall|d: ControlType| #[trigger] d.spec_name() != s@ by {
                lemma_index_laws(d);
                assert(Self::spec_at(d.spec_index() as int) == d);
            }
        }
        Err(ParseControlTypeError::UnknownName)
    }

    /// The absolute axes, in the order of the list.
    pub fn iter_absolute() -> (r: ControlTypeIter)
        ensures
            r.kind == ControlKind::Absolute,
            r.index == 0,
    {
        ControlTypeIter { kind: ControlKind::Absolute, index: 0 }
    }

    /// The relative axes, in the order of the list.
    pub fn iter_relative() -> (r: ControlTypeIter)
        ensures
            r.kind == ControlKind::Relative,
            r.index == 0,
    {
        ControlTypeIter { kind: ControlKind::Relative, index: 0 }
    }

    /// The buttons, in the order of the list.
    pub fn iter_button() -> (r: ControlTypeIter)
        ensures
            r.kind == ControlKind::Button,
            r.index == 0,
    {
        ControlTypeIter { kind: ControlKind::Button, index: 0 }
    }
}

impl Default for ControlType {
    fn default() -> (r: Self)
        ensures
            r == ControlType::Unhandled,
    {
        ControlType::Unhandled
    }
}

impl From<ControlType> for u16 {
    fn from(control_type: ControlType) -> (r: u16) {
        control_type.code()
    }
}

impl vstd::std_specs::convert::FromSpecImpl<ControlType> for u16 {
    open spec fn obeys_from_spec() -> bool {
        true
    }

    open spec fn from_spec(control_type: ControlType) -> u16 {
        control_type.spec_code()
    }
}

/// A walk over the control types of one kind. `index` counts the controls
/// already handed out.
#[derive(Debug, Clone, Copy, PartialEq, Eq, Structural)]
pub struct ControlTypeIter {
    pub kind: ControlKind,
    pub index: usize,
}

impl ControlTypeIter {
    /// The controls that the walk has still to hand out, in order.
    pub open spec fn remaining(self) -> Seq<ControlType> {
        if self.index >= self.kind.spec_count() {
            Seq::empty()
        } else {
            Seq::new(
                (self.kind.spec_count() - self.index) as nat,
                |i: int| ControlType::spec_at(self.kind.spec_first() + self.index + i),
            )
        }
    }

    /// Hands out the next control of the kind, or nothing once all have been.
    pub fn next(&mut self) -> (r: Option<ControlType>)
        ensures
            old(self).remaining().len() == 0 ==> r is None && *final(self) == *old(self),
            old(self).remaining().len() > 0 ==> r == Some(old(self).remaining()[0])
                && final(self).kind == old(self).kind && final(self).index == old(self).index + 1
                && final(self).remaining() == old(self).remaining().drop_first(),
    {
        if self.index < self.kind.count() {
            let c = ControlType::at(self.kind.first() + self.index);
            self.index += 1;
            assert(self.remaining() =~= old(self).remaining().drop_first());
            Some(c)
        } else {
            None
        }
    }

    /// How many controls the walk has still to hand out.
    pub fn len(&self) -> (n: usize)
        ensures
            n == self.remaining().len(),
    {
        let total: usize = self.kind.count();
        if self.index >= total {
            0
        } else {
            total - self.index
        }
    }

    /// How many controls the walk has still to hand out; the walk is used up.
    pub fn count(self) -> (n: usize)
        ensures
            n == self.remaining().len(),
    {
        self.len()
    }

    /// The controls that the walk has still to hand out, in order.
    pub fn collect(self) -> (v: Vec<ControlType>)
        ensures
            v@ == self.remaining(),
    {
        let mut v: Vec<ControlType> = Vec::new();
        let total: usize = self.kind.count();
        let first: usize = self.kind.first();
        let mut i: usize = self.index;
        while i < total
            invariant
                total == self.kind.spec_count(),
                first == self.kind.spec_first(),
                self.index <= i,
                self.index < total ==> i <= total,
                self.index >= total ==> i == self.index,
                v@.len() == i - self.index,
                forall|j: int| 0 <= j < v@.len() ==> v@[j] == ControlType::spec_at(first + self.index + j),
            decreases total - i,
        {
            v.push(ControlType::at(first + i));
            i += 1;
        }
        proof {
            if self.index < total {
                assert(i == total);
                assert(v@.len() == self.remaining().len());
                assert forall|j: int| 0 <= j < v@.len() implies v@[j] == self.remaining()[j] by {}
                assert(v@ =~= self.remaining());
            } else {
                assert(i == self.index);
                assert(v@.len() == 0);
                assert(self.remaining().len() == 0);
                assert(v@ =~= self.remaining());
            }
        }
        v
    }
}

/// The list of control types and the places in it are each other's inverse.
pub proof fn lemma_index_laws(c: ControlType)
    ensures
        c.spec_index() < CONTROL_TYPE_COUNT,
        ControlType::spec_at(c.spec_index() as int) == c,
{
}

/// The controls of a kind stand together in the list.
pub proof fn lemma_kind_range(c: ControlType, k: ControlKind)
    ensures
        c.spec_kind() == Some(k) <==> k.spec_first() <= c.spec_index() < k.spec_first()
            + k.spec_count(),
{
}

/// Each place of the list holds the control of that place.
pub proof fn lemma_at_laws(i: int)
    ensures
        0 <= i < CONTROL_TYPE_COUNT ==> ControlType::spec_at(i).spec_index() == i,
{
}

/// Two controls of one kind with one code are the same control.
pub proof fn lemma_codes_distinct(c: ControlType, d: ControlType)
    requires
        c.spec_kind() is Some,
        c.spec_kind() == d.spec_kind(),
        c.spec_code() == d.spec_code(),
    ensures
        c == d,
{
}

/// A control's kind and code lead back to the control.
pub proof fn lemma_event_round_trip(c: ControlType, k: ControlKind, r: ControlType)
    requires
        c.spec_kind() == Some(k),
        is_control_of_event(r, k.spec_event_type(), c.spec_code()),
    ensures
        r == c,
{
}

/// An event's type and code belong to at most one control.
pub proof fn lemma_control_of_event_unique(r1: ControlType, r2: ControlType, event_type: u16, code: u16)
    requires
        is_control_of_event(r1, event_type, code),
        is_control_of_event(r2, event_type, code),
    ensures
        r1 == r2,
{
    if r1 != ControlType::Unhandled {
        assert(r1.spec_code() == code);
    } else if r2 != ControlType::Unhandled {
        assert(r2.spec_code() == code);
    }
}

/// Distinct control types have distinct names.
pub proof fn lemma_names_distinct(c: ControlType, d: ControlType)
    requires
        c.spec_name() == d.spec_name(),
    ensures
        c == d,
{
    reveal_strlit("ABS_X");
    assert("ABS_X"@ =~= seq!['A', 'B', 'S', '_', 'X']);
    reveal_strlit("ABS_Y");
    assert("ABS_Y"@ =~= seq!['A', 'B', 'S', '_', 'Y']);
    reveal_strlit("ABS_Z");
    assert("ABS_Z"@ =~= seq!['A', 'B', 'S', '_', 'Z']);
    reveal_strlit("ABS_RX");
    assert("ABS_RX"@ =~= seq!['A', 'B', 'S', '_', 'R', 'X']);
    reveal_strlit("ABS_RY");
    assert("ABS_RY"@ =~= seq!['A', 'B', 'S', '_', 'R', 'Y']);
    reveal_strlit("ABS_RZ");
    assert("ABS_RZ"@ =~= seq!['A', 'B', 'S', '_', 'R', 'Z']);
    reveal_strlit("ABS_THROTTLE");
    assert("ABS_THROTTLE"@ =~= seq!['A', 'B', 'S', '_', 'T', 'H', 'R', 'O', 'T', 'T', 'L', 'E']);
    reveal_strlit("ABS_RUDDER");
    assert("ABS_RUDDER"@ =~= seq!['A', 'B', 'S', '_', 'R', 'U', 'D', 'D', 'E', 'R']);
    reveal_strlit("ABS_WHEEL");
    assert("ABS_WHEEL"@ =~= seq!['A', 'B', 'S', '_', 'W', 'H', 'E', 'E', 'L']);
    reveal_strlit("ABS_GAS");
    assert("ABS_GAS"@ =~= seq!['A', 'B', 'S', '_', 'G', 'A', 'S']);
    reveal_strlit("ABS_BRAKE");
    assert("ABS_BRAKE"@ =~= seq!['A', 'B', 'S', '_', 'B', 'R', 'A', 'K', 'E']);
    reveal_strlit("ABS_HAT0_X");
    assert("ABS_HAT0_X"@ =~= seq!['A', 'B', 'S', '_', 'H', 'A', 'T', '0', '_', 'X']);
    reveal_strlit("ABS_HAT0_Y");
    assert("ABS_HAT0_Y"@ =~= seq!['A', 'B', 'S', '_', 'H', 'A', 'T', '0', '_', 'Y']);
    reveal_strlit("ABS_HAT1_X");
    assert("ABS_HAT1_X"@ =~= seq!['A', 'B', 'S', '_', 'H', 'A', 'T', '1', '_', 'X']);
    reveal_strlit("ABS_HAT1_Y");
    assert("ABS_HAT1_Y"@ =~= seq!['A', 'B', 'S', '_', 'H', 'A', 'T', '1', '_', 'Y']);
    reveal_strlit("ABS_HAT2_X");
    assert("ABS_HAT2_X"@ =~= seq!['A', 'B', 'S', '_', 'H', 'A', 'T', '2', '_', 'X']);
    reveal_strlit("ABS_HAT2_Y");
    assert("ABS_HAT2_Y"@ =~= seq!['A', 'B', 'S', '_', 'H', 'A', 'T', '2', '_', 'Y']);
    reveal_strlit("ABS_HAT3_X");
    assert("ABS_HAT3_X"@ =~= seq!['A', 'B', 'S', '_', 'H', 'A', 'T', '3', '_', 'X']);
    reveal_strlit("ABS_HAT3_Y");
    assert("ABS_HAT3_Y"@ =~= seq!['A', 'B', 'S', '_', 'H', 'A', 'T', '3', '_', 'Y']);
    reveal_strlit("ABS_PRESSURE");
    assert("ABS_PRESSURE"@ =~= seq!['A', 'B', 'S', '_', 'P', 'R', 'E', 'S', 'S', 'U', 'R', 'E']);
    reveal_strlit("ABS_DISTANCE");
    assert("ABS_DISTANCE"@ =~= seq!['A', 'B', 'S', '_', 'D', 'I', 'S', 'T', 'A', 'N', 'C', 'E']);
    reveal_strlit("ABS_TILT_X");
    assert("ABS_TILT_X"@ =~= seq!['A', 'B', 'S', '_', 'T', 'I', 'L', 'T', '_', 'X']);
    reveal_strlit("ABS_TILT_Y");
    assert("ABS_TILT_Y"@ =~= seq!['A', 'B', 'S', '_', 'T', 'I', 'L', 'T', '_', 'Y']);
    reveal_strlit("ABS_TOOL_WIDTH");
    assert("ABS_TOOL_WIDTH"@ =~= seq![
        'A', 'B', 'S', '_', 'T', 'O', 'O', 'L', '_', 'W', 'I', 'D', 'T', 'H',
    ]);
    reveal_strlit("ABS_VOLUME");
    assert("ABS_VOLUME"@ =~= seq!['A', 'B', 'S', '_', 'V', 'O', 'L', 'U', 'M', 'E']);
    reveal_strlit("ABS_MISC");
    assert("ABS_MISC"@ =~= seq!['A', 'B', 'S', '_', 'M', 'I', 'S', 'C']);
    reveal_strlit("ABS_MT_SLOT");
    assert("ABS_MT_SLOT"@ =~= seq!['A', 'B', 'S', '_', 'M', 'T', '_', 'S', 'L', 'O', 'T']);
    reveal_strlit("ABS_MT_TOUCH_MAJOR");
    assert("ABS_MT_TOUCH_MAJOR"@ =~= seq![
        'A', 'B', 'S', '_', 'M', 'T', '_', 'T', 'O', 'U', 'C', 'H', '_', 'M', 'A', 'J', 'O', 'R',
    ]);
    reveal_strlit("ABS_MT_TOUCH_MINOR");
    assert("ABS_MT_TOUCH_MINOR"@ =~= seq![
        'A', 'B', 'S', '_', 'M', 'T', '_', 'T', 'O', 'U', 'C', 'H', '_', 'M', 'I', 'N', 'O', 'R',
    ]);
    reveal_strlit("ABS_MT_WIDTH_MAJOR");
    assert("ABS_MT_WIDTH_MAJOR"@ =~= seq![
        'A', 'B', 'S', '_', 'M', 'T', '_', 'W', 'I', 'D', 'T', 'H', '_', 'M', 'A', 'J', 'O', 'R',
    ]);
    reveal_strlit("ABS_MT_WIDTH_MINOR");
    assert("ABS_MT_WIDTH_MINOR"@ =~= seq![
        'A', 'B', 'S', '_', 'M', 'T', '_', 'W', 'I', 'D', 'T', 'H', '_', 'M', 'I', 'N', 'O', 'R',
    ]);
    reveal_strlit("ABS_MT_ORIENTATION");
    assert("ABS_MT_ORIENTATION"@ =~= seq![
        'A', 'B', 'S', '_', 'M', 'T', '_', 'O', 'R', 'I', 'E', 'N', 'T', 'A', 'T', 'I', 'O', 'N',
    ]);
    reveal_strlit("ABS_MT_POSITION_X");
    assert("ABS_MT_POSITION_X"@ =~= seq![
        'A', 'B', 'S', '_', 'M', 'T', '_', 'P', 'O', 'S', 'I', 'T', 'I', 'O', 'N', '_', 'X',
    ]);
    reveal_strlit("ABS_MT_POSITION_Y");
    assert("ABS_MT_POSITION_Y"@ =~= seq![
        'A', 'B', 'S', '_', 'M', 'T', '_', 'P', 'O', 'S', 'I', 'T', 'I', 'O', 'N', '_', 'Y',
    ]);
    reveal_strlit("ABS_MT_TOOL_TYPE");
    assert("ABS_MT_TOOL_TYPE"@ =~= seq![
        'A', 'B', 'S', '_', 'M', 'T', '_', 'T', 'O', 'O', 'L', '_', 'T', 'Y', 'P', 'E',
    ]);
    reveal_strlit("ABS_MT_BLOB_ID");
    assert("ABS_MT_BLOB_ID"@ =~= seq![
        'A', 'B', 'S', '_', 'M', 'T', '_', 'B', 'L', 'O', 'B', '_', 'I', 'D',
    ]);
    reveal_strlit("ABS_MT_TRACKING_ID");
    assert("ABS_MT_TRACKING_ID"@ =~= seq![
        'A', 'B', 'S', '_', 'M', 'T', '_', 'T', 'R', 'A', 'C', 'K', 'I', 'N', 'G', '_', 'I', 'D',
    ]);
    reveal_strlit("ABS_MT_PRESSURE");
    assert("ABS_MT_PRESSURE"@ =~= seq![
        'A', 'B', 'S', '_', 'M', 'T', '_', 'P', 'R', 'E', 'S', 'S', 'U', 'R', 'E',
    ]);
    reveal_strlit("ABS_MT_DISTANCE");
    assert("ABS_MT_DISTANCE"@ =~= seq![
        'A', 'B', 'S', '_', 'M', 'T', '_', 'D', 'I', 'S', 'T', 'A', 'N', 'C', 'E',
    ]);
    reveal_strlit("ABS_MT_TOOL_X");
    assert("ABS_MT_TOOL_X"@ =~= seq![
        'A', 'B', 'S', '_', 'M', 'T', '_', 'T', 'O', 'O', 'L', '_', 'X',
    ]);
    reveal_strlit("ABS_MT_TOOL_Y");
    assert("ABS_MT_TOOL_Y"@ =~= seq![
        'A', 'B', 'S', '_', 'M', 'T', '_', 'T', 'O', 'O', 'L', '_', 'Y',
    ]);
    reveal_strlit("REL_X");
    assert("REL_X"@ =~= seq!['R', 'E', 'L', '_', 'X']);
    reveal_strlit("REL_Y");
    assert("REL_Y"@ =~= seq!['R', 'E', 'L', '_', 'Y']);
    reveal_strlit("REL_Z");
    assert("REL_Z"@ =~= seq!['R', 'E', 'L', '_', 'Z']);
    reveal_strlit("REL_RX");
    assert("REL_RX"@ =~= seq!['R', 'E', 'L', '_', 'R', 'X']);
    reveal_strlit("REL_RY");
    assert("REL_RY"@ =~= seq!['R', 'E', 'L', '_', 'R', 'Y']);
    reveal_strlit("REL_RZ");
    assert("REL_RZ"@ =~= seq!['R', 'E', 'L', '_', 'R', 'Z']);
    reveal_strlit("REL_HWHEEL");
    assert("REL_HWHEEL"@ =~= seq!['R', 'E', 'L', '_', 'H', 'W', 'H', 'E', 'E', 'L']);
    reveal_strlit("REL_DIAL");
    assert("REL_DIAL"@ =~= seq!['R', 'E', 'L', '_', 'D', 'I', 'A', 'L']);
    reveal_strlit("REL_WHEEL");
    assert("REL_WHEEL"@ =~= seq!['R', 'E', 'L', '_', 'W', 'H', 'E', 'E', 'L']);
    reveal_strlit("REL_MISC");
    assert("REL_MISC"@ =~= seq!['R', 'E', 'L', '_', 'M', 'I', 'S', 'C']);
    reveal_strlit("REL_WHEEL_HI_RES");
    assert("REL_WHEEL_HI_RES"@ =~= seq![
        'R', 'E', 'L', '_', 'W', 'H', 'E', 'E', 'L', '_', 'H', 'I', '_', 'R', 'E', 'S',
    ]);
    reveal_strlit("REL_H_WHEEL_HI_RES");
    assert("REL_H_WHEEL_HI_RES"@ =~= seq![
        'R', 'E', 'L', '_', 'H', '_', 'W', 'H', 'E', 'E', 'L', '_', 'H', 'I', '_', 'R', 'E', 'S',
    ]);
    reveal_strlit("BTN_SOUTH");
    assert("BTN_SOUTH"@ =~= seq!['B', 'T', 'N', '_', 'S', 'O', 'U', 'T', 'H']);
    reveal_strlit("BTN_EAST");
    assert("BTN_EAST"@ =~= seq!['B', 'T', 'N', '_', 'E', 'A', 'S', 'T']);
    reveal_strlit("BTN_WEST");
    assert("BTN_WEST"@ =~= seq!['B', 'T', 'N', '_', 'W', 'E', 'S', 'T']);
    reveal_strlit("BTN_NORTH");
    assert("BTN_NORTH"@ =~= seq!['B', 'T', 'N', '_', 'N', 'O', 'R', 'T', 'H']);
    reveal_strlit("BTN_START");
    assert("BTN_START"@ =~= seq!['B', 'T', 'N', '_', 'S', 'T', 'A', 'R', 'T']);
    reveal_strlit("BTN_SELECT");
    assert("BTN_SELECT"@ =~= seq!['B', 'T', 'N', '_', 'S', 'E', 'L', 'E', 'C', 'T']);
    reveal_strlit("BTN_LEFT");
    assert("BTN_LEFT"@ =~= seq!['B', 'T', 'N', '_', 'L', 'E', 'F', 'T']);
    reveal_strlit("BTN_RIGHT");
    assert("BTN_RIGHT"@ =~= seq!['B', 'T', 'N', '_', 'R', 'I', 'G', 'H', 'T']);
    reveal_strlit("BTN_MIDDLE");
    assert("BTN_MIDDLE"@ =~= seq!['B', 'T', 'N', '_', 'M', 'I', 'D', 'D', 'L', 'E']);
    reveal_strlit("BTN_SIDE");
    assert("BTN_SIDE"@ =~= seq!['B', 'T', 'N', '_', 'S', 'I', 'D', 'E']);
    reveal_strlit("BTN_EXTRA");
    assert("BTN_EXTRA"@ =~= seq!['B', 'T', 'N', '_', 'E', 'X', 'T', 'R', 'A']);
    reveal_strlit("PITCH_WHEEL");
    assert("PITCH_WHEEL"@ =~= seq!['P', 'I', 'T', 'C', 'H', '_', 'W', 'H', 'E', 'E', 'L']);
    reveal_strlit("MODULATION_WHEEL");
    assert("MODULATION_WHEEL"@ =~= seq![
        'M', 'O', 'D', 'U', 'L', 'A', 'T', 'I', 'O', 'N', '_', 'W', 'H', 'E', 'E', 'L',
    ]);
    reveal_strlit("NOTE");
    assert("NOTE"@ =~= seq!['N', 'O', 'T', 'E']);
    reveal_strlit("CONTROL_CHANGE");
    assert("CONTROL_CHANGE"@ =~= seq![
        'C', 'O', 'N', 'T', 'R', 'O', 'L', '_', 'C', 'H', 'A', 'N', 'G', 'E',
    ]);
    reveal_strlit("PROGRAM_CHANGE");
    assert("PROGRAM_CHANGE"@ =~= seq![
        'P', 'R', 'O', 'G', 'R', 'A', 'M', '_', 'C', 'H', 'A', 'N', 'G', 'E',
    ]);
    reveal_strlit("UNHANDLED");
    assert("UNHANDLED"@ =~= seq!['U', 'N', 'H', 'A', 'N', 'D', 'L', 'E', 'D']);
}

/// Parsing a control's name gives the control back.
pub proof fn lemma_name_round_trip(c: ControlType, r: Result<ControlType, ParseControlTypeError>)
    requires
        is_parse_of(r, c.spec_name()),
    ensures
        r == Ok::<ControlType, ParseControlTypeError>(c),
{
    match r {
        Ok(d) => {
            lemma_names_distinct(c, d);
        },
        Err(_) => {
            assert(c.spec_name() != c.spec_name());
        },
    }
}

} // verus!
