use crate::control_type::ControlType;
use crate::interval::NumInterval;
use crate::text::str_eq;
use vstd::prelude::*;

verus! {

/// A real-valued parameter, held by the bit pattern of its single-precision
/// form. The library stores such values and hands them on; it never computes
/// with them.
#[derive(Debug, Clone, Copy, PartialEq, Eq, Structural)]
pub struct F32Bits {
    pub bits: u32,
}

/// A key that is unique among its neighbours, and what is filed under it.
pub type Keyed<T> = Vec<(String, T)>;

/// The state of one stateful step: a number given out when the
/// configuration is resolved, under which the engine files the step's state.
pub type StepRuntimeStateId = usize;

/// The settings that hold for the whole program.
#[derive(Debug, Clone, Copy, PartialEq, Eq, Structural)]
pub struct GlobalSettings {
    /// The rate of idle ticks in Hz.
    pub idle_tick_update_rate: u32,
    /// Whether virtual joysticks outlive a reload unless they say otherwise.
    pub persistent_joysticks: bool,
}

/// A control as the configuration writes it: the name of a predefined
/// control, or a definition of its own.
#[derive(Debug)]
pub enum ControlEntry<T> {
    Shorthand(String),
    Full(T),
}

/// The kinds of MIDI message that a control can ask for.
#[derive(Debug, Clone, Copy, PartialEq, Eq, Structural)]
pub enum MidiMessageType {
    PitchWheel,
    ControlChange,
    Note,
    NoteOn,
    NoteOff,
    Aftertouch,
    ProgramChange,
}

/// The channel that a control listens on: one of the sixteen, or all of them.
#[derive(Debug, Clone, Copy, PartialEq, Eq, Structural)]
pub enum MidiChannel {
    Any,
    Number(u8),
}

/// Which note, controller or program a control listens to.
#[derive(Debug)]
pub enum MidiNumber {
    Single(u8),
    Multiple(Vec<u8>),
    Special(String),
}

/// The MIDI messages that a control listens to.
#[derive(Debug)]
pub struct MidiMessage {
    pub msg_type: MidiMessageType,
    pub channel: MidiChannel,
    pub number: Option<MidiNumber>,
}

/// A control of a MIDI device: the messages it listens for and the range of
/// their values.
#[derive(Debug)]
pub struct MidiControl {
    pub merge_from: Option<String>,
    pub midi_message: Option<MidiMessage>,
    pub range: Option<NumInterval<i32>>,
    pub description: Option<String>,
}

/// A MIDI device as the configuration writes it: how its ports are recognised,
/// and its controls.
#[derive(Debug)]
pub struct MidiDevice {
    pub enabled: bool,
    pub match_name_regex: Option<String>,
    pub controls: Keyed<ControlEntry<MidiControl>>,
}

/// A control of a mouse as the configuration writes it.
#[derive(Debug)]
pub struct MouseControl {
    pub merge_from: Option<String>,
    pub control_type: Option<ControlType>,
    pub range: Option<NumInterval<i32>>,
    pub description: Option<String>,
}

/// A control of a mouse with type and range settled.
#[derive(Debug)]
pub struct ResolvedMouseControl {
    pub control_type: ControlType,
    pub range: NumInterval<i32>,
    pub description: Option<String>,
}

/// A mouse as the configuration writes it: how the device is recognised, and
/// its controls.
#[derive(Debug)]
pub struct MouseDevice {
    pub enabled: bool,
    pub match_name_regex: Option<String>,
    pub controls: Keyed<ControlEntry<MouseControl>>,
}

/// How a virtual joystick identifies itself to the kernel.
#[derive(Debug, Clone, Copy, PartialEq, Eq, Structural)]
pub struct JoystickProperties {
    pub vendor_id: u16,
    pub product_id: u16,
    pub version: u16,
}

/// What a virtual joystick offers of force feedback.
#[derive(Debug)]
pub struct FFCapabilities {
    pub enabled: bool,
    pub effects: Vec<String>,
    pub max_effects: u32,
    pub gain: F32Bits,
    pub autocenter: F32Bits,
}

/// The fine properties of an absolute axis.
#[derive(Debug, Clone, Copy, PartialEq, Eq, Structural)]
pub struct AxisProperties {
    pub resolution: u32,
    pub fuzz: u32,
    pub flat: u32,
}

/// A control of a virtual joystick as the configuration writes it.
#[derive(Debug)]
pub struct JoystickControl {
    pub merge_from: Option<String>,
    pub control_type: Option<ControlType>,
    pub range: Option<NumInterval<i32>>,
    pub properties: Option<AxisProperties>,
    pub initial_value: i32,
}

/// A control of a virtual joystick with type and range settled.
#[derive(Debug, Clone, Copy)]
pub struct ResolvedJoystickControl {
    pub control_type: ControlType,
    pub range: NumInterval<i32>,
    pub properties: Option<AxisProperties>,
    pub initial_value: i32,
}

/// A virtual joystick as the configuration writes it.
#[derive(Debug)]
pub struct VirtualJoystick {
    pub name: String,
    pub enabled: Option<bool>,
    pub persistent: Option<bool>,
    pub properties: JoystickProperties,
    pub force_feedback: Option<FFCapabilities>,
    pub controls: Keyed<ControlEntry<JoystickControl>>,
}

/// A virtual joystick with each of its controls written out in full.
#[derive(Debug)]
pub struct ResolvedVirtualJoystick {
    pub enabled: bool,
    pub persistent: bool,
    pub name: String,
    pub properties: JoystickProperties,
    pub controls: Keyed<ResolvedJoystickControl>,
    pub force_feedback: Option<FFCapabilities>,
}

impl ResolvedVirtualJoystick {
    /// Whether the joystick takes force-feedback effects.
    pub open spec fn spec_is_ff_enabled(self) -> bool {
        match self.force_feedback {
            Some(c) => c.enabled,
            None => false,
        }
    }

    /// Whether the joystick takes force-feedback effects.
    pub fn is_ff_enabled(&self) -> (b: bool)
        ensures
            b == self.spec_is_ff_enabled(),
    {
        match &self.force_feedback {
            Some(c) => c.enabled,
            None => false,
        }
    }
}

/// A MIDI device with each of its controls written out in full.
#[derive(Debug)]
pub struct ResolvedMidiDevice {
    pub enabled: bool,
    pub match_name_regex: Option<String>,
    pub controls: Keyed<MidiControl>,
}

/// A mouse device with each of its controls written out in full.
#[derive(Debug)]
pub struct ResolvedMouseDevice {
    pub enabled: bool,
    pub match_name_regex: Option<String>,
    pub controls: Keyed<ResolvedMouseControl>,
}

/// Where a mapping reads, by the keys of the configuration.
#[derive(Debug)]
pub struct MappingSource {
    pub device: String,
    pub control: String,
}

/// Where a mapping writes, by the keys of the configuration.
#[derive(Debug)]
pub struct MappingDestination {
    pub joystick: String,
    pub control: String,
}

/// A mapping as the configuration writes it: from a control of a source device,
/// through the steps of a transformation, to a control of a joystick.
#[derive(Debug)]
pub struct Mapping {
    pub name: Option<String>,
    pub enabled: bool,
    pub source: MappingSource,
    pub destination: MappingDestination,
    pub transformation: Vec<TransformationStep>,
}

/// A straight line: `slope * (x - shift_x) + shift_y`.
#[derive(Debug, Clone, Copy, PartialEq, Eq, Structural)]
pub struct LinearTransform {
    pub slope: Option<F32Bits>,
    pub shift_x: Option<F32Bits>,
    pub shift_y: Option<F32Bits>,
    pub on_idle: Option<bool>,
}

/// The square of the input.
#[derive(Debug, Clone, Copy, PartialEq, Eq, Structural)]
pub struct QuadraticTransform {
    pub on_idle: Option<bool>,
}

/// The cube of the input.
#[derive(Debug, Clone, Copy, PartialEq, Eq, Structural)]
pub struct CubicTransform {
    pub on_idle: Option<bool>,
}

/// The curve `3x^2 - 2x^3`.
#[derive(Debug, Clone, Copy, PartialEq, Eq, Structural)]
pub struct SmoothstepTransform {
    pub on_idle: Option<bool>,
}

/// An S-shaped curve of the given steepness.
#[derive(Debug, Clone, Copy, PartialEq, Eq, Structural)]
pub struct SCurveTransform {
    pub steepness: Option<F32Bits>,
    pub on_idle: Option<bool>,
}

/// An exponential curve to the given base.
#[derive(Debug, Clone, Copy, PartialEq, Eq, Structural)]
pub struct ExponentialTransform {
    pub base: Option<F32Bits>,
    pub on_idle: Option<bool>,
}

/// A power curve that is symmetric about the middle of the range.
#[derive(Debug, Clone, Copy, PartialEq, Eq, Structural)]
pub struct SymmetricPowerTransform {
    pub power: Option<F32Bits>,
    pub on_idle: Option<bool>,
}

/// A power curve.
#[derive(Debug, Clone, Copy, PartialEq, Eq, Structural)]
pub struct PowerTransform {
    pub power: Option<F32Bits>,
    pub on_idle: Option<bool>,
}

/// A first-order low-pass filter.
#[derive(Debug, Clone, Copy, PartialEq, Eq, Structural)]
pub struct LowPassTransform {
    pub time_constant: Option<F32Bits>,
    pub on_idle: Option<bool>,
}

/// A first-order high-pass filter.
#[derive(Debug, Clone, Copy, PartialEq, Eq, Structural)]
pub struct HighPassTransform {
    pub cutoff: F32Bits,
    pub on_idle: Option<bool>,
}

/// Turns the value round: within its range, or about zero for a relative value.
#[derive(Debug, Clone, Copy, PartialEq, Eq, Structural)]
pub struct InvertTransform {
    pub is_relative: bool,
}

/// The two ends of a range of real values, as the configuration gives them.
#[derive(Debug, Clone, Copy, PartialEq, Eq, Structural)]
pub struct RealInterval {
    pub from: F32Bits,
    pub to: F32Bits,
}

/// Sums up relative movements within a range.
#[derive(Debug, Clone, Copy, PartialEq, Eq, Structural)]
pub struct IntegrateTransform {
    pub range: Option<RealInterval>,
    pub deadzone_norm: Option<F32Bits>,
    pub smoothing_alpha: Option<F32Bits>,
}

/// Clamps onto `[from, to]`; an end that is not given is the end of the
/// range that the value arrives with.
#[derive(Debug, Clone, Copy, PartialEq, Eq, Structural)]
pub struct ClampTransform {
    pub from: Option<i32>,
    pub to: Option<i32>,
    pub override_range: bool,
}

/// An exponential moving average with the time constant `tau`.
#[derive(Debug, Clone, Copy, PartialEq, Eq, Structural)]
pub struct EmaFilterTransform {
    pub on_idle: Option<bool>,
    pub tau: F32Bits,
}

/// How firmly the wheel is held: a fixed weight, or the control whose
/// reading gives the weight.
#[derive(Debug)]
pub enum HoldFactor {
    Value(F32Bits),
    Reference { device: String, control: String },
}

/// A hold factor whose reference has been looked up: it carries the range
/// of the control it reads.
#[derive(Debug)]
pub enum ResolvedHoldFactor {
    Value(F32Bits),
    Reference { device: String, control: String, range: NumInterval<i32> },
}

/// How the force that a game plays acts on a steering step.
#[derive(Debug)]
pub struct ForceFeedbackTransform {
    pub enabled: bool,
    pub constant_force_influence: F32Bits,
    pub constant_force_scale: F32Bits,
    pub constant_force_invert: bool,
    pub hold_factor: Option<HoldFactor>,
}

/// A follower that rises and falls at limited rates, as the configuration
/// writes it.
#[derive(Debug)]
pub struct PedalSmootherTransform {
    pub rise_rate: F32Bits,
    pub fall_rate: F32Bits,
    pub smoothing_alpha: F32Bits,
    pub fall_delay: Option<F32Bits>,
    pub fall_gentling_factor: Option<HoldFactor>,
}

/// A wheel that is turned by relative movements, as the configuration writes
/// it.
#[derive(Debug)]
pub struct SteeringTransform {
    pub counts_to_lock: F32Bits,
    pub deadzone_counts: F32Bits,
    pub smoothing_alpha: F32Bits,
    pub auto_center_halflife: F32Bits,
    pub hold_factor: Option<HoldFactor>,
    pub force_feedback: Option<ForceFeedbackTransform>,
    pub user_input_power_curve: Option<SymmetricPowerTransform>,
    pub user_input_ema_filter: Option<EmaFilterTransform>,
}

/// One step of a mapping's transformation, as the configuration writes it.
#[derive(Debug)]
pub enum TransformationStep {
    Invert { invert: InvertTransform },
    Integrate { integrate: IntegrateTransform },
    Steering { steering: SteeringTransform },
    Clamp { clamp: ClampTransform },
    PedalSmoother { pedal_smoother: PedalSmootherTransform },
    EmaFilter { ema_filter: EmaFilterTransform },
    Linear { linear: LinearTransform },
    Quadratic { quadratic_curve: QuadraticTransform },
    Cubic { cubic_curve: CubicTransform },
    Smoothstep { smoothstep_curve: SmoothstepTransform },
    SCurve { s_curve: SCurveTransform },
    Exponential { exp_curve: ExponentialTransform },
    Power { power_curve: PowerTransform },
    SymmetricPower { symmetric_power_curve: SymmetricPowerTransform },
    LowPass { lowpass: LowPassTransform },
    HighPass { highpass: HighPassTransform },
}

/// A steering step with its hold factor looked up and the number of its filter
/// state.
#[derive(Debug)]
pub struct ResolvedSteeringTransform {
    pub counts_to_lock: F32Bits,
    pub deadzone_counts: F32Bits,
    pub smoothing_alpha: F32Bits,
    pub auto_center_halflife: F32Bits,
    pub hold_factor: Option<ResolvedHoldFactor>,
    pub force_feedback: Option<ForceFeedbackTransform>,
    pub user_input_power_curve: Option<SymmetricPowerTransform>,
    pub user_input_ema_filter_runtime_state_id: StepRuntimeStateId,
    pub user_input_ema_filter_average: Option<EmaFilterTransform>,
}

/// A pedal smoother with its gentling factor looked up.
#[derive(Debug)]
pub struct ResolvedPedalSmootherTransform {
    pub rise_rate: F32Bits,
    pub fall_rate: F32Bits,
    pub smoothing_alpha: F32Bits,
    pub fall_delay: Option<F32Bits>,
    pub fall_gentling_factor: Option<ResolvedHoldFactor>,
}

/// One step of a mapping's transformation, ready to run: a step that keeps
/// state between runs carries the number under which that state is filed.
#[derive(Debug)]
pub enum ResolvedTransformationStep {
    Invert { invert: InvertTransform },
    Integrate { runtime_state_id: StepRuntimeStateId, integrate: IntegrateTransform },
    Steering { runtime_state_id: StepRuntimeStateId, steering: ResolvedSteeringTransform },
    Clamp { clamp: ClampTransform },
    PedalSmoother {
        runtime_state_id: StepRuntimeStateId,
        pedal_smoother: ResolvedPedalSmootherTransform,
    },
    EmaFilter { runtime_state_id: StepRuntimeStateId, ema_filter: EmaFilterTransform },
    Linear { linear: LinearTransform },
    Quadratic { quadratic_curve: QuadraticTransform },
    Cubic { cubic_curve: CubicTransform },
    Smoothstep { smoothstep_curve: SmoothstepTransform },
    SCurve { s_curve: SCurveTransform },
    Exponential { exp_curve: ExponentialTransform },
    Power { power_curve: PowerTransform },
    SymmetricPower { symmetric_power_curve: SymmetricPowerTransform },
    LowPass { runtime_state_id: StepRuntimeStateId, lowpass: LowPassTransform },
    HighPass { runtime_state_id: StepRuntimeStateId, highpass: HighPassTransform },
}

/// A predefined MIDI control.
#[derive(Debug)]
pub struct MidiControlPredefined {
    pub midi_message: MidiMessage,
    pub range: NumInterval<i32>,
    pub description: String,
}

/// A predefined joystick control.
#[derive(Debug)]
pub struct JoystickControlPredefined {
    pub control_type: ControlType,
    pub range: NumInterval<i32>,
    pub properties: Option<AxisProperties>,
    pub initial_value: i32,
    pub description: String,
}

/// A predefined mouse control.
#[derive(Debug)]
pub struct MouseControlPredefined {
    pub control_type: ControlType,
    pub range: NumInterval<i32>,
    pub description: String,
}

/// The named controls that a configuration can refer to.
#[derive(Debug)]
pub struct ControlsPredefined {
    pub midi_controls: Keyed<MidiControlPredefined>,
    pub joystick_controls: Keyed<JoystickControlPredefined>,
    pub mouse_controls: Keyed<MouseControlPredefined>,
}

/// What a [`MidiNumber`] says, apart from how it is stored.
pub enum MidiNumberView {
    Single(u8),
    Multiple(Seq<u8>),
    Special(Seq<char>),
}

/// What a [`MidiMessage`] says, apart from how it is stored.
pub struct MidiMessageView {
    pub msg_type: MidiMessageType,
    pub channel: MidiChannel,
    pub number: Option<MidiNumberView>,
}

/// What a [`MidiControl`] says, apart from how it is stored.
pub struct MidiControlView {
    pub merge_from: Option<Seq<char>>,
    pub midi_message: Option<MidiMessageView>,
    pub range: Option<NumInterval<i32>>,
    pub description: Option<Seq<char>>,
}

/// The characters of a string that may be absent.
pub open spec fn text_of(s: Option<String>) -> Option<Seq<char>> {
    match s {
        Some(s) => Some(s@),
        None => None,
    }
}

impl View for MidiNumber {
    type V = MidiNumberView;

    open spec fn view(&self) -> MidiNumberView {
        match *self {
            MidiNumber::Single(n) => MidiNumberView::Single(n),
            MidiNumber::Multiple(numbers) => MidiNumberView::Multiple(numbers@),
            MidiNumber::Special(s) => MidiNumberView::Special(s@),
        }
    }
}

impl View for MidiMessage {
    type V = MidiMessageView;

    open spec fn view(&self) -> MidiMessageView {
        MidiMessageView {
            msg_type: self.msg_type,
            channel: self.channel,
            number: match self.number {
                Some(n) => Some(n@),
                None => None,
            },
        }
    }
}

impl View for MidiControl {
    type V = MidiControlView;

    open spec fn view(&self) -> MidiControlView {
        MidiControlView {
            merge_from: text_of(self.merge_from),
            midi_message: match self.midi_message {
                Some(m) => Some(m@),
                None => None,
            },
            range: self.range,
            description: text_of(self.description),
        }
    }
}

/// A copy of a string that may be absent.
pub fn clone_text(s: &Option<String>) -> (r: Option<String>)
    ensures
        r == *s,
        text_of(r) == text_of(*s),
{
    match s {
        Some(s) => Some(s.clone()),
        None => None,
    }
}

impl Clone for MidiNumber {
    fn clone(&self) -> (r: Self)
        ensures
            r@ == self@,
    {
        match self {
            MidiNumber::Single(n) => MidiNumber::Single(*n),
            MidiNumber::Multiple(numbers) => {
                let copy = numbers.clone();
                assert(copy@ =~= numbers@);
                MidiNumber::Multiple(copy)
            },
            MidiNumber::Special(s) => MidiNumber::Special(s.clone()),
        }
    }
}

impl Clone for MidiMessage {
    fn clone(&self) -> (r: Self)
        ensures
            r@ == self@,
    {
        MidiMessage {
            msg_type: self.msg_type,
            channel: self.channel,
            number: match &self.number {
                Some(n) => Some(n.clone()),
                None => None,
            },
        }
    }
}

impl Clone for MidiControl {
    fn clone(&self) -> (r: Self)
        ensures
            r@ == self@,
    {
        MidiControl {
            merge_from: clone_text(&self.merge_from),
            midi_message: match &self.midi_message {
                Some(m) => Some(m.clone()),
                None => None,
            },
            range: self.range,
            description: clone_text(&self.description),
        }
    }
}

impl Clone for ResolvedMouseControl {
    fn clone(&self) -> (r: Self)
        ensures
            r == *self,
    {
        ResolvedMouseControl {
            control_type: self.control_type,
            range: self.range,
            description: clone_text(&self.description),
        }
    }
}

impl Clone for HoldFactor {
    fn clone(&self) -> (r: Self)
        ensures
            r == *self,
    {
        match self {
            HoldFactor::Value(v) => HoldFactor::Value(*v),
            HoldFactor::Reference { device, control } => HoldFactor::Reference {
                device: device.clone(),
                control: control.clone(),
            },
        }
    }
}

impl Clone for ForceFeedbackTransform {
    fn clone(&self) -> (r: Self)
        ensures
            r == *self,
    {
        ForceFeedbackTransform {
            enabled: self.enabled,
            constant_force_influence: self.constant_force_influence,
            constant_force_scale: self.constant_force_scale,
            constant_force_invert: self.constant_force_invert,
            hold_factor: match &self.hold_factor {
                Some(h) => Some(h.clone()),
                None => None,
            },
        }
    }
}

/// The kinds of step that a configuration can name.
#[derive(Debug, Clone, Copy, PartialEq, Eq, Structural)]
pub enum StepKind {
    Invert,
    Integrate,
    Steering,
    Clamp,
    PedalSmoother,
    EmaFilter,
    Linear,
    Quadratic,
    Cubic,
    Smoothstep,
    SCurve,
    Exponential,
    Power,
    SymmetricPower,
    LowPass,
}

/// The kind of step that a configuration names by the key `key`. There is
/// no key for the high-pass filter: a configuration cannot ask for one.
pub open spec fn spec_step_kind_of_key(key: Seq<char>) -> Option<StepKind> {
    if key == "invert"@ {
        Some(StepKind::Invert)
    } else if key == "integrate"@ {
        Some(StepKind::Integrate)
    } else if key == "steering"@ {
        Some(StepKind::Steering)
    } else if key == "clamp"@ {
        Some(StepKind::Clamp)
    } else if key == "pedal_smoother"@ {
        Some(StepKind::PedalSmoother)
    } else if key == "ema_filter"@ {
        Some(StepKind::EmaFilter)
    } else if key == "linear"@ {
        Some(StepKind::Linear)
    } else if key == "quadratic"@ {
        Some(StepKind::Quadratic)
    } else if key == "cubic"@ {
        Some(StepKind::Cubic)
    } else if key == "smoothstep"@ {
        Some(StepKind::Smoothstep)
    } else if key == "s_curve"@ {
        Some(StepKind::SCurve)
    } else if key == "exp"@ {
        Some(StepKind::Exponential)
    } else if key == "power"@ {
        Some(StepKind::Power)
    } else if key == "symmetric_power"@ {
        Some(StepKind::SymmetricPower)
    } else if key == "lowpass"@ {
        Some(StepKind::LowPass)
    } else {
        None
    }
}

/// The kind of step that a configuration names by the key `key`.
pub fn step_kind_of_key(key: &str) -> (r: Option<StepKind>)
    ensures
        r == spec_step_kind_of_key(key@),
{
    if str_eq(key, "invert") {
        Some(StepKind::Invert)
    } else if str_eq(key, "integrate") {
        Some(StepKind::Integrate)
    } else if str_eq(key, "steering") {
        Some(StepKind::Steering)
    } else if str_eq(key, "clamp") {
        Some(StepKind::Clamp)
    } else if str_eq(key, "pedal_smoother") {
        Some(StepKind::PedalSmoother)
    } else if str_eq(key, "ema_filter") {
        Some(StepKind::EmaFilter)
    } else if str_eq(key, "linear") {
        Some(StepKind::Linear)
    } else if str_eq(key, "quadratic") {
        Some(StepKind::Quadratic)
    } else if str_eq(key, "cubic") {
        Some(StepKind::Cubic)
    } else if str_eq(key, "smoothstep") {
        Some(StepKind::Smoothstep)
    } else if str_eq(key, "s_curve") {
        Some(StepKind::SCurve)
    } else if str_eq(key, "exp") {
        Some(StepKind::Exponential)
    } else if str_eq(key, "power") {
        Some(StepKind::Power)
    } else if str_eq(key, "symmetric_power") {
        Some(StepKind::SymmetricPower)
    } else if str_eq(key, "lowpass") {
        Some(StepKind::LowPass)
    } else {
        None
    }
}

impl TransformationStep {
    /// The kind of the step, and none for a high-pass filter.
    pub fn kind(&self) -> (r: Option<StepKind>)
        ensures
            r is None <==> *self is HighPass,
    {
        match self {
            TransformationStep::Invert { .. } => Some(StepKind::Invert),
            TransformationStep::Integrate { .. } => Some(StepKind::Integrate),
            TransformationStep::Steering { .. } => Some(StepKind::Steering),
            TransformationStep::Clamp { .. } => Some(StepKind::Clamp),
            TransformationStep::PedalSmoother { .. } => Some(StepKind::PedalSmoother),
            TransformationStep::EmaFilter { .. } => Some(StepKind::EmaFilter),
            TransformationStep::Linear { .. } => Some(StepKind::Linear),
            TransformationStep::Quadratic { .. } => Some(StepKind::Quadratic),
            TransformationStep::Cubic { .. } => Some(StepKind::Cubic),
            TransformationStep::Smoothstep { .. } => Some(StepKind::Smoothstep),
            TransformationStep::SCurve { .. } => Some(StepKind::SCurve),
            TransformationStep::Exponential { .. } => Some(StepKind::Exponential),
            TransformationStep::Power { .. } => Some(StepKind::Power),
            TransformationStep::SymmetricPower { .. } => Some(StepKind::SymmetricPower),
            TransformationStep::LowPass { .. } => Some(StepKind::LowPass),
            TransformationStep::HighPass { .. } => None,
        }
    }
}

} // verus!
