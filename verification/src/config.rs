use crate::interval::NumInterval;
use crate::keyed::{find, has_key, lemma_find_none, spec_get};
use crate::schemas::{
    clone_text, text_of, ControlEntry, ControlsPredefined, FFCapabilities, GlobalSettings,
    JoystickControl, JoystickControlPredefined, Mapping, MappingDestination, MappingSource,
    MidiControl, MidiControlPredefined,
    MidiControlView, MidiDevice, MouseControl, MouseControlPredefined, MouseDevice,
    ResolvedJoystickControl, ResolvedMidiDevice, ResolvedMouseControl, ResolvedMouseDevice,
    HoldFactor, ResolvedHoldFactor, ResolvedPedalSmootherTransform,
    ResolvedSteeringTransform, ResolvedTransformationStep, ResolvedVirtualJoystick,
    StepRuntimeStateId, TransformationStep, VirtualJoystick,
};
use vstd::prelude::*;

verus! {

/// Whether a mapping has to be run on idle ticks, once that has been worked out.
#[derive(Debug, Clone, Copy, PartialEq, Eq, Structural)]
pub struct IdleTickRequirementInfo {
    pub is_required: Option<bool>,
}

impl IdleTickRequirementInfo {
    /// The record of a mapping for which nothing has been worked out yet.
    pub fn new() -> (r: IdleTickRequirementInfo)
        ensures
            r.is_required is None,
    {
        IdleTickRequirementInfo { is_required: None }
    }
}

/// The control that a mapping reads: one of a MIDI device or one of a mouse.
#[derive(Debug)]
pub enum ControlReference {
    Midi(MidiControl),
    Mouse(ResolvedMouseControl),
}

/// The control that a mapping reads, by the keys of its device and of itself.
#[derive(Debug)]
pub struct ResolvedMappingSource {
    pub device_key: String,
    pub control_key: String,
    pub control: ControlReference,
}

/// The control that a mapping writes, by the keys of its joystick and of
/// itself.
#[derive(Debug)]
pub struct ResolvedMappingDestination {
    pub device_key: String,
    pub control_key: String,
    pub control: ResolvedJoystickControl,
}

/// A mapping whose source, destination and steps have been looked up.
#[derive(Debug)]
pub struct ResolvedMapping {
    pub name: Option<String>,
    pub enabled: bool,
    pub source: ResolvedMappingSource,
    pub destination: ResolvedMappingDestination,
    pub transformation: Vec<ResolvedTransformationStep>,
    pub idle_tick_requirement_info: IdleTickRequirementInfo,
}

/// Why a configuration could not be resolved.
#[derive(Debug, Clone, Copy, PartialEq, Eq, Structural)]
pub enum ConfigError {
    /// A MIDI control names a predefined control that does not exist.
    UnknownPredefinedMidiControl,
    /// A mouse control names a predefined control that does not exist.
    UnknownPredefinedMouseControl,
    /// A joystick control names a predefined control that does not exist.
    UnknownPredefinedJoystickControl,
    /// A MIDI control says neither itself nor by a predefined control which
    /// messages it listens for.
    MidiControlWithoutMessage,
    /// A mouse control has no type, its own or a predefined one.
    MouseControlWithoutType,
    /// A mouse control has no range, its own or a predefined one.
    MouseControlWithoutRange,
    /// A joystick control has no type, its own or a predefined one.
    JoystickControlWithoutType,
    /// A joystick control has no range, its own or a predefined one.
    JoystickControlWithoutRange,
    /// A hold factor refers to a device or a control that does not exist.
    UnresolvedHoldFactor,
    /// A mapping's source device or control does not exist.
    UnresolvedSource,
    /// A mapping's destination joystick or control does not exist.
    UnresolvedDestination,
    /// No numbers are left to give to the states of steps.
    StateIdsExhausted,
}

/// The configuration as it is read, before anything is looked up.
#[derive(Debug)]
pub struct Config {
    pub global: GlobalSettings,
    pub midi_devices: Option<Vec<(String, MidiDevice)>>,
    pub mouse_devices: Option<Vec<(String, MouseDevice)>>,
    pub virtual_joysticks: Vec<(String, VirtualJoystick)>,
    pub mappings: Vec<Mapping>,
}

/// A field's own value, and the predefined one where it has none.
pub open spec fn spec_own_or<T>(own: Option<T>, predefined: T) -> T {
    match own {
        Some(v) => v,
        None => predefined,
    }
}

/// The predefined control that an entry builds on, if it names one: the
/// shorthand itself, or what a full entry merges from.
pub open spec fn spec_predefined_name<T>(entry: ControlEntry<T>, merge_from: Option<Seq<char>>) -> Option<
    Seq<char>,
> {
    match entry {
        ControlEntry::Shorthand(name) => Some(name@),
        ControlEntry::Full(_) => merge_from,
    }
}

/// The MIDI control that an entry of the configuration stands for. An
/// entry that names a predefined control takes from it each field that it
/// does not set itself; one that names none must say which messages it
/// listens for.
pub open spec fn spec_expand_midi_control(
    predefines: Seq<(String, MidiControlPredefined)>,
    entry: ControlEntry<MidiControl>,
) -> Result<MidiControlView, ConfigError> {
    let base = match entry {
        ControlEntry::Shorthand(_) => MidiControlView {
            merge_from: None,
            midi_message: None,
            range: None,
            description: None,
        },
        ControlEntry::Full(control) => control@,
    };
    match spec_predefined_name(entry, base.merge_from) {
        Some(name) => match spec_get(predefines, name) {
            Some(predefined) => Ok(
                MidiControlView {
                    merge_from: base.merge_from,
                    midi_message: Some(spec_own_or(base.midi_message, predefined.midi_message@)),
                    range: Some(spec_own_or(base.range, predefined.range)),
                    description: Some(spec_own_or(base.description, predefined.description@)),
                },
            ),
            None => Err(ConfigError::UnknownPredefinedMidiControl),
        },
        None => if base.midi_message is None {
            Err(ConfigError::MidiControlWithoutMessage)
        } else {
            Ok(base)
        },
    }
}

/// That `r` is the given outcome, a control being taken by its view.
pub open spec fn is_midi_outcome(
    r: Result<MidiControl, ConfigError>,
    outcome: Result<MidiControlView, ConfigError>,
) -> bool {
    match outcome {
        Ok(view) => r matches Ok(control) && control@ == view,
        Err(e) => r matches Err(f) && f == e,
    }
}

/// The MIDI control that an entry of the configuration stands for.
pub fn expand_midi_control(
    predefines: &Vec<(String, MidiControlPredefined)>,
    entry: &ControlEntry<MidiControl>,
) -> (r:
    Result<MidiControl, ConfigError>)
    ensures
        is_midi_outcome(r, spec_expand_midi_control(predefines@, *entry)),
{
    let (predefined, base): (Option<&str>, MidiControl) = match entry {
        ControlEntry::Shorthand(name) => (
            Some(name.as_str()),
            MidiControl { merge_from: None, midi_message: None, range: None, description: None },
        ),
        ControlEntry::Full(control) => (
            match &control.merge_from {
                Some(name) => Some(name.as_str()),
                None => None,
            },
            control.clone(),
        ),
    };
    match predefined {
        Some(name) => match find(predefines, name) {
            Some(k) => {
                let predefined: &MidiControlPredefined = &predefines[k].1;
                let mut expanded = base;
                if expanded.midi_message.is_none() {
                    expanded.midi_message = Some(predefined.midi_message.clone());
                }
                if expanded.range.is_none() {
                    expanded.range = Some(predefined.range);
                }
                if expanded.description.is_none() {
                    expanded.description = Some(predefined.description.clone());
                }
                Ok(expanded)
            },
            None => Err(ConfigError::UnknownPredefinedMidiControl),
        },
        None => {
            if base.midi_message.is_none() {
                return Err(ConfigError::MidiControlWithoutMessage);
            }
            Ok(base)
        },
    }
}

/// The mouse control that an entry of the configuration stands for. An
/// entry that names a predefined control takes from it each field that it
/// does not set itself; type and range must come from one of the two.
pub open spec fn spec_expand_mouse_control(
    predefines: Seq<(String, MouseControlPredefined)>,
    entry: ControlEntry<MouseControl>,
) -> Result<ResolvedMouseControl, ConfigError> {
    let base = match entry {
        ControlEntry::Shorthand(_) => MouseControl {
            merge_from: None,
            control_type: None,
            range: None,
            description: None,
        },
        ControlEntry::Full(control) => control,
    };
    match spec_predefined_name(entry, text_of(base.merge_from)) {
        Some(name) => match spec_get(predefines, name) {
            Some(predefined) => Ok(
                ResolvedMouseControl {
                    control_type: spec_own_or(base.control_type, predefined.control_type),
                    range: spec_own_or(base.range, predefined.range),
                    description: Some(spec_own_or(base.description, predefined.description)),
                },
            ),
            None => Err(ConfigError::UnknownPredefinedMouseControl),
        },
        None => match base.control_type {
            None => Err(ConfigError::MouseControlWithoutType),
            Some(control_type) => match base.range {
                None => Err(ConfigError::MouseControlWithoutRange),
                Some(range) => Ok(
                    ResolvedMouseControl { control_type, range, description: base.description },
                ),
            },
        },
    }
}

/// The mouse control that an entry of the configuration stands for.
pub fn expand_mouse_control(
    predefines: &Vec<(String, MouseControlPredefined)>,
    entry: &ControlEntry<MouseControl>,
) -> (r:
    Result<ResolvedMouseControl, ConfigError>)
    ensures
        r == spec_expand_mouse_control(predefines@, *entry),
{
    let (predefined, mut control_type, mut range, mut description): (
        Option<&str>,
        Option<crate::control_type::ControlType>,
        Option<NumInterval<i32>>,
        Option<String>,
    ) = match entry {
        ControlEntry::Shorthand(name) => (Some(name.as_str()), None, None, None),
        ControlEntry::Full(control) => (
            match &control.merge_from {
                Some(name) => Some(name.as_str()),
                None => None,
            },
            control.control_type,
            control.range,
            clone_text(&control.description),
        ),
    };
    match predefined {
        Some(name) => match find(predefines, name) {
            Some(k) => {
                let predefined: &MouseControlPredefined = &predefines[k].1;
                if control_type.is_none() {
                    control_type = Some(predefined.control_type);
                }
                if range.is_none() {
                    range = Some(predefined.range);
                }
                if description.is_none() {
                    description = Some(predefined.description.clone());
                }
            },
            None => {
                return Err(ConfigError::UnknownPredefinedMouseControl);
            },
        },
        None => {},
    }
    match control_type {
        None => Err(ConfigError::MouseControlWithoutType),
        Some(control_type) => match range {
            None => Err(ConfigError::MouseControlWithoutRange),
            Some(range) => Ok(ResolvedMouseControl { control_type, range, description }),
        },
    }
}

/// The joystick control that an entry of the configuration stands for. An
/// entry that names a predefined control takes from it type, range and
/// properties where it does not set them itself; the initial value is
/// always the entry's own, and 0 for a shorthand.
pub open spec fn spec_expand_joystick_control(
    predefines: Seq<(String, JoystickControlPredefined)>,
    entry: ControlEntry<JoystickControl>,
) -> Result<ResolvedJoystickControl, ConfigError> {
    let base = match entry {
        ControlEntry::Shorthand(_) => JoystickControl {
            merge_from: None,
            control_type: None,
            range: None,
            properties: None,
            initial_value: 0,
        },
        ControlEntry::Full(control) => control,
    };
    match spec_predefined_name(entry, text_of(base.merge_from)) {
        Some(name) => match spec_get(predefines, name) {
            Some(predefined) => Ok(
                ResolvedJoystickControl {
                    control_type: spec_own_or(base.control_type, predefined.control_type),
                    range: spec_own_or(base.range, predefined.range),
                    properties: match base.properties {
                        Some(p) => Some(p),
                        None => predefined.properties,
                    },
                    initial_value: base.initial_value,
                },
            ),
            None => Err(ConfigError::UnknownPredefinedJoystickControl),
        },
        None => match base.control_type {
            None => Err(ConfigError::JoystickControlWithoutType),
            Some(control_type) => match base.range {
                None => Err(ConfigError::JoystickControlWithoutRange),
                Some(range) => Ok(
                    ResolvedJoystickControl {
                        control_type,
                        range,
                        properties: base.properties,
                        initial_value: base.initial_value,
                    },
                ),
            },
        },
    }
}

/// The joystick control that an entry of the configuration stands for.
pub fn expand_joystick_control(
    predefines: &Vec<(String, JoystickControlPredefined)>,
    entry: &ControlEntry<JoystickControl>,
) -> (r: Result<ResolvedJoystickControl, ConfigError>)
    ensures
        r == spec_expand_joystick_control(predefines@, *entry),
{
    let (predefined, mut control_type, mut range, mut properties, initial_value): (
        Option<&str>,
        Option<crate::control_type::ControlType>,
        Option<NumInterval<i32>>,
        Option<crate::schemas::AxisProperties>,
        i32,
    ) = match entry {
        ControlEntry::Shorthand(name) => (Some(name.as_str()), None, None, None, 0),
        ControlEntry::Full(control) => (
            match &control.merge_from {
                Some(name) => Some(name.as_str()),
                None => None,
            },
            control.control_type,
            control.range,
            control.properties,
            control.initial_value,
        ),
    };
    match predefined {
        Some(name) => match find(predefines, name) {
            Some(k) => {
                let predefined: &JoystickControlPredefined = &predefines[k].1;
                if control_type.is_none() {
                    control_type = Some(predefined.control_type);
                }
                if range.is_none() {
                    range = Some(predefined.range);
                }
                if properties.is_none() {
                    properties = predefined.properties;
                }
            },
            None => {
                return Err(ConfigError::UnknownPredefinedJoystickControl);
            },
        },
        None => {},
    }
    match control_type {
        None => Err(ConfigError::JoystickControlWithoutType),
        Some(control_type) => match range {
            None => Err(ConfigError::JoystickControlWithoutRange),
            Some(range) => Ok(ResolvedJoystickControl { control_type, range, properties, initial_value }),
        },
    }
}

/// That `e` is the error of the first of `len` items that fails, where
/// `error_at` says for each item whether it fails and how.
pub open spec fn is_first_error(
    len: int,
    error_at: spec_fn(int) -> Option<ConfigError>, e: ConfigError,
) -> bool {
    exists|i: int|
        0 <= i < len && #[trigger] error_at(i) == Some(e) && forall|j: int|
            0 <= j < i ==> (#[trigger] error_at(j)) is None
}

/// That none of `len` items fails.
pub open spec fn is_without_error(len: int, error_at: spec_fn(int) -> Option<ConfigError>) -> bool {
    forall|i: int| 0 <= i < len ==> (#[trigger] error_at(i)) is None
}

/// The error of an outcome, if it is one.
pub open spec fn error_of<T>(outcome: Result<T, ConfigError>) -> Option<ConfigError> {
    match outcome {
        Ok(_) => None,
        Err(e) => Some(e),
    }
}

/// Two descriptions of force-feedback capabilities that say the same.
pub open spec fn same_capabilities(a: Option<FFCapabilities>, b: Option<FFCapabilities>) -> bool {
    match (a, b) {
        (None, None) => true,
        (Some(a), Some(b)) => {
            &&& a.enabled == b.enabled
            &&& a.max_effects == b.max_effects
            &&& a.gain == b.gain
            &&& a.autocenter == b.autocenter
            &&& a.effects@.len() == b.effects@.len()
            &&& forall|i: int| 0 <= i < a.effects@.len() ==> (#[trigger] a.effects@[i])@ == b.effects@[i]@
        },
        _ => false,
    }
}

/// A copy of a description of force-feedback capabilities.
pub fn clone_capabilities(capabilities: &Option<FFCapabilities>) -> (r: Option<FFCapabilities>)
    ensures
        same_capabilities(*capabilities, r),
{
    match capabilities {
        None => None,
        Some(c) => {
            let mut effects: Vec<String> = Vec::new();
            let mut i: usize = 0;
            while i < c.effects.len()
                invariant
                    i <= c.effects@.len(),
                    effects@.len() == i,
                    forall|j: int| 0 <= j < i ==> (#[trigger] c.effects@[j])@ == effects@[j]@,
                decreases c.effects@.len() - i,
            {
                effects.push(c.effects[i].clone());
                i += 1;
            }
            Some(
                FFCapabilities {
                    enabled: c.enabled,
                    effects,
                    max_effects: c.max_effects,
                    gain: c.gain,
                    autocenter: c.autocenter,
                },
            )
        },
    }
}

/// Whether the control at place `i` of a midi device fails to expand, and how.
pub open spec fn spec_midi_control_error(
    predefines: Seq<(String, MidiControlPredefined)>,
    controls: Seq<(String, ControlEntry<MidiControl>)>,
    i: int,
) -> Option<ConfigError> {
    error_of(spec_expand_midi_control(predefines, controls[i].1))
}

/// That `r` is the midi device `device` with each control written out
/// in full: the controls keep their keys and their order.
pub open spec fn is_resolved_midi_device(
    r: ResolvedMidiDevice,
    predefines: Seq<(String, MidiControlPredefined)>,
    device: MidiDevice,
) -> bool {
    &&& r.enabled == device.enabled
    &&& r.match_name_regex == device.match_name_regex
    &&& r.controls@.len() == device.controls@.len()
    &&& forall|i: int|
        0 <= i < r.controls@.len() ==> (#[trigger] r.controls@[i]).0@ == device.controls@[i].0@
            && Ok::<MidiControlView, ConfigError>(r.controls@[i].1@)
            == spec_expand_midi_control(predefines, device.controls@[i].1)
}

/// Writes out in full each control of a midi device. The first control
/// that fails to expand fails the device.
pub fn resolve_midi_device(
    predefines: &Vec<(String, MidiControlPredefined)>,
    device: &MidiDevice,
) -> (r: Result<
    ResolvedMidiDevice,
    ConfigError,
>)
    ensures
        r matches Ok(d) ==> is_resolved_midi_device(d, predefines@, *device) && is_without_error(
            device.controls@.len() as int,
            |i: int| spec_midi_control_error(predefines@, device.controls@, i),
        ),
        r matches Err(e) ==> is_first_error(
            device.controls@.len() as int,
            |i: int| spec_midi_control_error(predefines@, device.controls@, i),
            e,
        ),
{
    let ghost error_at = |i: int| spec_midi_control_error(predefines@, device.controls@, i);
    let mut controls: Vec<(String, MidiControl)> = Vec::new();
    let mut k: usize = 0;
    while k < device.controls.len()
        invariant
            k <= device.controls@.len(),
            controls@.len() == k,
            error_at == (|i: int| spec_midi_control_error(predefines@, device.controls@, i)),
            forall|i: int| 0 <= i < k ==> (#[trigger] error_at(i)) is None,
            forall|i: int|
                0 <= i < k ==> (#[trigger] controls@[i]).0@ == device.controls@[i].0@
                    && Ok::<MidiControlView, ConfigError>(controls@[i].1@)
                    == spec_expand_midi_control(predefines@, device.controls@[i].1),
        decreases device.controls@.len() - k,
    {
        match expand_midi_control(predefines, &device.controls[k].1) {
            Ok(control) => {
                assert(error_at(k as int) is None);
                controls.push((device.controls[k].0.clone(), control));
            },
            Err(e) => {
                assert(error_at(k as int) == Some(e));
                return Err(e);
            },
        }
        k += 1;
    }
    Ok(ResolvedMidiDevice {
            enabled: device.enabled,
            match_name_regex: clone_text(&device.match_name_regex),
            controls,
        },
    )
}

/// Whether the midi device at place `i` fails to resolve with the error `e`.
pub open spec fn midi_device_fails(
    predefines: Seq<(String, MidiControlPredefined)>,
    devices: Seq<(String, MidiDevice)>,
    i: int,
    e: ConfigError,
) -> bool {
    is_first_error(
        devices[i].1.controls@.len() as int,
        |c: int| spec_midi_control_error(predefines, devices[i].1.controls@, c),
        e,
    )
}

/// Whether the midi device at place `i` resolves.
pub open spec fn midi_device_resolves(
    predefines: Seq<(String, MidiControlPredefined)>,
    devices: Seq<(String, MidiDevice)>,
    i: int,
) -> bool {
    is_without_error(
        devices[i].1.controls@.len() as int,
        |c: int| spec_midi_control_error(predefines, devices[i].1.controls@, c),
    )
}

/// That the first of the midi devices that fails to resolve fails with `e`.
pub open spec fn midi_devices_fail(
    predefines: Seq<(String, MidiControlPredefined)>,
    devices: Seq<(String, MidiDevice)>,
    e: ConfigError,
) -> bool {
    exists|i: int|
        0 <= i < devices.len() && #[trigger] midi_device_fails(predefines, devices, i, e) && forall|j: int|
            0 <= j < i ==> #[trigger] midi_device_resolves(predefines, devices, j)
}

/// That all the midi devices resolve.
pub open spec fn midi_devices_resolve(
    predefines: Seq<(String, MidiControlPredefined)>,
    devices: Seq<(String, MidiDevice)>,
) -> bool {
    forall|i: int| 0 <= i < devices.len() ==> #[trigger] midi_device_resolves(predefines, devices, i)
}

/// That `r` holds the midi devices of `devices`, each resolved, under
/// their keys and in their order.
pub open spec fn are_resolved_midi_devices(
    r: Seq<(String, ResolvedMidiDevice)>,
    predefines: Seq<(String, MidiControlPredefined)>,
    devices: Seq<(String, MidiDevice)>,
) -> bool {
    &&& r.len() == devices.len()
    &&& forall|i: int|
        0 <= i < r.len() ==> (#[trigger] r[i]).0@ == devices[i].0@ && is_resolved_midi_device(
            r[i].1,
            predefines,
            devices[i].1,
        )
}

/// Resolves the midi devices, in their order.
pub fn resolve_midi_devices(
    predefines: &Vec<(String, MidiControlPredefined)>,
    devices: &Vec<(String, MidiDevice)>,
) -> (r:
    Result<Vec<(String, ResolvedMidiDevice)>, ConfigError>)
    ensures
        r matches Ok(list) ==> are_resolved_midi_devices(list@, predefines@, devices@)
            && midi_devices_resolve(predefines@, devices@),
        r matches Err(e) ==> midi_devices_fail(predefines@, devices@, e),
{
    let mut list: Vec<(String, ResolvedMidiDevice)> = Vec::new();
    let mut k: usize = 0;
    while k < devices.len()
        invariant
            k <= devices@.len(),
            list@.len() == k,
            forall|i: int| 0 <= i < k ==> #[trigger] midi_device_resolves(predefines@, devices@, i),
            forall|i: int|
                0 <= i < k ==> (#[trigger] list@[i]).0@ == devices@[i].0@ && is_resolved_midi_device(
                    list@[i].1,
                    predefines@,
                    devices@[i].1,
                ),
        decreases devices@.len() - k,
    {
        match resolve_midi_device(predefines, &devices[k].1) {
            Ok(device) => {
                assert(midi_device_resolves(predefines@, devices@, k as int));
                list.push((devices[k].0.clone(), device));
            },
            Err(e) => {
                assert(midi_device_fails(predefines@, devices@, k as int, e));
                return Err(e);
            },
        }
        k += 1;
    }
    Ok(list)
}

/// Whether the control at place `i` of a mouse device fails to expand, and how.
pub open spec fn spec_mouse_control_error(
    predefines: Seq<(String, MouseControlPredefined)>,
    controls: Seq<(String, ControlEntry<MouseControl>)>,
    i: int,
) -> Option<ConfigError> {
    error_of(spec_expand_mouse_control(predefines, controls[i].1))
}

/// That `r` is the mouse device `device` with each control written out
/// in full: the controls keep their keys and their order.
pub open spec fn is_resolved_mouse_device(
    r: ResolvedMouseDevice,
    predefines: Seq<(String, MouseControlPredefined)>,
    device: MouseDevice,
) -> bool {
    &&& r.enabled == device.enabled
    &&& r.match_name_regex == device.match_name_regex
    &&& r.controls@.len() == device.controls@.len()
    &&& forall|i: int|
        0 <= i < r.controls@.len() ==> (#[trigger] r.controls@[i]).0@ == device.controls@[i].0@
            && Ok::<ResolvedMouseControl, ConfigError>(r.controls@[i].1)
            == spec_expand_mouse_control(predefines, device.controls@[i].1)
}

/// Writes out in full each control of a mouse device. The first control
/// that fails to expand fails the device.
pub fn resolve_mouse_device(
    predefines: &Vec<(String, MouseControlPredefined)>,
    device: &MouseDevice,
) -> (r: Result<
    ResolvedMouseDevice,
    ConfigError,
>)
    ensures
        r matches Ok(d) ==> is_resolved_mouse_device(d, predefines@, *device) && is_without_error(
            device.controls@.len() as int,
            |i: int| spec_mouse_control_error(predefines@, device.controls@, i),
        ),
        r matches Err(e) ==> is_first_error(
            device.controls@.len() as int,
            |i: int| spec_mouse_control_error(predefines@, device.controls@, i),
            e,
        ),
{
    let ghost error_at = |i: int| spec_mouse_control_error(predefines@, device.controls@, i);
    let mut controls: Vec<(String, ResolvedMouseControl)> = Vec::new();
    let mut k: usize = 0;
    while k < device.controls.len()
        invariant
            k <= device.controls@.len(),
            controls@.len() == k,
            error_at == (|i: int| spec_mouse_control_error(predefines@, device.controls@, i)),
            forall|i: int| 0 <= i < k ==> (#[trigger] error_at(i)) is None,
            forall|i: int|
                0 <= i < k ==> (#[trigger] controls@[i]).0@ == device.controls@[i].0@
                    && Ok::<ResolvedMouseControl, ConfigError>(controls@[i].1)
                    == spec_expand_mouse_control(predefines@, device.controls@[i].1),
        decreases device.controls@.len() - k,
    {
        match expand_mouse_control(predefines, &device.controls[k].1) {
            Ok(control) => {
                assert(error_at(k as int) is None);
                controls.push((device.controls[k].0.clone(), control));
            },
            Err(e) => {
                assert(error_at(k as int) == Some(e));
                return Err(e);
            },
        }
        k += 1;
    }
    Ok(ResolvedMouseDevice {
            enabled: device.enabled,
            match_name_regex: clone_text(&device.match_name_regex),
            controls,
        },
    )
}

/// Whether the mouse device at place `i` fails to resolve with the error `e`.
pub open spec fn mouse_device_fails(
    predefines: Seq<(String, MouseControlPredefined)>,
    devices: Seq<(String, MouseDevice)>,
    i: int,
    e: ConfigError,
) -> bool {
    is_first_error(
        devices[i].1.controls@.len() as int,
        |c: int| spec_mouse_control_error(predefines, devices[i].1.controls@, c),
        e,
    )
}

/// Whether the mouse device at place `i` resolves.
pub open spec fn mouse_device_resolves(
    predefines: Seq<(String, MouseControlPredefined)>,
    devices: Seq<(String, MouseDevice)>,
    i: int,
) -> bool {
    is_without_error(
        devices[i].1.controls@.len() as int,
        |c: int| spec_mouse_control_error(predefines, devices[i].1.controls@, c),
    )
}

/// That the first of the mouse devices that fails to resolve fails with `e`.
pub open spec fn mouse_devices_fail(
    predefines: Seq<(String, MouseControlPredefined)>,
    devices: Seq<(String, MouseDevice)>,
    e: ConfigError,
) -> bool {
    exists|i: int|
        0 <= i < devices.len() && #[trigger] mouse_device_fails(predefines, devices, i, e) && forall|j: int|
            0 <= j < i ==> #[trigger] mouse_device_resolves(predefines, devices, j)
}

/// That all the mouse devices resolve.
pub open spec fn mouse_devices_resolve(
    predefines: Seq<(String, MouseControlPredefined)>,
    devices: Seq<(String, MouseDevice)>,
) -> bool {
    forall|i: int| 0 <= i < devices.len() ==> #[trigger] mouse_device_resolves(predefines, devices, i)
}

/// That `r` holds the mouse devices of `devices`, each resolved, under
/// their keys and in their order.
pub open spec fn are_resolved_mouse_devices(
    r: Seq<(String, ResolvedMouseDevice)>,
    predefines: Seq<(String, MouseControlPredefined)>,
    devices: Seq<(String, MouseDevice)>,
) -> bool {
    &&& r.len() == devices.len()
    &&& forall|i: int|
        0 <= i < r.len() ==> (#[trigger] r[i]).0@ == devices[i].0@ && is_resolved_mouse_device(
            r[i].1,
            predefines,
            devices[i].1,
        )
}

/// Resolves the mouse devices, in their order.
pub fn resolve_mouse_devices(
    predefines: &Vec<(String, MouseControlPredefined)>,
    devices: &Vec<(String, MouseDevice)>,
) -> (r:
    Result<Vec<(String, ResolvedMouseDevice)>, ConfigError>)
    ensures
        r matches Ok(list) ==> are_resolved_mouse_devices(list@, predefines@, devices@)
            && mouse_devices_resolve(predefines@, devices@),
        r matches Err(e) ==> mouse_devices_fail(predefines@, devices@, e),
{
    let mut list: Vec<(String, ResolvedMouseDevice)> = Vec::new();
    let mut k: usize = 0;
    while k < devices.len()
        invariant
            k <= devices@.len(),
            list@.len() == k,
            forall|i: int| 0 <= i < k ==> #[trigger] mouse_device_resolves(predefines@, devices@, i),
            forall|i: int|
                0 <= i < k ==> (#[trigger] list@[i]).0@ == devices@[i].0@ && is_resolved_mouse_device(
                    list@[i].1,
                    predefines@,
                    devices@[i].1,
                ),
        decreases devices@.len() - k,
    {
        match resolve_mouse_device(predefines, &devices[k].1) {
            Ok(device) => {
                assert(mouse_device_resolves(predefines@, devices@, k as int));
                list.push((devices[k].0.clone(), device));
            },
            Err(e) => {
                assert(mouse_device_fails(predefines@, devices@, k as int, e));
                return Err(e);
            },
        }
        k += 1;
    }
    Ok(list)
}

/// Whether the control at place `i` of a joystick device fails to expand, and how.
pub open spec fn spec_joystick_control_error(
    predefines: Seq<(String, JoystickControlPredefined)>,
    controls: Seq<(String, ControlEntry<JoystickControl>)>,
    i: int,
) -> Option<ConfigError> {
    error_of(spec_expand_joystick_control(predefines, controls[i].1))
}

/// That `r` is the joystick device `device` with each control written out
/// in full: the controls keep their keys and their order.
pub open spec fn is_resolved_joystick_device(
    r: ResolvedVirtualJoystick,
    predefines: Seq<(String, JoystickControlPredefined)>,
    device: VirtualJoystick,
    global: GlobalSettings,
) -> bool {
    &&& r.enabled == spec_own_or(device.enabled, true)
    &&& r.persistent == spec_own_or(device.persistent, global.persistent_joysticks)
    &&& r.name == device.name
    &&& r.properties == device.properties
    &&& same_capabilities(device.force_feedback, r.force_feedback)
    &&& r.controls@.len() == device.controls@.len()
    &&& forall|i: int|
        0 <= i < r.controls@.len() ==> (#[trigger] r.controls@[i]).0@ == device.controls@[i].0@
            && Ok::<ResolvedJoystickControl, ConfigError>(r.controls@[i].1)
            == spec_expand_joystick_control(predefines, device.controls@[i].1)
}

/// Writes out in full each control of a joystick device. The first control
/// that fails to expand fails the device.
pub fn resolve_virtual_joystick(
    predefines: &Vec<(String, JoystickControlPredefined)>,
    device: &VirtualJoystick,
    global: &GlobalSettings,
) -> (r: Result<
    ResolvedVirtualJoystick,
    ConfigError,
>)
    ensures
        r matches Ok(d) ==> is_resolved_joystick_device(d, predefines@, *device, *global) && is_without_error(
            device.controls@.len() as int,
            |i: int| spec_joystick_control_error(predefines@, device.controls@, i),
        ),
        r matches Err(e) ==> is_first_error(
            device.controls@.len() as int,
            |i: int| spec_joystick_control_error(predefines@, device.controls@, i),
            e,
        ),
{
    let ghost error_at = |i: int| spec_joystick_control_error(predefines@, device.controls@, i);
    let mut controls: Vec<(String, ResolvedJoystickControl)> = Vec::new();
    let mut k: usize = 0;
    while k < device.controls.len()
        invariant
            k <= device.controls@.len(),
            controls@.len() == k,
            error_at == (|i: int| spec_joystick_control_error(predefines@, device.controls@, i)),
            forall|i: int| 0 <= i < k ==> (#[trigger] error_at(i)) is None,
            forall|i: int|
                0 <= i < k ==> (#[trigger] controls@[i]).0@ == device.controls@[i].0@
                    && Ok::<ResolvedJoystickControl, ConfigError>(controls@[i].1)
                    == spec_expand_joystick_control(predefines@, device.controls@[i].1),
        decreases device.controls@.len() - k,
    {
        match expand_joystick_control(predefines, &device.controls[k].1) {
            Ok(control) => {
                assert(error_at(k as int) is None);
                controls.push((device.controls[k].0.clone(), control));
            },
            Err(e) => {
                assert(error_at(k as int) == Some(e));
                return Err(e);
            },
        }
        k += 1;
    }
    Ok(ResolvedVirtualJoystick {
            enabled: match device.enabled {
                Some(b) => b,
                None => true,
            },
            persistent: match device.persistent {
                Some(b) => b,
                None => global.persistent_joysticks,
            },
            name: device.name.clone(),
            properties: device.properties,
            controls,
            force_feedback: clone_capabilities(&device.force_feedback),
        },
    )
}

/// Whether the joystick device at place `i` fails to resolve with the error `e`.
pub open spec fn joystick_device_fails(
    predefines: Seq<(String, JoystickControlPredefined)>,
    devices: Seq<(String, VirtualJoystick)>,
    i: int,
    e: ConfigError,
) -> bool {
    is_first_error(
        devices[i].1.controls@.len() as int,
        |c: int| spec_joystick_control_error(predefines, devices[i].1.controls@, c),
        e,
    )
}

/// Whether the joystick device at place `i` resolves.
pub open spec fn joystick_device_resolves(
    predefines: Seq<(String, JoystickControlPredefined)>,
    devices: Seq<(String, VirtualJoystick)>,
    i: int,
) -> bool {
    is_without_error(
        devices[i].1.controls@.len() as int,
        |c: int| spec_joystick_control_error(predefines, devices[i].1.controls@, c),
    )
}

/// That the first of the joystick devices that fails to resolve fails with `e`.
pub open spec fn joystick_devices_fail(
    predefines: Seq<(String, JoystickControlPredefined)>,
    devices: Seq<(String, VirtualJoystick)>,
    e: ConfigError,
) -> bool {
    exists|i: int|
        0 <= i < devices.len() && #[trigger] joystick_device_fails(predefines, devices, i, e) && forall|j: int|
            0 <= j < i ==> #[trigger] joystick_device_resolves(predefines, devices, j)
}

/// That all the joystick devices resolve.
pub open spec fn joystick_devices_resolve(
    predefines: Seq<(String, JoystickControlPredefined)>,
    devices: Seq<(String, VirtualJoystick)>,
) -> bool {
    forall|i: int| 0 <= i < devices.len() ==> #[trigger] joystick_device_resolves(predefines, devices, i)
}

/// That `r` holds the joystick devices of `devices`, each resolved, under
/// their keys and in their order.
pub open spec fn are_resolved_joystick_devices(
    r: Seq<(String, ResolvedVirtualJoystick)>,
    predefines: Seq<(String, JoystickControlPredefined)>,
    devices: Seq<(String, VirtualJoystick)>,
    global: GlobalSettings,
) -> bool {
    &&& r.len() == devices.len()
    &&& forall|i: int|
        0 <= i < r.len() ==> (#[trigger] r[i]).0@ == devices[i].0@ && is_resolved_joystick_device(
            r[i].1,
            predefines,
            devices[i].1,
            global,
        )
}

/// Resolves the joystick devices, in their order.
pub fn resolve_virtual_joysticks(
    predefines: &Vec<(String, JoystickControlPredefined)>,
    devices: &Vec<(String, VirtualJoystick)>,
    global: &GlobalSettings,
) -> (r:
    Result<Vec<(String, ResolvedVirtualJoystick)>, ConfigError>)
    ensures
        r matches Ok(list) ==> are_resolved_joystick_devices(list@, predefines@, devices@, *global)
            && joystick_devices_resolve(predefines@, devices@),
        r matches Err(e) ==> joystick_devices_fail(predefines@, devices@, e),
{
    let mut list: Vec<(String, ResolvedVirtualJoystick)> = Vec::new();
    let mut k: usize = 0;
    while k < devices.len()
        invariant
            k <= devices@.len(),
            list@.len() == k,
            forall|i: int| 0 <= i < k ==> #[trigger] joystick_device_resolves(predefines@, devices@, i),
            forall|i: int|
                0 <= i < k ==> (#[trigger] list@[i]).0@ == devices@[i].0@ && is_resolved_joystick_device(
                    list@[i].1,
                    predefines@,
                    devices@[i].1, *global,
                ),
        decreases devices@.len() - k,
    {
        match resolve_virtual_joystick(predefines, &devices[k].1, global) {
            Ok(device) => {
                assert(joystick_device_resolves(predefines@, devices@, k as int));
                list.push((devices[k].0.clone(), device));
            },
            Err(e) => {
                assert(joystick_device_fails(predefines@, devices@, k as int, e));
                return Err(e);
            },
        }
        k += 1;
    }
    Ok(list)
}

/// The devices of a configuration with their controls written out in full.
#[derive(Debug)]
pub struct ResolvedDevices {
    pub midi: Vec<(String, ResolvedMidiDevice)>,
    pub mouse: Vec<(String, ResolvedMouseDevice)>,
    pub joysticks: Vec<(String, ResolvedVirtualJoystick)>,
}

/// The control `control` of the MIDI device `device`, if both exist.
pub open spec fn spec_midi_control(
    devices: Seq<(String, ResolvedMidiDevice)>,
    device: Seq<char>,
    control: Seq<char>,
) -> Option<MidiControl> {
    match spec_get(devices, device) {
        Some(d) => spec_get(d.controls@, control),
        None => None,
    }
}

/// The control `control` of the mouse `device`, if both exist.
pub open spec fn spec_mouse_control(
    devices: Seq<(String, ResolvedMouseDevice)>,
    device: Seq<char>,
    control: Seq<char>,
) -> Option<ResolvedMouseControl> {
    match spec_get(devices, device) {
        Some(d) => spec_get(d.controls@, control),
        None => None,
    }
}

/// The control `control` of the joystick `device`, if both exist.
pub open spec fn spec_joystick_control(
    devices: Seq<(String, ResolvedVirtualJoystick)>,
    device: Seq<char>,
    control: Seq<char>,
) -> Option<ResolvedJoystickControl> {
    match spec_get(devices, device) {
        Some(d) => spec_get(d.controls@, control),
        None => None,
    }
}

impl ResolvedDevices {
    /// The range of the control `control` of the device `device`. A MIDI
    /// control is looked for first, and what it says of its range stands,
    /// even where it says nothing; then a mouse control; then a control of
    /// a joystick.
    pub open spec fn spec_lookup_control_range(self, device: Seq<char>, control: Seq<char>) -> Option<
        NumInterval<i32>,
    > {
        match spec_midi_control(self.midi@, device, control) {
            Some(c) => c.range,
            None => match spec_mouse_control(self.mouse@, device, control) {
                Some(c) => Some(c.range),
                None => match spec_joystick_control(self.joysticks@, device, control) {
                    Some(c) => Some(c.range),
                    None => None,
                },
            },
        }
    }

    /// The MIDI control `control` of the device `device`, if both exist.
    pub fn midi_control(&self, device: &str, control: &str) -> (r: Option<&MidiControl>)
        ensures
            r matches Some(c) ==> spec_midi_control(self.midi@, device@, control@) == Some(*c),
            r is None ==> spec_midi_control(self.midi@, device@, control@) is None,
    {
        match find(&self.midi, device) {
            Some(d) => match find(&self.midi[d].1.controls, control) {
                Some(c) => Some(&self.midi[d].1.controls[c].1),
                None => None,
            },
            None => None,
        }
    }

    /// The mouse control `control` of the device `device`, if both exist.
    pub fn mouse_control(&self, device: &str, control: &str) -> (r: Option<&ResolvedMouseControl>)
        ensures
            r matches Some(c) ==> spec_mouse_control(self.mouse@, device@, control@) == Some(*c),
            r is None ==> spec_mouse_control(self.mouse@, device@, control@) is None,
    {
        match find(&self.mouse, device) {
            Some(d) => match find(&self.mouse[d].1.controls, control) {
                Some(c) => Some(&self.mouse[d].1.controls[c].1),
                None => None,
            },
            None => None,
        }
    }

    /// The control `control` of the joystick `device`, if both exist.
    pub fn joystick_control(&self, device: &str, control: &str) -> (r: Option<&ResolvedJoystickControl>)
        ensures
            r matches Some(c) ==> spec_joystick_control(self.joysticks@, device@, control@) == Some(*c),
            r is None ==> spec_joystick_control(self.joysticks@, device@, control@) is None,
    {
        match find(&self.joysticks, device) {
            Some(d) => match find(&self.joysticks[d].1.controls, control) {
                Some(c) => Some(&self.joysticks[d].1.controls[c].1),
                None => None,
            },
            None => None,
        }
    }

    /// The range of the control `control_key` of the device `device_key`.
    pub fn lookup_control_range(&self, device_key: &str, control_key: &str) -> (r: Option<NumInterval<i32>>)
        ensures
            r == self.spec_lookup_control_range(device_key@, control_key@),
    {
        match self.midi_control(device_key, control_key) {
            Some(c) => {
                return c.range;
            },
            None => {},
        }
        match self.mouse_control(device_key, control_key) {
            Some(c) => {
                return Some(c.range);
            },
            None => {},
        }
        match self.joystick_control(device_key, control_key) {
            Some(c) => Some(c.range),
            None => None,
        }
    }

    /// The hold factor with its reference looked up. A reference to a
    /// control whose range cannot be found is an error.
    pub open spec fn spec_resolve_hold_factor(self, factor: Option<HoldFactor>) -> Result<
        Option<ResolvedHoldFactor>,
        ConfigError,
    > {
        match factor {
            None => Ok(None),
            Some(HoldFactor::Value(v)) => Ok(Some(ResolvedHoldFactor::Value(v))),
            Some(HoldFactor::Reference { device, control }) => match self.spec_lookup_control_range(
                device@,
                control@,
            ) {
                Some(range) => Ok(Some(ResolvedHoldFactor::Reference { device, control, range })),
                None => Err(ConfigError::UnresolvedHoldFactor),
            },
        }
    }

    /// The hold factor with its reference looked up.
    pub fn resolve_hold_factor(&self, factor: &Option<HoldFactor>) -> (r: Result<
        Option<ResolvedHoldFactor>,
        ConfigError,
    >)
        ensures
            r == self.spec_resolve_hold_factor(*factor),
    {
        match factor {
            None => Ok(None),
            Some(HoldFactor::Value(v)) => Ok(Some(ResolvedHoldFactor::Value(*v))),
            Some(HoldFactor::Reference { device, control }) => match self.lookup_control_range(
                device.as_str(),
                control.as_str(),
            ) {
                Some(range) => Ok(
                    Some(
                        ResolvedHoldFactor::Reference {
                            device: device.clone(),
                            control: control.clone(),
                            range,
                        },
                    ),
                ),
                None => Err(ConfigError::UnresolvedHoldFactor),
            },
        }
    }

    /// The step made ready to run, with the numbers from `first_id` on
    /// given to its states: a steering step takes two, one for itself and
    /// the next for its filter; every other step that keeps state takes
    /// one; the rest take none. Where the numbers do not reach, or a hold
    /// factor cannot be resolved, the step fails.
    pub open spec fn spec_resolve_step(self, step: TransformationStep, first_id: int) -> Result<
        ResolvedTransformationStep,
        ConfigError,
    > {
        if first_id + spec_ids_needed(step) > usize::MAX {
            Err(ConfigError::StateIdsExhausted)
        } else {
            let runtime_state_id = first_id as usize;
            match step {
                TransformationStep::Steering { steering } => match self.spec_resolve_hold_factor(
                    steering.hold_factor,
                ) {
                    Ok(hold_factor) => Ok(
                        ResolvedTransformationStep::Steering {
                            runtime_state_id,
                            steering: ResolvedSteeringTransform {
                                counts_to_lock: steering.counts_to_lock,
                                deadzone_counts: steering.deadzone_counts,
                                smoothing_alpha: steering.smoothing_alpha,
                                auto_center_halflife: steering.auto_center_halflife,
                                hold_factor,
                                force_feedback: steering.force_feedback,
                                user_input_power_curve: steering.user_input_power_curve,
                                user_input_ema_filter_runtime_state_id: (first_id + 1) as usize,
                                user_input_ema_filter_average: steering.user_input_ema_filter,
                            },
                        },
                    ),
                    Err(e) => Err(e),
                },
                TransformationStep::PedalSmoother { pedal_smoother } => match self.spec_resolve_hold_factor(
                    pedal_smoother.fall_gentling_factor,
                ) {
                    Ok(fall_gentling_factor) => Ok(
                        ResolvedTransformationStep::PedalSmoother {
                            runtime_state_id,
                            pedal_smoother: ResolvedPedalSmootherTransform {
                                rise_rate: pedal_smoother.rise_rate,
                                fall_rate: pedal_smoother.fall_rate,
                                smoothing_alpha: pedal_smoother.smoothing_alpha,
                                fall_delay: pedal_smoother.fall_delay,
                                fall_gentling_factor,
                            },
                        },
                    ),
                    Err(e) => Err(e),
                },
                TransformationStep::Invert { invert } => Ok(ResolvedTransformationStep::Invert { invert }),
                TransformationStep::Integrate { integrate } => Ok(
                    ResolvedTransformationStep::Integrate { runtime_state_id, integrate },
                ),
                TransformationStep::Clamp { clamp } => Ok(ResolvedTransformationStep::Clamp { clamp }),
                TransformationStep::EmaFilter { ema_filter } => Ok(
                    ResolvedTransformationStep::EmaFilter { runtime_state_id, ema_filter },
                ),
                TransformationStep::Linear { linear } => Ok(ResolvedTransformationStep::Linear { linear }),
                TransformationStep::Quadratic { quadratic_curve } => Ok(
                    ResolvedTransformationStep::Quadratic { quadratic_curve },
                ),
                TransformationStep::Cubic { cubic_curve } => Ok(
                    ResolvedTransformationStep::Cubic { cubic_curve },
                ),
                TransformationStep::Smoothstep { smoothstep_curve } => Ok(
                    ResolvedTransformationStep::Smoothstep { smoothstep_curve },
                ),
                TransformationStep::SCurve { s_curve } => Ok(ResolvedTransformationStep::SCurve { s_curve }),
                TransformationStep::Exponential { exp_curve } => Ok(
                    ResolvedTransformationStep::Exponential { exp_curve },
                ),
                TransformationStep::Power { power_curve } => Ok(
                    ResolvedTransformationStep::Power { power_curve },
                ),
                TransformationStep::SymmetricPower { symmetric_power_curve } => Ok(
                    ResolvedTransformationStep::SymmetricPower { symmetric_power_curve },
                ),
                TransformationStep::LowPass { lowpass } => Ok(
                    ResolvedTransformationStep::LowPass { runtime_state_id, lowpass },
                ),
                TransformationStep::HighPass { highpass } => Ok(
                    ResolvedTransformationStep::HighPass { runtime_state_id, highpass },
                ),
            }
        }
    }

    /// Makes the step ready to run, and takes from `ids` the numbers for
    /// its states.
    pub fn resolve_transformation_step(&self, step: &TransformationStep, ids: &mut StateIdSource) -> (r:
        Result<ResolvedTransformationStep, ConfigError>)
        ensures
            r == self.spec_resolve_step(*step, old(ids).next as int),
            r is Ok ==> final(ids).next == old(ids).next + spec_ids_needed(*step),
            r is Err ==> final(ids).next == old(ids).next,
    {
        let needed: usize = ids_needed(step);
        if needed > usize::MAX - ids.next {
            return Err(ConfigError::StateIdsExhausted);
        }
        let runtime_state_id: StepRuntimeStateId = ids.next;
        let r = match step {
            TransformationStep::Steering { steering } => match self.resolve_hold_factor(&steering.hold_factor) {
                Ok(hold_factor) => Ok(
                    ResolvedTransformationStep::Steering {
                        runtime_state_id,
                        steering: ResolvedSteeringTransform {
                            counts_to_lock: steering.counts_to_lock,
                            deadzone_counts: steering.deadzone_counts,
                            smoothing_alpha: steering.smoothing_alpha,
                            auto_center_halflife: steering.auto_center_halflife,
                            hold_factor,
                            force_feedback: match &steering.force_feedback {
                                Some(f) => Some(f.clone()),
                                None => None,
                            },
                            user_input_power_curve: steering.user_input_power_curve,
                            user_input_ema_filter_runtime_state_id: runtime_state_id + 1,
                            user_input_ema_filter_average: steering.user_input_ema_filter,
                        },
                    },
                ),
                Err(e) => Err(e),
            },
            TransformationStep::PedalSmoother { pedal_smoother } => match self.resolve_hold_factor(
                &pedal_smoother.fall_gentling_factor,
            ) {
                Ok(fall_gentling_factor) => Ok(
                    ResolvedTransformationStep::PedalSmoother {
                        runtime_state_id,
                        pedal_smoother: ResolvedPedalSmootherTransform {
                            rise_rate: pedal_smoother.rise_rate,
                            fall_rate: pedal_smoother.fall_rate,
                            smoothing_alpha: pedal_smoother.smoothing_alpha,
                            fall_delay: pedal_smoother.fall_delay,
                            fall_gentling_factor,
                        },
                    },
                ),
                Err(e) => Err(e),
            },
            TransformationStep::Invert { invert } => Ok(ResolvedTransformationStep::Invert { invert: *invert }),
            TransformationStep::Integrate { integrate } => Ok(
                ResolvedTransformationStep::Integrate { runtime_state_id, integrate: *integrate },
            ),
            TransformationStep::Clamp { clamp } => Ok(ResolvedTransformationStep::Clamp { clamp: *clamp }),
            TransformationStep::EmaFilter { ema_filter } => Ok(
                ResolvedTransformationStep::EmaFilter { runtime_state_id, ema_filter: *ema_filter },
            ),
            TransformationStep::Linear { linear } => Ok(ResolvedTransformationStep::Linear { linear: *linear }),
            TransformationStep::Quadratic { quadratic_curve } => Ok(
                ResolvedTransformationStep::Quadratic { quadratic_curve: *quadratic_curve },
            ),
            TransformationStep::Cubic { cubic_curve } => Ok(
                ResolvedTransformationStep::Cubic { cubic_curve: *cubic_curve },
            ),
            TransformationStep::Smoothstep { smoothstep_curve } => Ok(
                ResolvedTransformationStep::Smoothstep { smoothstep_curve: *smoothstep_curve },
            ),
            TransformationStep::SCurve { s_curve } => Ok(ResolvedTransformationStep::SCurve { s_curve: *s_curve }),
            TransformationStep::Exponential { exp_curve } => Ok(
                ResolvedTransformationStep::Exponential { exp_curve: *exp_curve },
            ),
            TransformationStep::Power { power_curve } => Ok(
                ResolvedTransformationStep::Power { power_curve: *power_curve },
            ),
            TransformationStep::SymmetricPower { symmetric_power_curve } => Ok(
                ResolvedTransformationStep::SymmetricPower { symmetric_power_curve: *symmetric_power_curve },
            ),
            TransformationStep::LowPass { lowpass } => Ok(
                ResolvedTransformationStep::LowPass { runtime_state_id, lowpass: *lowpass },
            ),
            TransformationStep::HighPass { highpass } => Ok(
                ResolvedTransformationStep::HighPass { runtime_state_id, highpass: *highpass },
            ),
        };
        if r.is_ok() {
            ids.next = ids.next + needed;
        }
        r
    }
}

/// Where the numbers for the states of steps come from: each number is
/// given out once.
#[derive(Debug, Clone, Copy, PartialEq, Eq, Structural)]
pub struct StateIdSource {
    /// The next number to give out.
    pub next: StepRuntimeStateId,
}

/// How many numbers the step takes for its states.
pub open spec fn spec_ids_needed(step: TransformationStep) -> nat {
    match step {
        TransformationStep::Steering { .. } => 2,
        TransformationStep::PedalSmoother { .. } => 1,
        TransformationStep::Integrate { .. } => 1,
        TransformationStep::EmaFilter { .. } => 1,
        TransformationStep::LowPass { .. } => 1,
        TransformationStep::HighPass { .. } => 1,
        _ => 0,
    }
}

/// How many numbers the step takes for its states.
pub fn ids_needed(step: &TransformationStep) -> (n: usize)
    ensures
        n == spec_ids_needed(*step),
{
    match step {
        TransformationStep::Steering { .. } => 2,
        TransformationStep::PedalSmoother { .. } => 1,
        TransformationStep::Integrate { .. } => 1,
        TransformationStep::EmaFilter { .. } => 1,
        TransformationStep::LowPass { .. } => 1,
        TransformationStep::HighPass { .. } => 1,
        _ => 0,
    }
}

/// How many numbers the steps before place `i` take for their states.
pub open spec fn spec_ids_before(steps: Seq<TransformationStep>, i: int) -> nat
    decreases i,
{
    if i <= 0 {
        0
    } else {
        spec_ids_before(steps, i - 1) + spec_ids_needed(steps[i - 1])
    }
}

/// How many numbers the steps take for their states.
pub open spec fn spec_ids_of(steps: Seq<TransformationStep>) -> nat {
    spec_ids_before(steps, steps.len() as int)
}

impl ResolvedDevices {
    /// What resolving the step at place `i` of `steps` comes to, when the
    /// first of the steps is given the number `start`.
    pub open spec fn spec_resolve_step_at(
        self,
        steps: Seq<TransformationStep>,
        start: int,
        i: int,
    ) -> Result<
        ResolvedTransformationStep,
        ConfigError,
    > {
        self.spec_resolve_step(steps[i], start + spec_ids_before(steps, i))
    }

    /// That `resolved` holds the steps of `steps`, each made ready to run,
    /// with numbers from `start` on given to their states in order.
    pub open spec fn are_resolved_steps(
        self,
        resolved: Seq<ResolvedTransformationStep>,
        steps: Seq<TransformationStep>,
        start: int,
    ) -> bool {
        &&& resolved.len() == steps.len()
        &&& forall|i: int|
            0 <= i < steps.len() ==> Ok::<ResolvedTransformationStep, ConfigError>(#[trigger] resolved[i])
                == self.spec_resolve_step_at(steps, start, i)
    }

    /// Makes the steps ready to run, in order, and takes from `ids` the
    /// numbers for their states. The first step that fails fails them all.
    pub fn resolve_transformation(
        &self,
        transformation: &Vec<TransformationStep>,
        ids: &mut StateIdSource,
    ) -> (r:
        Result<Vec<ResolvedTransformationStep>, ConfigError>)
        ensures
            r matches Ok(resolved) ==> self.are_resolved_steps(
                resolved@,
                transformation@,
                old(ids).next as int,
            ) && final(ids).next == old(ids).next + spec_ids_of(transformation@),
            r matches Err(e) ==> is_first_error(
                transformation@.len() as int,
                |i: int| error_of(self.spec_resolve_step_at(transformation@, old(ids).next as int, i)),
                e,
            ) && final(ids).next >= old(ids).next,
    {
        let ghost start = ids.next as int;
        let ghost error_at = |i: int| error_of(self.spec_resolve_step_at(transformation@, start, i));
        let mut resolved: Vec<ResolvedTransformationStep> = Vec::new();
        let mut k: usize = 0;
        while k < transformation.len()
            invariant
                k <= transformation@.len(),
                resolved@.len() == k,
                start == old(ids).next,
                ids.next == start + spec_ids_before(transformation@, k as int),
                error_at == (|i: int| error_of(self.spec_resolve_step_at(transformation@, start, i))),
                forall|i: int| 0 <= i < k ==> (#[trigger] error_at(i)) is None,
                forall|i: int|
                    0 <= i < k ==> Ok::<ResolvedTransformationStep, ConfigError>(#[trigger] resolved@[i])
                        == self.spec_resolve_step_at(transformation@, start, i),
            decreases transformation@.len() - k,
        {
            match self.resolve_transformation_step(&transformation[k], ids) {
                Ok(step) => {
                    assert(error_at(k as int) is None);
                    resolved.push(step);
                },
                Err(e) => {
                    assert(error_at(k as int) == Some(e));
                    return Err(e);
                },
            }
            k += 1;
        }
        Ok(resolved)
    }

    /// That `r` is the source `source` with its control looked up: a MIDI
    /// control where the device is a MIDI device that has it, and otherwise
    /// a mouse control where the device is a mouse that has it.
    pub open spec fn is_resolved_source(
        self,
        r: Result<ResolvedMappingSource, ConfigError>,
        source: MappingSource,
    ) -> bool {
        match spec_midi_control(self.midi@, source.device@, source.control@) {
            Some(control) => {
                &&& r matches Ok(s)
                &&& s.device_key == source.device
                &&& s.control_key == source.control
                &&& s.control matches ControlReference::Midi(c)
                &&& c@ == control@
            },
            None => match spec_mouse_control(self.mouse@, source.device@, source.control@) {
                Some(control) => {
                    &&& r matches Ok(s)
                    &&& s.device_key == source.device
                    &&& s.control_key == source.control
                    &&& s.control matches ControlReference::Mouse(c)
                    &&& c == control
                },
                None => r matches Err(e) && e == ConfigError::UnresolvedSource,
            },
        }
    }

    /// Whether the source names a control that exists.
    pub open spec fn spec_source_exists(self, source: MappingSource) -> bool {
        spec_midi_control(self.midi@, source.device@, source.control@) is Some || spec_mouse_control(
            self.mouse@,
            source.device@,
            source.control@,
        ) is Some
    }

    /// Looks up the control that a mapping reads.
    pub fn resolve_source(&self, source: &MappingSource) -> (r: Result<ResolvedMappingSource, ConfigError>)
        ensures
            self.is_resolved_source(r, *source),
            r is Ok <==> self.spec_source_exists(*source),
    {
        match self.midi_control(source.device.as_str(), source.control.as_str()) {
            Some(control) => {
                return Ok(
                    ResolvedMappingSource {
                        device_key: source.device.clone(),
                        control_key: source.control.clone(),
                        control: ControlReference::Midi(control.clone()),
                    },
                );
            },
            None => {},
        }
        match self.mouse_control(source.device.as_str(), source.control.as_str()) {
            Some(control) => Ok(
                ResolvedMappingSource {
                    device_key: source.device.clone(),
                    control_key: source.control.clone(),
                    control: ControlReference::Mouse(control.clone()),
                },
            ),
            None => Err(ConfigError::UnresolvedSource),
        }
    }

    /// The destination `destination` with its control looked up.
    pub open spec fn spec_resolve_destination(self, destination: MappingDestination) -> Result<
        ResolvedMappingDestination,
        ConfigError,
    > {
        match spec_joystick_control(self.joysticks@, destination.joystick@, destination.control@) {
            Some(control) => Ok(
                ResolvedMappingDestination {
                    device_key: destination.joystick,
                    control_key: destination.control,
                    control,
                },
            ),
            None => Err(ConfigError::UnresolvedDestination),
        }
    }

    /// Looks up the control that a mapping writes.
    pub fn resolve_destination(&self, dest: &MappingDestination) -> (r: Result<
        ResolvedMappingDestination,
        ConfigError,
    >)
        ensures
            r == self.spec_resolve_destination(*dest),
    {
        match self.joystick_control(dest.joystick.as_str(), dest.control.as_str()) {
            Some(control) => Ok(
                ResolvedMappingDestination {
                    device_key: dest.joystick.clone(),
                    control_key: dest.control.clone(),
                    control: *control,
                },
            ),
            None => Err(ConfigError::UnresolvedDestination),
        }
    }

    /// That `r` is the mapping `mapping` resolved, with numbers from
    /// `start` on given to the states of its steps.
    pub open spec fn is_resolved_mapping(self, r: ResolvedMapping, mapping: Mapping, start: int) -> bool {
        &&& r.name == mapping.name
        &&& r.enabled == mapping.enabled
        &&& self.is_resolved_source(Ok(r.source), mapping.source)
        &&& Ok::<ResolvedMappingDestination, ConfigError>(r.destination) == self.spec_resolve_destination(
            mapping.destination,
        )
        &&& self.are_resolved_steps(r.transformation@, mapping.transformation@, start)
        &&& r.idle_tick_requirement_info.is_required is None
    }

    /// Whether resolving the mapping fails with the error `e`, when the
    /// first of its steps is given the number `start`: for want of its
    /// source, else for want of its destination, else as the first of its
    /// steps that fails.
    pub open spec fn mapping_fails(self, mapping: Mapping, start: int, e: ConfigError) -> bool {
        if !self.spec_source_exists(mapping.source) {
            e == ConfigError::UnresolvedSource
        } else if self.spec_resolve_destination(mapping.destination) is Err {
            e == ConfigError::UnresolvedDestination
        } else {
            is_first_error(
                mapping.transformation@.len() as int,
                |i: int| error_of(self.spec_resolve_step_at(mapping.transformation@, start, i)),
                e,
            )
        }
    }

    /// Resolves one mapping, and takes from `ids` the numbers for the
    /// states of its steps.
    pub fn resolve_mapping(&self, mapping: &Mapping, ids: &mut StateIdSource) -> (r: Result<
        ResolvedMapping,
        ConfigError,
    >)
        ensures
            r matches Ok(resolved) ==> self.is_resolved_mapping(resolved, *mapping, old(ids).next as int)
                && final(ids).next == old(ids).next + spec_ids_of(mapping.transformation@),
            r matches Err(e) ==> self.mapping_fails(*mapping, old(ids).next as int, e) && final(ids).next
                >= old(ids).next,
    {
        let source = match self.resolve_source(&mapping.source) {
            Ok(source) => source,
            Err(e) => {
                return Err(e);
            },
        };
        let destination = match self.resolve_destination(&mapping.destination) {
            Ok(destination) => destination,
            Err(e) => {
                return Err(e);
            },
        };
        let transformation = match self.resolve_transformation(&mapping.transformation, ids) {
            Ok(transformation) => transformation,
            Err(e) => {
                return Err(e);
            },
        };
        Ok(
            ResolvedMapping {
                name: clone_text(&mapping.name),
                enabled: mapping.enabled,
                source,
                destination,
                transformation,
                idle_tick_requirement_info: IdleTickRequirementInfo::new(),
            },
        )
    }
}

/// How many numbers the enabled mappings before place `i` take for the
/// states of their steps.
pub open spec fn spec_mapping_ids_before(mappings: Seq<Mapping>, i: int) -> nat
    decreases i,
{
    if i <= 0 {
        0
    } else {
        spec_mapping_ids_before(mappings, i - 1) + if mappings[i - 1].enabled {
            spec_ids_of(mappings[i - 1].transformation@)
        } else {
            0
        }
    }
}

/// How many of the mappings before place `i` are enabled.
pub open spec fn spec_enabled_before(mappings: Seq<Mapping>, i: int) -> nat
    decreases i,
{
    if i <= 0 {
        0
    } else {
        spec_enabled_before(mappings, i - 1) + if mappings[i - 1].enabled {
            1nat
        } else {
            0nat
        }
    }
}

impl ResolvedDevices {
    /// That `resolved` holds the enabled mappings of `mappings`, each
    /// resolved, in their order, with numbers from `start` on given to the
    /// states of their steps in order: the mapping at place `i`, where it is
    /// enabled, stands in `resolved` at the place that counts the enabled
    /// mappings before it.
    pub open spec fn are_resolved_mappings(
        self,
        resolved: Seq<ResolvedMapping>,
        mappings: Seq<Mapping>,
        start: int,
    ) -> bool {
        &&& resolved.len() == spec_enabled_before(mappings, mappings.len() as int)
        &&& forall|i: int|
            0 <= i < mappings.len() && (#[trigger] mappings[i]).enabled ==> spec_enabled_before(mappings, i)
                < resolved.len() && self.is_resolved_mapping(
                resolved[spec_enabled_before(mappings, i) as int],
                mappings[i],
                start + spec_mapping_ids_before(mappings, i),
            )
    }

    /// Whether the mapping at place `i` is enabled and fails to resolve
    /// with the error `e`.
    pub open spec fn mapping_fails_at(
        self,
        mappings: Seq<Mapping>,
        start: int,
        i: int,
        e: ConfigError,
    ) -> bool {
        mappings[i].enabled && self.mapping_fails(mappings[i], start + spec_mapping_ids_before(mappings, i), e)
    }

    /// Whether the mapping at place `i` is disabled or resolves.
    pub open spec fn mapping_passes_at(self, mappings: Seq<Mapping>, start: int, i: int) -> bool {
        mappings[i].enabled ==> exists|r: ResolvedMapping| #[trigger]
            self.is_resolved_mapping(r, mappings[i], start + spec_mapping_ids_before(mappings, i))
    }

    /// Resolves the enabled mappings, in their order, and takes from `ids`
    /// the numbers for the states of their steps. Disabled mappings are
    /// left out. The first mapping that fails fails them all.
    pub fn resolve_mappings(&self, mappings: &Vec<Mapping>, ids: &mut StateIdSource) -> (r: Result<
        Vec<ResolvedMapping>,
        ConfigError,
    >)
        ensures
            r matches Ok(resolved) ==> self.are_resolved_mappings(resolved@, mappings@, old(ids).next as int)
                && final(ids).next == old(ids).next + spec_mapping_ids_before(
                mappings@,
                mappings@.len() as int,
            ),
            r matches Err(e) ==> exists|i: int|
                0 <= i < mappings@.len() && #[trigger] self.mapping_fails_at(
                    mappings@,
                    old(ids).next as int,
                    i,
                    e,
                ) && forall|j: int|
                    0 <= j < i ==> #[trigger] self.mapping_passes_at(mappings@, old(ids).next as int, j),
            final(ids).next >= old(ids).next,
    {
        let ghost start = ids.next as int;
        let mut resolved: Vec<ResolvedMapping> = Vec::new();
        let mut k: usize = 0;
        while k < mappings.len()
            invariant
                k <= mappings@.len(),
                start == old(ids).next,
                ids.next == start + spec_mapping_ids_before(mappings@, k as int),
                resolved@.len() == spec_enabled_before(mappings@, k as int),
                forall|j: int| 0 <= j < k ==> #[trigger] self.mapping_passes_at(mappings@, start, j),
                forall|i: int|
                    0 <= i < k && (#[trigger] mappings@[i]).enabled ==> spec_enabled_before(mappings@, i)
                        < resolved@.len() && self.is_resolved_mapping(
                        resolved@[spec_enabled_before(mappings@, i) as int],
                        mappings@[i],
                        start + spec_mapping_ids_before(mappings@, i),
                    ),
            decreases mappings@.len() - k,
        {
            if mappings[k].enabled {
                let ghost before = resolved@;
                match self.resolve_mapping(&mappings[k], ids) {
                    Ok(mapping) => {
                        resolved.push(mapping);
                        proof {
                            assert(self.is_resolved_mapping(
                                mapping,
                                mappings@[k as int],
                                start + spec_mapping_ids_before(mappings@, k as int),
                            ));
                            assert(self.mapping_passes_at(mappings@, start, k as int));
                            assert forall|i: int|
                                0 <= i < k + 1 && (#[trigger] mappings@[i]).enabled implies spec_enabled_before(
                                mappings@,
                                i,
                            ) < resolved@.len() && self.is_resolved_mapping(
                                resolved@[spec_enabled_before(mappings@, i) as int],
                                mappings@[i],
                                start + spec_mapping_ids_before(mappings@, i),
                            ) by {
                                lemma_enabled_before_grows(mappings@, i, k as int);
                                if i < k {
                                    assert(resolved@[spec_enabled_before(mappings@, i) as int]
                                        == before[spec_enabled_before(mappings@, i) as int]);
                                }
                            }
                        }
                    },
                    Err(e) => {
                        assert(self.mapping_fails_at(mappings@, start, k as int, e));
                        return Err(e);
                    },
                }
            } else {
                assert(self.mapping_passes_at(mappings@, start, k as int));
            }
            k += 1;
        }
        Ok(resolved)
    }
}

/// The count of enabled mappings before a place does not fall as the place rises.
pub proof fn lemma_enabled_before_grows(mappings: Seq<Mapping>, i: int, k: int)
    requires
        0 <= i <= k,
    ensures
        spec_enabled_before(mappings, i) <= spec_enabled_before(mappings, k),
    decreases k - i,
{
    if i < k {
        lemma_enabled_before_grows(mappings, i, k - 1);
    }
}

/// The numbers under which a step's states are filed: two for a steering
/// step, its own and its filter's; one for any other step that keeps
/// state; none for the rest.
pub open spec fn spec_state_ids(step: ResolvedTransformationStep) -> Seq<StepRuntimeStateId> {
    match step {
        ResolvedTransformationStep::Steering { runtime_state_id, steering } => seq![
            runtime_state_id,
            steering.user_input_ema_filter_runtime_state_id,
        ],
        ResolvedTransformationStep::PedalSmoother { runtime_state_id, .. } => seq![runtime_state_id],
        ResolvedTransformationStep::Integrate { runtime_state_id, .. } => seq![runtime_state_id],
        ResolvedTransformationStep::EmaFilter { runtime_state_id, .. } => seq![runtime_state_id],
        ResolvedTransformationStep::LowPass { runtime_state_id, .. } => seq![runtime_state_id],
        ResolvedTransformationStep::HighPass { runtime_state_id, .. } => seq![runtime_state_id],
        _ => seq![],
    }
}

/// Whether `p` is the place in the configuration of the mapping that
/// stands resolved at place `m`.
pub open spec fn is_place_of(mappings: Seq<Mapping>, m: int, p: int) -> bool {
    0 <= p < mappings.len() && mappings[p].enabled && spec_enabled_before(mappings, p) == m
}

/// A resolved step's states are filed under the numbers that follow the
/// first one given to the step.
pub proof fn lemma_step_ids(
    devices: ResolvedDevices,
    step: TransformationStep,
    first_id: int,
    resolved: ResolvedTransformationStep,
    k: int,
)
    requires
        first_id >= 0,
        Ok::<ResolvedTransformationStep, ConfigError>(resolved) == devices.spec_resolve_step(step, first_id),
        0 <= k < spec_state_ids(resolved).len(),
    ensures
        spec_state_ids(resolved).len() == spec_ids_needed(step),
        spec_state_ids(resolved)[k] == first_id + k,
{
}

/// The numbers taken before a step leave room for those of every earlier step.
pub proof fn lemma_ids_before_grows(steps: Seq<TransformationStep>, i: int, j: int)
    requires
        0 <= i < j,
    ensures
        spec_ids_before(steps, i) + spec_ids_needed(steps[i]) <= spec_ids_before(steps, j),
    decreases j - i,
{
    if i + 1 < j {
        lemma_ids_before_grows(steps, i, j - 1);
    }
}

/// The numbers taken before a mapping leave room for those of every
/// earlier enabled mapping.
pub proof fn lemma_mapping_ids_before_grows(mappings: Seq<Mapping>, i: int, j: int)
    requires
        0 <= i < j,
        mappings[i].enabled,
    ensures
        spec_mapping_ids_before(mappings, i) + spec_ids_of(mappings[i].transformation@)
            <= spec_mapping_ids_before(mappings, j),
        spec_enabled_before(mappings, i) < spec_enabled_before(mappings, j),
    decreases j - i,
{
    if i + 1 < j {
        lemma_mapping_ids_before_grows(mappings, i, j - 1);
    }
}

/// Every resolved mapping comes from an enabled mapping of the configuration.
pub proof fn lemma_place_exists(mappings: Seq<Mapping>, m: int, n: int)
    requires
        0 <= n <= mappings.len(),
        0 <= m < spec_enabled_before(mappings, n),
    ensures
        exists|p: int| #[trigger] is_place_of(mappings, m, p),
    decreases n,
{
    if m < spec_enabled_before(mappings, n - 1) {
        lemma_place_exists(mappings, m, n - 1);
    } else {
        assert(is_place_of(mappings, m, n - 1));
    }
}

/// No number is given to two states: of the states of all the steps of all
/// the resolved mappings, any two are filed under different numbers.
pub proof fn lemma_state_ids_are_unique(
    devices: ResolvedDevices,
    resolved: Seq<ResolvedMapping>,
    mappings: Seq<Mapping>,
    start: int,
    m1: int,
    s1: int,
    k1: int,
    m2: int,
    s2: int,
    k2: int,
)
    requires
        start >= 0,
        devices.are_resolved_mappings(resolved, mappings, start),
        0 <= m1 < resolved.len(),
        0 <= s1 < resolved[m1].transformation@.len(),
        0 <= k1 < spec_state_ids(resolved[m1].transformation@[s1]).len(),
        0 <= m2 < resolved.len(),
        0 <= s2 < resolved[m2].transformation@.len(),
        0 <= k2 < spec_state_ids(resolved[m2].transformation@[s2]).len(),
        m1 != m2 || s1 != s2 || k1 != k2,
    ensures
        spec_state_ids(resolved[m1].transformation@[s1])[k1] != spec_state_ids(
            resolved[m2].transformation@[s2],
        )[k2],
{
    lemma_place_exists(mappings, m1, mappings.len() as int);
    lemma_place_exists(mappings, m2, mappings.len() as int);
    let place1 = choose|p: int| #[trigger] is_place_of(mappings, m1, p);
    let place2 = choose|p: int| #[trigger] is_place_of(mappings, m2, p);
    let first1 = start + spec_mapping_ids_before(mappings, place1);
    let first2 = start + spec_mapping_ids_before(mappings, place2);
    let steps1 = mappings[place1].transformation@;
    let steps2 = mappings[place2].transformation@;
    assert(devices.is_resolved_mapping(resolved[m1], mappings[place1], first1));
    assert(devices.is_resolved_mapping(resolved[m2], mappings[place2], first2));
    let r1 = resolved[m1].transformation@[s1];
    let r2 = resolved[m2].transformation@[s2];
    assert(Ok::<ResolvedTransformationStep, ConfigError>(r1) == devices.spec_resolve_step_at(
        steps1,
        first1,
        s1,
    ));
    assert(Ok::<ResolvedTransformationStep, ConfigError>(r2) == devices.spec_resolve_step_at(
        steps2,
        first2,
        s2,
    ));
    lemma_step_ids(devices, steps1[s1], first1 + spec_ids_before(steps1, s1), r1, k1);
    lemma_step_ids(devices, steps2[s2], first2 + spec_ids_before(steps2, s2), r2, k2);
    lemma_ids_before_grows(steps1, s1, steps1.len() as int);
    lemma_ids_before_grows(steps2, s2, steps2.len() as int);
    if place1 < place2 {
        lemma_mapping_ids_before_grows(mappings, place1, place2);
    } else if place2 < place1 {
        lemma_mapping_ids_before_grows(mappings, place2, place1);
    } else {
        if s1 < s2 {
            lemma_ids_before_grows(steps1, s1, s2);
        } else if s2 < s1 {
            lemma_ids_before_grows(steps1, s2, s1);
        }
    }
}

/// What is wrong with a reference that a mapping makes.
#[derive(Debug, Clone, Copy, PartialEq, Eq, Structural)]
pub enum ValidationIssueKind {
    /// The source device is neither a MIDI device nor a mouse.
    UnknownDevice,
    /// The source device is a MIDI device without the source control.
    UnknownControl,
    /// The destination joystick does not exist.
    UnknownJoystick,
    /// The destination joystick has no such control.
    UnknownJoystickControl,
}

/// A reference of a mapping that leads nowhere.
#[derive(Debug, Clone, Copy, PartialEq, Eq, Structural)]
pub struct ValidationIssue {
    /// The place of the mapping in the configuration.
    pub mapping: usize,
    pub kind: ValidationIssueKind,
}

/// Whether the devices, where there are any, hold the key.
pub open spec fn spec_has_device<T>(devices: Option<Vec<(String, T)>>, key: Seq<char>) -> bool {
    match devices {
        Some(list) => has_key(list@, key),
        None => false,
    }
}

impl Config {
    /// What is wrong with the source of the mapping: its device must be
    /// configured as a MIDI device or as a mouse, and a MIDI device must
    /// have the control. The controls of a mouse are not looked at.
    pub open spec fn spec_source_issue(self, mapping: Mapping) -> Option<ValidationIssueKind> {
        let in_midi = spec_has_device(self.midi_devices, mapping.source.device@);
        let in_mouse = spec_has_device(self.mouse_devices, mapping.source.device@);
        if !in_midi && !in_mouse {
            Some(ValidationIssueKind::UnknownDevice)
        } else if in_midi && !has_key(
            spec_get(self.midi_devices->0@, mapping.source.device@)->0.controls@,
            mapping.source.control@,
        ) {
            Some(ValidationIssueKind::UnknownControl)
        } else {
            None
        }
    }

    /// What is wrong with the destination of the mapping: its joystick
    /// must be configured and must have the control.
    pub open spec fn spec_destination_issue(self, mapping: Mapping) -> Option<ValidationIssueKind> {
        match spec_get(self.virtual_joysticks@, mapping.destination.joystick@) {
            None => Some(ValidationIssueKind::UnknownJoystick),
            Some(joystick) => if has_key(joystick.controls@, mapping.destination.control@) {
                None
            } else {
                Some(ValidationIssueKind::UnknownJoystickControl)
            },
        }
    }

    /// What is wrong with the mapping at place `i`: with its source, then
    /// with its destination.
    pub open spec fn spec_issues_at(self, i: int) -> Seq<ValidationIssue> {
        let of_source = match self.spec_source_issue(self.mappings@[i]) {
            Some(kind) => seq![ValidationIssue { mapping: i as usize, kind }],
            None => seq![],
        };
        let of_destination = match self.spec_destination_issue(self.mappings@[i]) {
            Some(kind) => seq![ValidationIssue { mapping: i as usize, kind }],
            None => seq![],
        };
        of_source + of_destination
    }

    /// What is wrong with the mappings before place `n`, in their order.
    pub open spec fn spec_issues_before(self, n: int) -> Seq<ValidationIssue>
        decreases n,
    {
        if n <= 0 {
            Seq::empty()
        } else {
            self.spec_issues_before(n - 1) + self.spec_issues_at(n - 1)
        }
    }

    /// What is wrong with the source of the mapping.
    pub fn source_issue(&self, mapping: &Mapping) -> (r: Option<ValidationIssueKind>)
        ensures
            r == self.spec_source_issue(*mapping),
    {
        let midi_place = match &self.midi_devices {
            Some(list) => {
                proof {
                    lemma_find_none(list@, mapping.source.device@);
                }
                match find(list, mapping.source.device.as_str()) {
                    Some(k) => Some((list, k)),
                    None => None,
                }
            },
            None => None,
        };
        let in_mouse = match &self.mouse_devices {
            Some(list) => crate::keyed::contains_key(list, mapping.source.device.as_str()),
            None => false,
        };
        match midi_place {
            None => if in_mouse {
                None
            } else {
                Some(ValidationIssueKind::UnknownDevice)
            },
            Some((list, k)) => if crate::keyed::contains_key(&list[k].1.controls, mapping.source.control.as_str()) {
                None
            } else {
                Some(ValidationIssueKind::UnknownControl)
            },
        }
    }

    /// What is wrong with the destination of the mapping.
    pub fn destination_issue(&self, mapping: &Mapping) -> (r: Option<ValidationIssueKind>)
        ensures
            r == self.spec_destination_issue(*mapping),
    {
        match find(&self.virtual_joysticks, mapping.destination.joystick.as_str()) {
            None => Some(ValidationIssueKind::UnknownJoystick),
            Some(k) => if crate::keyed::contains_key(
                &self.virtual_joysticks[k].1.controls,
                mapping.destination.control.as_str(),
            ) {
                None
            } else {
                Some(ValidationIssueKind::UnknownJoystickControl)
            },
        }
    }

    /// Checks the references of all mappings, enabled or not, and lists
    /// those that lead nowhere, mapping by mapping.
    pub fn validate(&self) -> (issues: Vec<ValidationIssue>)
        ensures
            issues@ == self.spec_issues_before(self.mappings@.len() as int),
    {
        let mut issues: Vec<ValidationIssue> = Vec::new();
        let mut i: usize = 0;
        while i < self.mappings.len()
            invariant
                i <= self.mappings@.len(),
                issues@ == self.spec_issues_before(i as int),
            decreases self.mappings@.len() - i,
        {
            let ghost before = issues@;
            match self.source_issue(&self.mappings[i]) {
                Some(kind) => {
                    issues.push(ValidationIssue { mapping: i, kind });
                },
                None => {},
            }
            let ghost middle = issues@;
            match self.destination_issue(&self.mappings[i]) {
                Some(kind) => {
                    issues.push(ValidationIssue { mapping: i, kind });
                },
                None => {},
            }
            proof {
                assert(issues@ =~= before + self.spec_issues_at(i as int));
            }
            i += 1;
        }
        issues
    }
}

/// The lines of a text to show around a place where reading it failed:
/// those from line `line0` to line `line0 + after`, both counted from 0, as
/// far as the text has them. The result is the first line to show and the
/// line after the last.
pub fn context_window(line0: usize, after: usize, line_count: usize) -> (r: (usize, usize))
    ensures
        r.0 <= r.1 <= line_count,
        r.0 == if line0 < line_count {
            line0
        } else {
            line_count
        },
        r.1 == if line0 + after < line_count {
            line0 + after + 1
        } else {
            line_count as int
        },
{
    if line0 >= line_count {
        (line_count, line_count)
    } else if after >= line_count - line0 {
        (line0, line_count)
    } else {
        (line0, line0 + after + 1)
    }
}

/// The devices of one kind, and none where the configuration leaves the
/// kind out.
pub open spec fn spec_devices<T>(devices: Option<Vec<(String, T)>>) -> Seq<(String, T)> {
    match devices {
        Some(list) => list@,
        None => Seq::empty(),
    }
}

/// A configuration together with what has been resolved of it.
#[derive(Debug)]
pub struct ConfigManager {
    pub config: Config,
    pub predefines: ControlsPredefined,
    pub mappings: Vec<ResolvedMapping>,
    pub devices: ResolvedDevices,
}

impl ConfigManager {
    /// That the resolved devices are those of the configuration.
    pub open spec fn devices_are_resolved(self) -> bool {
        &&& are_resolved_midi_devices(
            self.devices.midi@,
            self.predefines.midi_controls@,
            spec_devices(self.config.midi_devices),
        )
        &&& are_resolved_mouse_devices(
            self.devices.mouse@,
            self.predefines.mouse_controls@,
            spec_devices(self.config.mouse_devices),
        )
        &&& are_resolved_joystick_devices(
            self.devices.joysticks@,
            self.predefines.joystick_controls@,
            self.config.virtual_joysticks@,
            self.config.global,
        )
    }

    /// Whether resolving the devices fails with the error `e`: as the
    /// first MIDI device that fails, else the first mouse, else the first
    /// joystick.
    pub open spec fn devices_fail(self, e: ConfigError) -> bool {
        let midi = spec_devices(self.config.midi_devices);
        let mouse = spec_devices(self.config.mouse_devices);
        if !midi_devices_resolve(self.predefines.midi_controls@, midi) {
            midi_devices_fail(self.predefines.midi_controls@, midi, e)
        } else if !mouse_devices_resolve(self.predefines.mouse_controls@, mouse) {
            mouse_devices_fail(self.predefines.mouse_controls@, mouse, e)
        } else {
            joystick_devices_fail(
                self.predefines.joystick_controls@,
                self.config.virtual_joysticks@,
                e,
            )
        }
    }

    /// A manager of the configuration with nothing resolved yet.
    pub fn new(config: Config, predefines: ControlsPredefined) -> (r: Self)
        ensures
            r.config == config,
            r.predefines == predefines,
            r.mappings@.len() == 0,
            r.devices.midi@.len() == 0,
            r.devices.mouse@.len() == 0,
            r.devices.joysticks@.len() == 0,
    {
        ConfigManager {
            config,
            predefines,
            mappings: Vec::new(),
            devices: ResolvedDevices { midi: Vec::new(), mouse: Vec::new(), joysticks: Vec::new() },
        }
    }

    /// Resolves the devices of the configuration: the MIDI devices, then
    /// the mice, then the joysticks. Where one fails, nothing changes.
    pub fn resolve_all_devices(&mut self) -> (r: Result<(), ConfigError>)
        ensures
            final(self).config == old(self).config,
            final(self).predefines == old(self).predefines,
            final(self).mappings == old(self).mappings,
            r is Ok ==> final(self).devices_are_resolved(),
            r matches Err(e) ==> old(self).devices_fail(e) && final(self).devices == old(self).devices,
    {
        let midi = match &self.config.midi_devices {
            Some(list) => match resolve_midi_devices(&self.predefines.midi_controls, list) {
                Ok(midi) => midi,
                Err(e) => {
                    proof {
                        lemma_failing_devices_do_not_resolve_midi(
                            self.predefines.midi_controls@,
                            list@,
                            e,
                        );
                    }
                    return Err(e);
                },
            },
            None => Vec::new(),
        };
        let mouse = match &self.config.mouse_devices {
            Some(list) => match resolve_mouse_devices(&self.predefines.mouse_controls, list) {
                Ok(mouse) => mouse,
                Err(e) => {
                    proof {
                        lemma_failing_devices_do_not_resolve_mouse(
                            self.predefines.mouse_controls@,
                            list@,
                            e,
                        );
                    }
                    return Err(e);
                },
            },
            None => Vec::new(),
        };
        let joysticks = match resolve_virtual_joysticks(
            &self.predefines.joystick_controls,
            &self.config.virtual_joysticks,
            &self.config.global,
        ) {
            Ok(joysticks) => joysticks,
            Err(e) => {
                return Err(e);
            },
        };
        self.devices = ResolvedDevices { midi, mouse, joysticks };
        Ok(())
    }

    /// Whether resolving the mappings fails with the error `e`, when the
    /// numbers for the states of steps start at `start`: as the first
    /// enabled mapping that fails.
    pub open spec fn mappings_fail(self, start: int, e: ConfigError) -> bool {
        exists|i: int|
            0 <= i < self.config.mappings@.len() && #[trigger] self.devices.mapping_fails_at(
                self.config.mappings@,
                start,
                i,
                e,
            ) && forall|j: int|
                0 <= j < i ==> #[trigger] self.devices.mapping_passes_at(self.config.mappings@, start, j)
    }

    /// Resolves the configuration: its devices, then its mappings, for
    /// whose steps the numbers are taken from `ids`. Where the devices fail,
    /// nothing changes; where the mappings fail, the devices stay resolved
    /// and the mappings are those from before.
    pub fn load(&mut self, ids: &mut StateIdSource) -> (r: Result<(), ConfigError>)
        ensures
            final(self).config == old(self).config,
            final(self).predefines == old(self).predefines,
            final(ids).next >= old(ids).next,
            r is Ok ==> final(self).devices_are_resolved() && final(self).devices.are_resolved_mappings(
                final(self).mappings@,
                old(self).config.mappings@,
                old(ids).next as int,
            ) && final(ids).next == old(ids).next + spec_mapping_ids_before(
                old(self).config.mappings@,
                old(self).config.mappings@.len() as int,
            ),
            r matches Err(e) ==> final(self).mappings == old(self).mappings && {
                ||| old(self).devices_fail(e) && final(self).devices == old(self).devices && final(ids).next
                    == old(ids).next
                ||| final(self).devices_are_resolved() && final(self).mappings_fail(old(ids).next as int, e)
            },
    {
        match self.resolve_all_devices() {
            Ok(()) => {},
            Err(e) => {
                return Err(e);
            },
        }
        match self.devices.resolve_mappings(&self.config.mappings, ids) {
            Ok(mappings) => {
                self.mappings = mappings;
                Ok(())
            },
            Err(e) => Err(e),
        }
    }

    /// The configuration as it was read.
    pub fn get_config(&self) -> (r: &Config)
        ensures
            *r == self.config,
    {
        &self.config
    }

    /// The resolved mappings.
    pub fn get_mappings(&self) -> (r: &Vec<ResolvedMapping>)
        ensures
            *r == self.mappings,
    {
        &self.mappings
    }

    /// The resolved joystick that is configured under `key`.
    pub fn get_resolved_virtual_joystick(&self, key: &str) -> (r: Option<&ResolvedVirtualJoystick>)
        ensures
            r matches Some(j) ==> spec_get(self.devices.joysticks@, key@) == Some(*j),
            r is None ==> spec_get(self.devices.joysticks@, key@) is None,
    {
        crate::keyed::get(&self.devices.joysticks, key)
    }

    /// The resolved joysticks, each under its key.
    pub fn get_resolved_virtual_joysticks(&self) -> (r: &Vec<(String, ResolvedVirtualJoystick)>)
        ensures
            *r == self.devices.joysticks,
    {
        &self.devices.joysticks
    }

    /// The resolved MIDI device that is configured under `key`.
    pub fn get_resolved_midi_device(&self, key: &str) -> (r: Option<&ResolvedMidiDevice>)
        ensures
            r matches Some(d) ==> spec_get(self.devices.midi@, key@) == Some(*d),
            r is None ==> spec_get(self.devices.midi@, key@) is None,
    {
        crate::keyed::get(&self.devices.midi, key)
    }

    /// The resolved mouse that is configured under `key`.
    pub fn get_resolved_mouse_device(&self, key: &str) -> (r: Option<&ResolvedMouseDevice>)
        ensures
            r matches Some(d) ==> spec_get(self.devices.mouse@, key@) == Some(*d),
            r is None ==> spec_get(self.devices.mouse@, key@) is None,
    {
        crate::keyed::get(&self.devices.mouse, key)
    }
}

/// Where the first MIDI device that fails fails with some error, not all
/// MIDI devices resolve.
pub proof fn lemma_failing_devices_do_not_resolve_midi(
    predefines: Seq<(String, MidiControlPredefined)>,
    devices: Seq<(String, MidiDevice)>,
    e: ConfigError,
)
    requires
        midi_devices_fail(predefines, devices, e),
    ensures
        !midi_devices_resolve(predefines, devices),
{
    let i = choose|i: int|
        0 <= i < devices.len() && #[trigger] midi_device_fails(predefines, devices, i, e);
    let error_at = |c: int| spec_midi_control_error(predefines, devices[i].1.controls@, c);
    let c = choose|c: int|
        0 <= c < devices[i].1.controls@.len() && #[trigger] error_at(c) == Some(e);
    assert(!(error_at(c) is None));
    assert(!midi_device_resolves(predefines, devices, i));
}

/// Where the first mouse that fails fails with some error, not all mice resolve.
pub proof fn lemma_failing_devices_do_not_resolve_mouse(
    predefines: Seq<(String, MouseControlPredefined)>,
    devices: Seq<(String, MouseDevice)>,
    e: ConfigError,
)
    requires
        mouse_devices_fail(predefines, devices, e),
    ensures
        !mouse_devices_resolve(predefines, devices),
{
    let i = choose|i: int|
        0 <= i < devices.len() && #[trigger] mouse_device_fails(predefines, devices, i, e);
    let error_at = |c: int| spec_mouse_control_error(predefines, devices[i].1.controls@, c);
    let c = choose|c: int|
        0 <= c < devices[i].1.controls@.len() && #[trigger] error_at(c) == Some(e);
    assert(!(error_at(c) is None));
    assert(!mouse_device_resolves(predefines, devices, i));
}

} // verus!
