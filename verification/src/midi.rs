use crate::config::{ControlReference, ResolvedMapping};
use crate::schemas;
use crate::schemas::{MidiChannel, MidiMessageView, MidiNumber, MidiNumberView};
use crate::text::{is_any, matching_places, spec_is_any, spec_match_flags, spec_matched_places};
use vstd::prelude::*;

verus! {

/// The kind of a message that a MIDI device sent.
#[derive(Debug, Clone, Copy, PartialEq, Eq, Structural)]
pub enum MidiMessageType {
    NoteOn,
    NoteOff,
    ControlChange,
    PitchWheel,
    Aftertouch,
    PolyAftertouch,
    ProgramChange,
}

/// What a MIDI message holds besides the name of the device that sent it.
#[derive(Debug, Clone, Copy, PartialEq, Eq, Structural)]
pub struct MidiFields {
    pub message_type: MidiMessageType,
    pub channel: u8,
    pub note: Option<u8>,
    pub velocity: Option<u8>,
    pub control: Option<u8>,
    pub value: Option<u8>,
    pub pitch: Option<i16>,
}

/// A decoded MIDI message, with the runtime name of the device it came from.
#[derive(Debug)]
pub struct MidiMessage {
    pub device_name: String,
    pub message_type: MidiMessageType,
    pub channel: u8,
    pub note: Option<u8>,
    pub velocity: Option<u8>,
    pub control: Option<u8>,
    pub value: Option<u8>,
    pub pitch: Option<i16>,
}

impl MidiMessage {
    /// The message without the device's name.
    pub open spec fn fields(self) -> MidiFields {
        MidiFields {
            message_type: self.message_type,
            channel: self.channel,
            note: self.note,
            velocity: self.velocity,
            control: self.control,
            value: self.value,
            pitch: self.pitch,
        }
    }
}

impl Clone for MidiMessage {
    fn clone(&self) -> (r: Self)
        ensures
            r == *self,
    {
        MidiMessage {
            device_name: self.device_name.clone(),
            message_type: self.message_type,
            channel: self.channel,
            note: self.note,
            velocity: self.velocity,
            control: self.control,
            value: self.value,
            pitch: self.pitch,
        }
    }
}

/// The position of the pitch wheel from the two data bytes of its message:
/// the second byte shifted up by seven bits, joined with the first, and moved
/// down by 8192 so that the wheel at rest reads 0.
pub open spec fn spec_pitch(lsb: u8, msb: u8) -> i16 {
    ((((msb as i16) << 7) | (lsb as i16)) - 8192) as i16
}

/// A message of the given type on the given channel, with no field set.
pub open spec fn spec_bare(message_type: MidiMessageType, channel: u8) -> MidiFields {
    MidiFields {
        message_type,
        channel,
        note: None,
        velocity: None,
        control: None,
        value: None,
        pitch: None,
    }
}

/// What the bytes of one MIDI message decode to. The low half of the first
/// byte is the channel, its high half the kind of message; up to two data
/// bytes follow, and bytes after those are not looked at. A note-on with
/// velocity 0 is a note-off. Nothing comes of an empty message, of a kind
/// that is not listed here, or of one that lacks a data byte it needs.
pub open spec fn spec_decode(data: Seq<u8>) -> Option<MidiFields> {
    if data.len() == 0 {
        None
    } else {
        let channel = data[0] & 0x0F;
        let code = data[0] & 0xF0;
        if data.len() == 1 {
            None
        } else if code == 0xD0 {
            Some(
                MidiFields { value: Some(data[1]), ..spec_bare(MidiMessageType::Aftertouch, channel) },
            )
        } else if code == 0xC0 {
            Some(
                MidiFields {
                    value: Some(data[1]),
                    ..spec_bare(MidiMessageType::ProgramChange, channel)
                },
            )
        } else if data.len() == 2 {
            None
        } else if code == 0x80 {
            Some(
                MidiFields {
                    note: Some(data[1]),
                    velocity: Some(data[2]),
                    ..spec_bare(MidiMessageType::NoteOff, channel)
                },
            )
        } else if code == 0x90 {
            Some(
                MidiFields {
                    note: Some(data[1]),
                    velocity: Some(data[2]),
                    ..spec_bare(
                        if data[2] == 0 {
                            MidiMessageType::NoteOff
                        } else {
                            MidiMessageType::NoteOn
                        },
                        channel,
                    )
                },
            )
        } else if code == 0xB0 {
            Some(
                MidiFields {
                    control: Some(data[1]),
                    value: Some(data[2]),
                    ..spec_bare(MidiMessageType::ControlChange, channel)
                },
            )
        } else if code == 0xE0 {
            Some(
                MidiFields {
                    pitch: Some(spec_pitch(data[1], data[2])),
                    ..spec_bare(MidiMessageType::PitchWheel, channel)
                },
            )
        } else if code == 0xA0 {
            Some(
                MidiFields {
                    note: Some(data[1]),
                    value: Some(data[2]),
                    ..spec_bare(MidiMessageType::PolyAftertouch, channel)
                },
            )
        } else {
            None
        }
    }
}

/// The position of the pitch wheel from the two data bytes of its message.
pub fn pitch_of(lsb: u8, msb: u8) -> (r: i16)
    ensures
        r == spec_pitch(lsb, msb),
        lsb < 128 && msb < 128 ==> r == msb * 128 + lsb - 8192,
        -8192 <= r <= 24575,
{
    let joined: i16 = ((msb as i16) << 7) | (lsb as i16);
    assert(0 <= joined <= 32767 && (lsb < 128 && msb < 128 ==> joined == msb * 128 + lsb)) by (bit_vector)
        requires
            joined == ((msb as i16) << 7) | (lsb as i16),
    ;
    joined - 8192
}

/// Decodes the bytes of one MIDI message that came from the named device.
pub fn parse_midi_message(data: &[u8], device_name: &str) -> (r: Option<MidiMessage>)
    ensures
        r is Some <==> spec_decode(data@) is Some,
        r matches Some(m) ==> m.device_name@ == device_name@ && Some(m.fields()) == spec_decode(
            data@,
        ),
{
    if data.len() == 0 {
        return None;
    }
    let status: u8 = data[0];
    let channel: u8 = status & 0x0F;
    let code: u8 = status & 0xF0;
    if data.len() == 1 {
        return None;
    }
    let d1: u8 = data[1];
    let mut message = MidiMessage {
        device_name: device_name.to_owned(),
        message_type: MidiMessageType::ProgramChange,
        channel,
        note: None,
        velocity: None,
        control: None,
        value: None,
        pitch: None,
    };
    if code == 0xD0 {
        message.message_type = MidiMessageType::Aftertouch;
        message.value = Some(d1);
        return Some(message);
    }
    if code == 0xC0 {
        message.message_type = MidiMessageType::ProgramChange;
        message.value = Some(d1);
        return Some(message);
    }
    if data.len() == 2 {
        return None;
    }
    let d2: u8 = data[2];
    if code == 0x80 {
        message.message_type = MidiMessageType::NoteOff;
        message.note = Some(d1);
        message.velocity = Some(d2);
    } else if code == 0x90 {
        message.message_type = if d2 == 0 {
            MidiMessageType::NoteOff
        } else {
            MidiMessageType::NoteOn
        };
        message.note = Some(d1);
        message.velocity = Some(d2);
    } else if code == 0xB0 {
        message.message_type = MidiMessageType::ControlChange;
        message.control = Some(d1);
        message.value = Some(d2);
    } else if code == 0xE0 {
        message.message_type = MidiMessageType::PitchWheel;
        message.pitch = Some(pitch_of(d1, d2));
    } else if code == 0xA0 {
        message.message_type = MidiMessageType::PolyAftertouch;
        message.note = Some(d1);
        message.value = Some(d2);
    } else {
        return None;
    }
    Some(message)
}

/// The number that a message carries as its input value: the wheel's
/// position, the controller's value, the velocity of a note-on, the pressure
/// or the program; 0 for a note-off and where the field is not set.
pub open spec fn spec_midi_value(m: MidiFields) -> int {
    match m.message_type {
        MidiMessageType::PitchWheel => match m.pitch {
            Some(p) => p as int,
            None => 0,
        },
        MidiMessageType::NoteOn => match m.velocity {
            Some(v) => v as int,
            None => 0,
        },
        MidiMessageType::NoteOff => 0,
        _ => match m.value {
            Some(v) => v as int,
            None => 0,
        },
    }
}

/// The number that a message carries as its input value.
pub fn extract_midi_value(msg: &MidiMessage) -> (r: i32)
    ensures
        r == spec_midi_value(msg.fields()),
{
    match msg.message_type {
        MidiMessageType::PitchWheel => match msg.pitch {
            Some(p) => p as i32,
            None => 0,
        },
        MidiMessageType::NoteOn => match msg.velocity {
            Some(v) => v as i32,
            None => 0,
        },
        MidiMessageType::NoteOff => 0,
        _ => match msg.value {
            Some(v) => v as i32,
            None => 0,
        },
    }
}

/// Whether a message of kind `msg_type` is one that a control listening for
/// `spec_type` takes: each kind for itself, and both note-on and note-off
/// for a control that listens for notes. Nothing takes polyphonic aftertouch.
pub open spec fn spec_type_matches(msg_type: MidiMessageType, spec_type: schemas::MidiMessageType) -> bool {
    match (msg_type, spec_type) {
        (MidiMessageType::PitchWheel, schemas::MidiMessageType::PitchWheel) => true,
        (MidiMessageType::ControlChange, schemas::MidiMessageType::ControlChange) => true,
        (MidiMessageType::NoteOn, schemas::MidiMessageType::Note) => true,
        (MidiMessageType::NoteOn, schemas::MidiMessageType::NoteOn) => true,
        (MidiMessageType::NoteOff, schemas::MidiMessageType::Note) => true,
        (MidiMessageType::NoteOff, schemas::MidiMessageType::NoteOff) => true,
        (MidiMessageType::Aftertouch, schemas::MidiMessageType::Aftertouch) => true,
        (MidiMessageType::ProgramChange, schemas::MidiMessageType::ProgramChange) => true,
        _ => false,
    }
}

/// Whether a message on channel `msg_channel` is one that the control takes.
pub open spec fn spec_channel_matches(msg_channel: u8, spec_channel: MidiChannel) -> bool {
    match spec_channel {
        MidiChannel::Any => true,
        MidiChannel::Number(n) => msg_channel == n,
    }
}

/// The number that tells messages of one kind apart: the note, the
/// controller or the program. Wheel and pressure messages have none.
pub open spec fn spec_number_of(m: MidiFields) -> Option<u8> {
    match m.message_type {
        MidiMessageType::NoteOn | MidiMessageType::NoteOff => m.note,
        MidiMessageType::ControlChange => m.control,
        MidiMessageType::ProgramChange => m.value,
        _ => None,
    }
}

/// Whether the message's number is one that the control listens to. A
/// message without a number is never taken by a control that names numbers.
pub open spec fn spec_number_matches(m: MidiFields, spec_number: MidiNumberView) -> bool {
    match spec_number_of(m) {
        Some(number) => match spec_number {
            MidiNumberView::Single(n) => number == n,
            MidiNumberView::Multiple(numbers) => numbers.contains(number),
            MidiNumberView::Special(s) => spec_is_any(s),
        },
        None => false,
    }
}

/// Whether the control that listens for `spec` takes the message: kind,
/// channel and, where the control names any, number all fit.
pub open spec fn spec_check_midi_spec(m: MidiFields, spec: MidiMessageView) -> bool {
    &&& spec_type_matches(m.message_type, spec.msg_type)
    &&& spec_channel_matches(m.channel, spec.channel)
    &&& spec.number matches Some(n) ==> spec_number_matches(m, n)
}

/// Whether the mapping's source takes the message: it is a MIDI control
/// that says which messages it listens for, and this is one of them.
pub open spec fn spec_message_matches(m: MidiFields, mapping: ResolvedMapping) -> bool {
    match mapping.source.control {
        ControlReference::Midi(control) => match control@.midi_message {
            Some(spec) => spec_check_midi_spec(m, spec),
            None => false,
        },
        ControlReference::Mouse(_) => false,
    }
}

/// Whether a message of kind `msg_type` is one that a control listening for
/// `spec_type` takes.
pub fn midi_type_matches(msg_type: MidiMessageType, spec_type: schemas::MidiMessageType) -> (b: bool)
    ensures
        b == spec_type_matches(msg_type, spec_type),
{
    match (msg_type, spec_type) {
        (MidiMessageType::PitchWheel, schemas::MidiMessageType::PitchWheel) => true,
        (MidiMessageType::ControlChange, schemas::MidiMessageType::ControlChange) => true,
        (MidiMessageType::NoteOn, schemas::MidiMessageType::Note) => true,
        (MidiMessageType::NoteOn, schemas::MidiMessageType::NoteOn) => true,
        (MidiMessageType::NoteOff, schemas::MidiMessageType::Note) => true,
        (MidiMessageType::NoteOff, schemas::MidiMessageType::NoteOff) => true,
        (MidiMessageType::Aftertouch, schemas::MidiMessageType::Aftertouch) => true,
        (MidiMessageType::ProgramChange, schemas::MidiMessageType::ProgramChange) => true,
        _ => false,
    }
}

/// Whether a message on channel `msg_channel` is one that the control takes.
pub fn midi_channel_matches(msg_channel: u8, spec_channel: &MidiChannel) -> (b: bool)
    ensures
        b == spec_channel_matches(msg_channel, *spec_channel),
{
    match spec_channel {
        MidiChannel::Any => true,
        MidiChannel::Number(n) => msg_channel == *n,
    }
}

/// Whether `numbers` holds `number`.
pub fn holds_number(numbers: &Vec<u8>, number: u8) -> (b: bool)
    ensures
        b == numbers@.contains(number),
{
    let mut i: usize = 0;
    while i < numbers.len()
        invariant
            i <= numbers.len(),
            forall|j: int| 0 <= j < i ==> numbers@[j] != number,
        decreases numbers.len() - i,
    {
        if numbers[i] == number {
            return true;
        }
        i += 1;
    }
    false
}

/// Whether the message's number is one that the control listens to.
pub fn midi_number_matches(msg: &MidiMessage, spec_number: &MidiNumber) -> (b: bool)
    ensures
        b == spec_number_matches(msg.fields(), spec_number@),
{
    let actual_number = match msg.message_type {
        MidiMessageType::NoteOn | MidiMessageType::NoteOff => msg.note,
        MidiMessageType::ControlChange => msg.control,
        MidiMessageType::ProgramChange => msg.value,
        _ => None,
    };
    match actual_number {
        Some(number) => match spec_number {
            MidiNumber::Single(n) => number == *n,
            MidiNumber::Multiple(numbers) => holds_number(numbers, number),
            MidiNumber::Special(s) => is_any(s.as_str()),
        },
        None => false,
    }
}

/// Whether the control that listens for `spec` takes the message.
pub fn check_midi_spec(msg: &MidiMessage, spec: &schemas::MidiMessage) -> (b: bool)
    ensures
        b == spec_check_midi_spec(msg.fields(), spec@),
{
    if !midi_type_matches(msg.message_type, spec.msg_type) {
        return false;
    }
    if !midi_channel_matches(msg.channel, &spec.channel) {
        return false;
    }
    match &spec.number {
        Some(number_spec) => midi_number_matches(msg, number_spec),
        None => true,
    }
}

/// Whether the mapping's source takes the message.
pub fn midi_message_matches_spec(msg: &MidiMessage, mapping: &ResolvedMapping) -> (b: bool)
    ensures
        b == spec_message_matches(msg.fields(), *mapping),
{
    match &mapping.source.control {
        ControlReference::Midi(midi_control) => match &midi_control.midi_message {
            Some(spec) => check_midi_spec(msg, spec),
            None => false,
        },
        ControlReference::Mouse(_) => false,
    }
}

/// The usual name of a MIDI controller, for those that have one.
pub open spec fn spec_cc_name(cc: u8) -> Option<Seq<char>> {
    if cc == 1 {
        Some("Modulation"@)
    } else if cc == 2 {
        Some("Breath Controller"@)
    } else if cc == 7 {
        Some("Volume"@)
    } else if cc == 10 {
        Some("Pan"@)
    } else if cc == 11 {
        Some("Expression"@)
    } else if cc == 64 {
        Some("Sustain"@)
    } else if cc == 65 {
        Some("Portamento"@)
    } else if cc == 66 {
        Some("Sostenuto"@)
    } else if cc == 67 {
        Some("Soft Pedal"@)
    } else if cc == 71 {
        Some("Filter Resonance"@)
    } else if cc == 72 {
        Some("Release Time"@)
    } else if cc == 73 {
        Some("Attack Time"@)
    } else if cc == 74 {
        Some("Filter Cutoff"@)
    } else if cc == 75 {
        Some("Decay Time"@)
    } else {
        None
    }
}

/// The usual name of a MIDI controller, for those that have one.
pub fn get_cc_name(cc: u8) -> (r: Option<&'static str>)
    ensures
        r is Some <==> spec_cc_name(cc) is Some,
        r matches Some(name) ==> Some(name@) == spec_cc_name(cc),
{
    match cc {
        1 => Some("Modulation"),
        2 => Some("Breath Controller"),
        7 => Some("Volume"),
        10 => Some("Pan"),
        11 => Some("Expression"),
        64 => Some("Sustain"),
        65 => Some("Portamento"),
        66 => Some("Sostenuto"),
        67 => Some("Soft Pedal"),
        71 => Some("Filter Resonance"),
        72 => Some("Release Time"),
        73 => Some("Attack Time"),
        74 => Some("Filter Cutoff"),
        75 => Some("Decay Time"),
        _ => None,
    }
}

/// The name of a note's pitch class: C for 0, 12, 24 and so on.
pub open spec fn spec_note_name(note: u8) -> Seq<char> {
    let class = note % 12;
    if class == 0 {
        "C"@
    } else if class == 1 {
        "C#"@
    } else if class == 2 {
        "D"@
    } else if class == 3 {
        "D#"@
    } else if class == 4 {
        "E"@
    } else if class == 5 {
        "F"@
    } else if class == 6 {
        "F#"@
    } else if class == 7 {
        "G"@
    } else if class == 8 {
        "G#"@
    } else if class == 9 {
        "A"@
    } else if class == 10 {
        "A#"@
    } else {
        "B"@
    }
}

/// The name of a note's pitch class and the number of its octave, which is
/// -1 for the lowest twelve notes.
pub fn note_name(note: u8) -> (r: (&'static str, i8))
    ensures
        r.0@ == spec_note_name(note),
        r.1 == note / 12 - 1,
{
    let name: &'static str = match note % 12 {
        0 => "C",
        1 => "C#",
        2 => "D",
        3 => "D#",
        4 => "E",
        5 => "F",
        6 => "F#",
        7 => "G",
        8 => "G#",
        9 => "A",
        10 => "A#",
        _ => "B",
    };
    let octave: i8 = (note / 12) as i8 - 1;
    (name, octave)
}

/// A MIDI input port that the system offers.
#[derive(Debug)]
pub struct MidiDeviceInfo {
    pub name: String,
    pub port_index: usize,
}

/// The names of the devices, in order.
pub open spec fn spec_device_names(devices: Seq<MidiDeviceInfo>) -> Seq<String> {
    Seq::new(devices.len(), |i: int| devices[i].name)
}

/// The names of the devices that the regular expression matches, in the
/// order of the devices.
pub fn match_device(device_name_regex: &str, devices: &Vec<MidiDeviceInfo>) -> (matched: Vec<String>)
    ensures
        matched@.len() == spec_matched_places(
            spec_match_flags(device_name_regex@, spec_device_names(devices@)),
        ).len(),
        forall|k: int|
            0 <= k < matched@.len() ==> (#[trigger] matched@[k]) == devices@[spec_matched_places(
                spec_match_flags(device_name_regex@, spec_device_names(devices@)),
            )[k] as int].name,
{
    let mut names: Vec<String> = Vec::new();
    let mut i: usize = 0;
    while i < devices.len()
        invariant
            i <= devices@.len(),
            names@.len() == i,
            forall|k: int| 0 <= k < i ==> names@[k] == devices@[k].name,
        decreases devices@.len() - i,
    {
        names.push(devices[i].name.clone());
        i += 1;
    }
    proof {
        assert(names@ =~= spec_device_names(devices@));
    }
    let places = matching_places(device_name_regex, &names);
    let mut matched: Vec<String> = Vec::new();
    let mut k: usize = 0;
    while k < places.len()
        invariant
            k <= places@.len(),
            matched@.len() == k,
            names@.len() == devices@.len(),
            forall|j: int| 0 <= j < places@.len() ==> (#[trigger] places@[j]) < names@.len(),
            forall|j: int| 0 <= j < k ==> (#[trigger] matched@[j]) == devices@[places@[j] as int].name,
        decreases places@.len() - k,
    {
        matched.push(devices[places[k]].name.clone());
        k += 1;
    }
    matched
}

/// A control of a MIDI device as the learning mode tells controls apart.
#[derive(Debug, Clone, Copy, PartialEq, Eq, Hash, Structural)]
pub enum LearnedControl {
    Note(u8),
    ControlChange(u8),
    PitchWheel,
    Aftertouch,
    PolyAftertouch,
}

/// The control that a message teaches the learning mode: the note of a
/// note-on, the controller of a control change, and the wheel or the
/// pressure as such. Note-offs and program changes teach nothing.
pub open spec fn spec_learned_control(m: MidiFields) -> Option<LearnedControl> {
    match m.message_type {
        MidiMessageType::NoteOn => match m.note {
            Some(note) => Some(LearnedControl::Note(note)),
            None => None,
        },
        MidiMessageType::ControlChange => match m.control {
            Some(control) => Some(LearnedControl::ControlChange(control)),
            None => None,
        },
        MidiMessageType::PitchWheel => Some(LearnedControl::PitchWheel),
        MidiMessageType::Aftertouch => Some(LearnedControl::Aftertouch),
        MidiMessageType::PolyAftertouch => Some(LearnedControl::PolyAftertouch),
        _ => None,
    }
}

/// The control that a message teaches the learning mode.
pub fn learned_control(msg: &MidiMessage) -> (r: Option<LearnedControl>)
    ensures
        r == spec_learned_control(msg.fields()),
{
    match msg.message_type {
        MidiMessageType::NoteOn => match msg.note {
            Some(note) => Some(LearnedControl::Note(note)),
            None => None,
        },
        MidiMessageType::ControlChange => match msg.control {
            Some(control) => Some(LearnedControl::ControlChange(control)),
            None => None,
        },
        MidiMessageType::PitchWheel => Some(LearnedControl::PitchWheel),
        MidiMessageType::Aftertouch => Some(LearnedControl::Aftertouch),
        MidiMessageType::PolyAftertouch => Some(LearnedControl::PolyAftertouch),
        _ => None,
    }
}

} // verus!
