use crate::control_type::{ControlKind, ControlType};
use crate::interval::NumInterval;
use crate::keyed::{find, spec_find, spec_get};
use crate::lists::{lemma_filter_all, lemma_filter_none, lemma_filter_step};
use crate::schemas::{ResolvedJoystickControl, ResolvedVirtualJoystick};
use crate::text::str_eq;
use vstd::prelude::*;

verus! {

/// The number under which an uploaded force-feedback effect is kept.
pub type FfIndexT = usize;

/// The strength of a constant force, as the kernel gives it.
pub type FfLevelT = i16;

/// How many force-feedback effects a virtual joystick holds at a time.
pub const VJ_FF_MAX_EFFECTS: FfIndexT = 1;

/// A force-feedback effect that a game uploaded.
#[derive(Debug, Clone, Copy, PartialEq, Eq, Structural)]
pub enum FfEffect {
    /// A force of constant strength.
    ConstantForce { level: FfLevelT },
    /// No effect.
    Empty,
}

/// What the kernel is told of an upload.
#[derive(Debug, Clone, Copy, PartialEq, Eq, Structural)]
pub struct FfUploadReply {
    /// The number given to the effect.
    pub effect_id: i16,
    /// 0 where the effect was taken, -1 where it was turned down.
    pub retval: i32,
}

/// What an event that starts or stops an effect came to.
#[derive(Debug, Clone, Copy, PartialEq, Eq, Structural)]
pub enum FfPlayback {
    Playing,
    Stopped,
    /// The event's value names neither.
    Unhandled,
}

/// The force-feedback effects that were uploaded to one joystick, and the
/// one that is playing.
#[derive(Debug)]
pub struct FfWorkingState {
    /// The uploaded effects, each under its number; no number twice.
    pub uploaded_effects: Vec<(FfIndexT, FfEffect)>,
    /// The number of the effect that is playing, and the value that the
    /// event which started it carried.
    pub played_effect: Option<(FfIndexT, i16)>,
}

/// The low 16 bits of a number, read as a number from 0 to 65535.
pub open spec fn spec_low_word(value: i32) -> int {
    value as int % 0x1_0000
}

/// The low 16 bits of a number, read as a number from 0 to 65535.
pub fn low_word(value: i32) -> (r: i32)
    ensures
        r == spec_low_word(value),
        0 <= r < 0x1_0000,
{
    let rest: i32 = value % 0x1_0000;
    if rest < 0 {
        rest + 0x1_0000
    } else {
        rest
    }
}

/// The place in `effects` of the effect with number `id`, if it is there.
pub open spec fn spec_effect_place(effects: Seq<(FfIndexT, FfEffect)>, id: FfIndexT) -> Option<int> {
    if exists|k: int| 0 <= k < effects.len() && (#[trigger] effects[k]).0 == id {
        Some(choose|k: int| 0 <= k < effects.len() && (#[trigger] effects[k]).0 == id)
    } else {
        None
    }
}

/// The effect that is kept under the number `id`, if there is one.
pub open spec fn spec_effect(effects: Seq<(FfIndexT, FfEffect)>, id: FfIndexT) -> Option<FfEffect> {
    match spec_effect_place(effects, id) {
        Some(k) => Some(effects[k].1),
        None => None,
    }
}

/// That no number stands twice in `effects`.
pub open spec fn distinct_ids(effects: Seq<(FfIndexT, FfEffect)>) -> bool {
    forall|a: int, b: int|
        0 <= a < b < effects.len() ==> (#[trigger] effects[a]).0 != (#[trigger] effects[b]).0
}

impl FfWorkingState {
    /// No number stands twice among the uploaded effects.
    pub open spec fn wf(self) -> bool {
        distinct_ids(self.uploaded_effects@)
    }

    /// The strength of the force that is being played: that of the playing
    /// effect where it is an uploaded constant force, and 0 otherwise.
    pub open spec fn spec_played_level(self) -> FfLevelT {
        match self.played_effect {
            Some((id, _)) => match spec_effect(self.uploaded_effects@, id) {
                Some(FfEffect::ConstantForce { level }) => level,
                _ => 0,
            },
            None => 0,
        }
    }

    /// The state of a joystick to which nothing was uploaded.
    pub fn new() -> (r: Self)
        ensures
            r.wf(),
            r.uploaded_effects@.len() == 0,
            r.played_effect is None,
            r.spec_played_level() == 0,
    {
        FfWorkingState { uploaded_effects: Vec::new(), played_effect: None }
    }

    fn place_of(&self, id: FfIndexT) -> (r: Option<usize>)
        requires
            self.wf(),
        ensures
            r matches Some(k) ==> k < self.uploaded_effects@.len() && spec_effect_place(
                self.uploaded_effects@,
                id,
            ) == Some(k as int) && self.uploaded_effects@[k as int].0 == id,
            r is None ==> spec_effect_place(self.uploaded_effects@, id) is None,
            r is None ==> forall|k: int|
                0 <= k < self.uploaded_effects@.len() ==> (#[trigger] self.uploaded_effects@[k]).0 != id,
    {
        let mut k: usize = 0;
        while k < self.uploaded_effects.len()
            invariant
                self.wf(),
                k <= self.uploaded_effects@.len(),
                forall|j: int| 0 <= j < k ==> (#[trigger] self.uploaded_effects@[j]).0 != id,
            decreases self.uploaded_effects@.len() - k,
        {
            if self.uploaded_effects[k].0 == id {
                proof {
                    let c = choose|c: int|
                        0 <= c < self.uploaded_effects@.len() && (#[trigger] self.uploaded_effects@[c]).0
                            == id;
                    if c != k {
                        if c < k {
                            assert(self.uploaded_effects@[c].0 != self.uploaded_effects@[k as int].0);
                        } else {
                            assert(self.uploaded_effects@[k as int].0 != self.uploaded_effects@[c].0);
                        }
                    }
                }
                return Some(k);
            }
            k += 1;
        }
        None
    }

    /// The effect that is kept under the number `id`.
    pub fn effect(&self, id: FfIndexT) -> (r: Option<FfEffect>)
        requires
            self.wf(),
        ensures
            r == spec_effect(self.uploaded_effects@, id),
    {
        match self.place_of(id) {
            Some(k) => Some(self.uploaded_effects[k].1),
            None => None,
        }
    }

    /// Takes in an effect that a game uploads. `constant_level` is the
    /// strength of the effect where it is a constant force, and nothing for
    /// an effect of any other kind. A constant force is kept under the
    /// number 0, in place of what was there; any other effect is turned down
    /// and changes nothing. Either way the effect is given the number 0.
    pub fn upload(&mut self, constant_level: Option<FfLevelT>) -> (reply: FfUploadReply)
        requires
            old(self).wf(),
        ensures
            final(self).wf(),
            final(self).played_effect == old(self).played_effect,
            reply.effect_id == 0,
            reply.retval == if constant_level is Some {
                0int
            } else {
                -1int
            },
            constant_level is None ==> final(self).uploaded_effects == old(self).uploaded_effects,
            constant_level matches Some(level) ==> {
                &&& spec_effect(final(self).uploaded_effects@, 0) == Some(FfEffect::ConstantForce { level })
                &&& forall|id: FfIndexT|
                    id != 0 ==> spec_effect(final(self).uploaded_effects@, id) == spec_effect(
                        old(self).uploaded_effects@,
                        id,
                    )
            },
    {
        match constant_level {
            Some(level) => {
                let effect = FfEffect::ConstantForce { level };
                match self.place_of(0) {
                    Some(k) => {
                        self.uploaded_effects.set(k, (0, effect));
                        proof {
                            lemma_effect_at(self.uploaded_effects@, k as int);
                            assert forall|id: FfIndexT| id != 0 implies spec_effect(
                                self.uploaded_effects@,
                                id,
                            ) == spec_effect(old(self).uploaded_effects@, id) by {
                                lemma_effect_same_elsewhere(
                                    old(self).uploaded_effects@,
                                    self.uploaded_effects@,
                                    id,
                                    k as int,
                                );
                            }
                        }
                    },
                    None => {
                        self.uploaded_effects.push((0, effect));
                        proof {
                            let last = old(self).uploaded_effects@.len() as int;
                            lemma_effect_at(self.uploaded_effects@, last);
                            assert forall|id: FfIndexT| id != 0 implies spec_effect(
                                self.uploaded_effects@,
                                id,
                            ) == spec_effect(old(self).uploaded_effects@, id) by {
                                lemma_effect_after_push(old(self).uploaded_effects@, (0, effect), id);
                            }
                        }
                    },
                }
                FfUploadReply { effect_id: 0, retval: 0 }
            },
            None => FfUploadReply { effect_id: 0, retval: -1 },
        }
    }

    /// Drops the effect that is kept under the number `id`, if there is one.
    pub fn erase(&mut self, id: FfIndexT)
        requires
            old(self).wf(),
        ensures
            final(self).wf(),
            final(self).played_effect == old(self).played_effect,
            spec_effect(final(self).uploaded_effects@, id) is None,
            forall|other: FfIndexT|
                other != id ==> spec_effect(final(self).uploaded_effects@, other) == spec_effect(
                    old(self).uploaded_effects@,
                    other,
                ),
    {
        match self.place_of(id) {
            Some(k) => {
                let _ = self.uploaded_effects.remove(k);
                proof {
                    let before = old(self).uploaded_effects@;
                    let after = self.uploaded_effects@;
                    assert(after =~= before.remove(k as int));
                    assert forall|a: int| 0 <= a < after.len() implies (#[trigger] after[a]).0 != id by {
                        if a < k {
                            assert(before[a].0 != before[k as int].0);
                        } else {
                            assert(after[a] == before[a + 1]);
                            assert(before[k as int].0 != before[a + 1].0);
                        }
                    }
                    assert forall|a: int, b: int| 0 <= a < b < after.len() implies (#[trigger] after[a]).0
                        != (#[trigger] after[b]).0 by {
                        let a0 = if a < k { a } else { a + 1 };
                        let b0 = if b < k { b } else { b + 1 };
                        assert(after[a] == before[a0]);
                        assert(after[b] == before[b0]);
                        assert(before[a0].0 != before[b0].0);
                    }
                    assert forall|other: FfIndexT| other != id implies spec_effect(after, other)
                        == spec_effect(before, other) by {
                        lemma_effect_after_remove(before, k as int, other);
                    }
                }
            },
            None => {},
        }
    }

    /// Takes in an event that starts or stops an effect: the number of the
    /// effect and the event's value, of which the low 16 bits count. They
    /// are 1 to start the effect and 0 to stop whatever is playing; any
    /// other value changes nothing. A value that starts an effect is kept
    /// with it, and has to fit in 16 bits.
    pub fn set_playback(&mut self, effect_index: FfIndexT, value: i32) -> (r: FfPlayback)
        requires
            spec_low_word(value) == 1 ==> value == 1,
        ensures
            final(self).uploaded_effects == old(self).uploaded_effects,
            r == if spec_low_word(value) == 1 {
                FfPlayback::Playing
            } else if spec_low_word(value) == 0 {
                FfPlayback::Stopped
            } else {
                FfPlayback::Unhandled
            },
            final(self).played_effect == match r {
                FfPlayback::Playing => Some((effect_index, 1i16)),
                FfPlayback::Stopped => None,
                FfPlayback::Unhandled => old(self).played_effect,
            },
    {
        let status: i32 = low_word(value);
        if status == 1 {
            self.played_effect = Some((effect_index, 1));
            FfPlayback::Playing
        } else if status == 0 {
            self.played_effect = None;
            FfPlayback::Stopped
        } else {
            FfPlayback::Unhandled
        }
    }

    /// The strength of the force that is being played.
    pub fn played_level(&self) -> (level: FfLevelT)
        requires
            self.wf(),
        ensures
            level == self.spec_played_level(),
    {
        match self.played_effect {
            Some((id, _)) => match self.effect(id) {
                Some(FfEffect::ConstantForce { level }) => level,
                _ => 0,
            },
            None => 0,
        }
    }
}

/// The distance between the weakest and the strongest force: the summary
/// of the force being played is its strength over half of this.
pub fn ff_level_span() -> (span: i32)
    ensures
        span == 65535,
{
    let range: NumInterval<FfLevelT> = NumInterval::new(FfLevelT::MIN, FfLevelT::MAX);
    let wide: i128 = range.span_w();
    wide as i32
}

/// Where the numbers are distinct, the effect of the number at place `k` is
/// the one that stands there.
pub proof fn lemma_effect_at(effects: Seq<(FfIndexT, FfEffect)>, k: int)
    requires
        distinct_ids(effects),
        0 <= k < effects.len(),
    ensures
        spec_effect_place(effects, effects[k].0) == Some(k),
        spec_effect(effects, effects[k].0) == Some(effects[k].1),
{
    let id = effects[k].0;
    let c = choose|c: int| 0 <= c < effects.len() && (#[trigger] effects[c]).0 == id;
    if c < k {
        assert(effects[c].0 != effects[k].0);
    } else if k < c {
        assert(effects[k].0 != effects[c].0);
    }
}

proof fn lemma_effect_same_elsewhere(
    before: Seq<(FfIndexT, FfEffect)>,
    after: Seq<(FfIndexT, FfEffect)>,
    id: FfIndexT,
    k: int,
)
    requires
        distinct_ids(before),
        distinct_ids(after),
        0 <= k < before.len(),
        after.len() == before.len(),
        before[k].0 != id,
        after[k].0 == before[k].0,
        forall|j: int| 0 <= j < before.len() && j != k ==> after[j] == before[j],
    ensures
        spec_effect(after, id) == spec_effect(before, id),
{
    if exists|c: int| 0 <= c < before.len() && (#[trigger] before[c]).0 == id {
        let c = choose|c: int| 0 <= c < before.len() && (#[trigger] before[c]).0 == id;
        assert(after[c] == before[c]);
        lemma_effect_at(before, c);
        lemma_effect_at(after, c);
    } else {
        if exists|c: int| 0 <= c < after.len() && (#[trigger] after[c]).0 == id {
            let c = choose|c: int| 0 <= c < after.len() && (#[trigger] after[c]).0 == id;
            assert(before[c].0 == id);
        }
    }
}

proof fn lemma_effect_after_push(
    before: Seq<(FfIndexT, FfEffect)>,
    item: (FfIndexT, FfEffect),
    id: FfIndexT,
)
    requires
        distinct_ids(before),
        distinct_ids(before.push(item)),
        item.0 != id,
    ensures
        spec_effect(before.push(item), id) == spec_effect(before, id),
{
    let after = before.push(item);
    if exists|c: int| 0 <= c < before.len() && (#[trigger] before[c]).0 == id {
        let c = choose|c: int| 0 <= c < before.len() && (#[trigger] before[c]).0 == id;
        assert(after[c] == before[c]);
        lemma_effect_at(before, c);
        lemma_effect_at(after, c);
    } else {
        if exists|c: int| 0 <= c < after.len() && (#[trigger] after[c]).0 == id {
            let c = choose|c: int| 0 <= c < after.len() && (#[trigger] after[c]).0 == id;
            assert(c < before.len());
            assert(before[c].0 == id);
        }
    }
}

proof fn lemma_effect_after_remove(before: Seq<(FfIndexT, FfEffect)>, k: int, id: FfIndexT)
    requires
        distinct_ids(before),
        distinct_ids(before.remove(k)),
        0 <= k < before.len(),
        before[k].0 != id,
    ensures
        spec_effect(before.remove(k), id) == spec_effect(before, id),
{
    let after = before.remove(k);
    if exists|c: int| 0 <= c < before.len() && (#[trigger] before[c]).0 == id {
        let c = choose|c: int| 0 <= c < before.len() && (#[trigger] before[c]).0 == id;
        let c2 = if c < k { c } else { c - 1 };
        assert(after[c2] == before[c]);
        lemma_effect_at(before, c);
        lemma_effect_at(after, c2);
    } else {
        if exists|c: int| 0 <= c < after.len() && (#[trigger] after[c]).0 == id {
            let c = choose|c: int| 0 <= c < after.len() && (#[trigger] after[c]).0 == id;
            let c0 = if c < k { c } else { c + 1 };
            assert(after[c] == before[c0]);
            assert(before[c0].0 == id);
        }
    }
}

/// How long a reader that found nothing waits before it looks again, in
/// milliseconds: not at all after events came, and one millisecond longer
/// than last time, up to `limit`, after none did.
pub fn next_sleep_millis(current: u64, got_events: bool, limit: u64) -> (next: u64)
    ensures
        got_events ==> next == 0,
        !got_events && current < limit ==> next == current + 1,
        !got_events && current >= limit ==> next == current,
{
    if got_events {
        0
    } else if current < limit {
        current + 1
    } else {
        current
    }
}

/// The value that a pipeline hands to a destination control, as far as a
/// control looks at it: whether it is zero, and its whole part, cut off at
/// the limits of `i32`.
#[derive(Debug, Clone, Copy, PartialEq, Eq, Structural)]
pub struct ControlValue {
    pub is_zero: bool,
    pub truncated: i32,
}

/// An event for the kernel to send out from a virtual joystick.
#[derive(Debug, Clone, Copy, PartialEq, Eq, Structural)]
pub struct OutputEvent {
    pub event_type: u16,
    pub code: u16,
    pub value: i32,
}

/// Why a joystick did not take a value.
#[derive(Debug, Clone, Copy, PartialEq, Eq, Structural)]
pub enum JoystickError {
    /// The joystick has no control of that name.
    ControlNotFound,
}

/// How the kernel is told of one absolute axis.
#[derive(Debug, Clone, Copy, PartialEq, Eq, Structural)]
pub struct AxisSetup {
    pub code: u16,
    pub value: i32,
    pub minimum: i32,
    pub maximum: i32,
    pub fuzz: i32,
    pub flat: i32,
    pub resolution: i32,
}

/// What the kernel is asked for when a virtual joystick is created: its
/// buttons and axes in the order of the configuration, and whether it takes
/// force-feedback effects, of which only the constant force is offered.
#[derive(Debug)]
pub struct DevicePlan {
    pub keys: Vec<u16>,
    pub axes: Vec<AxisSetup>,
    pub force_feedback: bool,
    pub ff_effects_max: u32,
}

/// The type of a control of a joystick and the value last written to it.
#[derive(Debug, Clone, Copy, PartialEq, Eq, Structural)]
pub struct ControlState {
    pub control_type: ControlType,
    pub value: i32,
}

/// The number `x` read as a signed number of the same 32 bits.
pub open spec fn spec_wrap_i32(x: u32) -> i32 {
    if x <= 0x7fff_ffff {
        x as i32
    } else {
        (x - 0x1_0000_0000) as i32
    }
}

/// The number `x` read as a signed number of the same 32 bits.
pub fn wrap_i32(x: u32) -> (r: i32)
    ensures
        r == spec_wrap_i32(x),
{
    if x <= 0x7fff_ffff {
        x as i32
    } else {
        (x as i64 - 0x1_0000_0000) as i32
    }
}

/// Whether a joystick keeps a state for a control of this type: it does
/// for buttons and for absolute axes.
pub open spec fn spec_is_kept(control: ResolvedJoystickControl) -> bool {
    control.control_type.spec_kind() == Some(ControlKind::Button) || control.control_type.spec_kind()
        == Some(ControlKind::Absolute)
}

/// How the kernel is told of the absolute axis `control`: where the
/// configuration gives no properties, fuzz and flat are 0 and the
/// resolution is 1.
pub open spec fn spec_axis_setup(control: ResolvedJoystickControl) -> AxisSetup {
    AxisSetup {
        code: control.control_type.spec_code(),
        value: control.initial_value,
        minimum: control.range.from,
        maximum: control.range.to,
        fuzz: match control.properties {
            Some(p) => spec_wrap_i32(p.fuzz),
            None => 0,
        },
        flat: match control.properties {
            Some(p) => spec_wrap_i32(p.flat),
            None => 0,
        },
        resolution: match control.properties {
            Some(p) => spec_wrap_i32(p.resolution),
            None => 1,
        },
    }
}

/// The states that a new joystick keeps: one for each button and each
/// absolute axis of the configuration, in its order, at the control's
/// initial value.
pub open spec fn spec_initial_states(controls: Seq<(String, ResolvedJoystickControl)>) -> Seq<
    (String, ControlState),
>
    decreases controls.len(),
{
    if controls.len() == 0 {
        Seq::empty()
    } else {
        let rest = spec_initial_states(controls.drop_last());
        let (key, control) = controls.last();
        if spec_is_kept(control) {
            rest.push((key, ControlState { control_type: control.control_type, value: control.initial_value }))
        } else {
            rest
        }
    }
}

/// The codes of the buttons of the configuration, in its order.
pub open spec fn spec_plan_keys(controls: Seq<(String, ResolvedJoystickControl)>) -> Seq<u16>
    decreases controls.len(),
{
    if controls.len() == 0 {
        Seq::empty()
    } else {
        let rest = spec_plan_keys(controls.drop_last());
        let control = controls.last().1;
        if control.control_type.spec_kind() == Some(ControlKind::Button) {
            rest.push(control.control_type.spec_code())
        } else {
            rest
        }
    }
}

/// The absolute axes of the configuration, in its order.
pub open spec fn spec_plan_axes(controls: Seq<(String, ResolvedJoystickControl)>) -> Seq<AxisSetup>
    decreases controls.len(),
{
    if controls.len() == 0 {
        Seq::empty()
    } else {
        let rest = spec_plan_axes(controls.drop_last());
        let control = controls.last().1;
        if control.control_type.spec_kind() == Some(ControlKind::Absolute) {
            rest.push(spec_axis_setup(control))
        } else {
            rest
        }
    }
}

/// The value that a control of type `control_type` holds after `value` was
/// written to it when it held `current`: 1 or 0 for a button, as the value
/// is zero or not; the whole part of the value for an absolute axis; and
/// what it held for any other control.
pub open spec fn spec_written(control_type: ControlType, current: i32, value: ControlValue) -> i32 {
    match control_type.spec_kind() {
        Some(ControlKind::Button) => if value.is_zero {
            0
        } else {
            1
        },
        Some(ControlKind::Absolute) => value.truncated,
        _ => current,
    }
}

/// The event that goes out when a value is written to a control: one for
/// a button and for an absolute axis, with the control's new value, and
/// none for any other control.
pub open spec fn spec_event(control_type: ControlType, current: i32, value: ControlValue) -> Option<
    OutputEvent,
> {
    match control_type.spec_kind() {
        Some(kind) => if kind == ControlKind::Relative {
            None
        } else {
            Some(
                OutputEvent {
                    event_type: kind.spec_event_type(),
                    code: control_type.spec_code(),
                    value: spec_written(control_type, current, value),
                },
            )
        },
        None => None,
    }
}

/// The control surface of one virtual joystick: the value last written to
/// each of its controls, which other mappings may read.
#[derive(Debug)]
pub struct VirtualJoystick {
    pub config_key: String,
    pub name: String,
    pub controls: Vec<(String, ControlState)>,
    pub ff_enabled: bool,
    pub is_persistent: bool,
}

impl VirtualJoystick {
    /// The value last written to the control `control_name`, and 0 for a
    /// control that the joystick does not have.
    pub open spec fn spec_control_state(self, control_name: Seq<char>) -> i32 {
        match spec_get(self.controls@, control_name) {
            Some(state) => state.value,
            None => 0,
        }
    }

    /// Makes the control surface of the joystick that is configured under
    /// `joystick_config_key`, and says what to ask of the kernel for it.
    pub fn new(joystick_config_key: &str, config: &ResolvedVirtualJoystick, is_persistent: bool) -> (r: (
        VirtualJoystick,
        DevicePlan,
    ))
        ensures
            r.0.config_key@ == joystick_config_key@,
            r.0.name@ == config.name@,
            r.0.is_persistent == is_persistent,
            r.0.ff_enabled == config.spec_is_ff_enabled(),
            r.0.controls@ == spec_initial_states(config.controls@),
            r.1.keys@ == spec_plan_keys(config.controls@),
            r.1.axes@ == spec_plan_axes(config.controls@),
            r.1.force_feedback == config.spec_is_ff_enabled(),
            r.1.ff_effects_max == VJ_FF_MAX_EFFECTS,
    {
        let mut keys: Vec<u16> = Vec::new();
        let mut axes: Vec<AxisSetup> = Vec::new();
        let mut controls: Vec<(String, ControlState)> = Vec::new();
        let mut i: usize = 0;
        while i < config.controls.len()
            invariant
                i <= config.controls@.len(),
                controls@ == spec_initial_states(config.controls@.take(i as int)),
                keys@ == spec_plan_keys(config.controls@.take(i as int)),
                axes@ == spec_plan_axes(config.controls@.take(i as int)),
            decreases config.controls@.len() - i,
        {
            proof {
                assert(config.controls@.take(i + 1).drop_last() =~= config.controls@.take(i as int));
                assert(config.controls@.take(i + 1).last() == config.controls@[i as int]);
            }
            let control: &ResolvedJoystickControl = &config.controls[i].1;
            if control.control_type.is_button() {
                keys.push(control.control_type.code());
                controls.push(
                    (
                        config.controls[i].0.clone(),
                        ControlState { control_type: control.control_type, value: control.initial_value },
                    ),
                );
            } else if control.control_type.is_absolute() {
                let (fuzz, flat, resolution) = match control.properties {
                    Some(p) => (wrap_i32(p.fuzz), wrap_i32(p.flat), wrap_i32(p.resolution)),
                    None => (0, 0, 1),
                };
                axes.push(
                    AxisSetup {
                        code: control.control_type.code(),
                        value: control.initial_value,
                        minimum: control.range.from,
                        maximum: control.range.to,
                        fuzz,
                        flat,
                        resolution,
                    },
                );
                controls.push(
                    (
                        config.controls[i].0.clone(),
                        ControlState { control_type: control.control_type, value: control.initial_value },
                    ),
                );
            }
            i += 1;
        }
        proof {
            assert(config.controls@.take(i as int) =~= config.controls@);
        }
        let ff_enabled = config.is_ff_enabled();
        (
            VirtualJoystick {
                config_key: joystick_config_key.to_owned(),
                name: config.name.clone(),
                controls,
                ff_enabled,
                is_persistent,
            },
            DevicePlan { keys, axes, force_feedback: ff_enabled, ff_effects_max: 1 },
        )
    }

    /// Writes a value to the control `control_name`, and hands back the
    /// event that the kernel is to send out.
    pub fn set_control_value(&mut self, control_name: &str, value: ControlValue) -> (r: Result<
        Option<OutputEvent>,
        JoystickError,
    >)
        ensures
            final(self).config_key == old(self).config_key,
            final(self).name == old(self).name,
            final(self).ff_enabled == old(self).ff_enabled,
            final(self).is_persistent == old(self).is_persistent,
            spec_find(old(self).controls@, control_name@) is None ==> r == Err::<
                Option<OutputEvent>,
                JoystickError,
            >(JoystickError::ControlNotFound) && final(self).controls == old(self).controls,
            spec_find(old(self).controls@, control_name@) matches Some(k) ==> {
                let (key, state) = old(self).controls@[k];
                &&& r == Ok::<Option<OutputEvent>, JoystickError>(
                    spec_event(state.control_type, state.value, value),
                )
                &&& final(self).controls@ == old(self).controls@.update(
                    k,
                    (
                        key,
                        ControlState {
                            control_type: state.control_type,
                            value: spec_written(state.control_type, state.value, value),
                        },
                    ),
                )
            },
    {
        match find(&self.controls, control_name) {
            None => Err(JoystickError::ControlNotFound),
            Some(k) => {
                let state: ControlState = self.controls[k].1;
                let kind = state.control_type.kind();
                let (written, event): (i32, Option<OutputEvent>) = match kind {
                    Some(ControlKind::Button) => {
                        let v: i32 = if value.is_zero {
                            0
                        } else {
                            1
                        };
                        (
                            v,
                            Some(
                                OutputEvent {
                                    event_type: ControlKind::Button.event_type(),
                                    code: state.control_type.code(),
                                    value: v,
                                },
                            ),
                        )
                    },
                    Some(ControlKind::Absolute) => (
                        value.truncated,
                        Some(
                            OutputEvent {
                                event_type: ControlKind::Absolute.event_type(),
                                code: state.control_type.code(),
                                value: value.truncated,
                            },
                        ),
                    ),
                    _ => (state.value, None),
                };
                let key = self.controls[k].0.clone();
                self.controls.set(k, (key, ControlState { control_type: state.control_type, value: written }));
                Ok(event)
            },
        }
    }

    /// The value last written to the control `control_name`.
    pub fn get_control_state(&self, control_name: &str) -> (r: i32)
        ensures
            r == self.spec_control_state(control_name@),
    {
        match find(&self.controls, control_name) {
            Some(k) => self.controls[k].1.value,
            None => 0,
        }
    }

    /// The strength of the force that a game plays on the joystick, given
    /// the effects that were uploaded to it: always 0 for a joystick that
    /// takes no force feedback.
    pub fn get_ff_played_level(&self, ff: &FfWorkingState) -> (level: FfLevelT)
        requires
            ff.wf(),
        ensures
            level == if self.ff_enabled {
                ff.spec_played_level()
            } else {
                0
            },
    {
        if !self.ff_enabled {
            return 0;
        }
        ff.played_level()
    }
}

/// Which joysticks a clearing-out takes away.
#[derive(Debug, Clone, Copy)]
pub enum Removal<'a> {
    /// Those that are configured under the given key.
    ConfiguredAs(&'a str),
    /// Those that do not outlive a reload.
    Transient,
    /// All of them.
    Every,
}

/// Whether the clearing-out takes the joystick away.
pub open spec fn spec_goes(removal: Removal, joystick: (String, VirtualJoystick)) -> bool {
    match removal {
        Removal::ConfiguredAs(key) => joystick.1.config_key@ == key@,
        Removal::Transient => !joystick.1.is_persistent,
        Removal::Every => true,
    }
}

/// The virtual joysticks that exist, each under the key of its configuration.
#[derive(Debug)]
pub struct VirtualJoystickManager {
    pub joysticks: Vec<(String, VirtualJoystick)>,
}

impl VirtualJoystickManager {
    /// The value last written to a control of a joystick, and 0 where the
    /// joystick or the control does not exist.
    pub open spec fn spec_control_state(self, joystick_name: Seq<char>, control_name: Seq<char>) -> i32 {
        match spec_get(self.joysticks@, joystick_name) {
            Some(joystick) => joystick.spec_control_state(control_name),
            None => 0,
        }
    }

    /// A manager without joysticks.
    pub fn new() -> (r: Self)
        ensures
            r.joysticks@.len() == 0,
    {
        VirtualJoystickManager { joysticks: Vec::new() }
    }

    /// Makes the joystick `name` from its configuration, unless it exists
    /// already. For a new joystick, what to ask of the kernel comes back. An
    /// existing one stays as it is, but for whether it outlives a reload,
    /// which is set as asked.
    pub fn create_virtual_joystick(
        &mut self,
        name: &str,
        config: &ResolvedVirtualJoystick,
        is_persistent: bool,
    ) -> (plan:
        Option<DevicePlan>)
        ensures
            spec_find(old(self).joysticks@, name@) matches Some(k) ==> {
                &&& plan is None
                &&& final(self).joysticks@.len() == old(self).joysticks@.len()
                &&& forall|j: int|
                    0 <= j < old(self).joysticks@.len() && j != k ==> final(self).joysticks@[j] == old(
                        self,
                    ).joysticks@[j]
                &&& final(self).joysticks@[k].0 == old(self).joysticks@[k].0
                &&& final(self).joysticks@[k].1.is_persistent == is_persistent
                &&& final(self).joysticks@[k].1.config_key == old(self).joysticks@[k].1.config_key
                &&& final(self).joysticks@[k].1.name == old(self).joysticks@[k].1.name
                &&& final(self).joysticks@[k].1.controls == old(self).joysticks@[k].1.controls
                &&& final(self).joysticks@[k].1.ff_enabled == old(self).joysticks@[k].1.ff_enabled
            },
            spec_find(old(self).joysticks@, name@) is None ==> {
                &&& plan matches Some(p)
                &&& p.keys@ == spec_plan_keys(config.controls@)
                &&& p.axes@ == spec_plan_axes(config.controls@)
                &&& p.force_feedback == config.spec_is_ff_enabled()
                &&& final(self).joysticks@.len() == old(self).joysticks@.len() + 1
                &&& final(self).joysticks@.drop_last() == old(self).joysticks@
                &&& final(self).joysticks@.last().0@ == name@
                &&& final(self).joysticks@.last().1.config_key@ == name@
                &&& final(self).joysticks@.last().1.name@ == config.name@
                &&& final(self).joysticks@.last().1.is_persistent == is_persistent
                &&& final(self).joysticks@.last().1.controls@ == spec_initial_states(config.controls@)
            },
    {
        match find(&self.joysticks, name) {
            Some(k) => {
                let (key, existing) = self.joysticks.remove(k);
                let updated = VirtualJoystick {
                    config_key: existing.config_key,
                    name: existing.name,
                    controls: existing.controls,
                    ff_enabled: existing.ff_enabled,
                    is_persistent,
                };
                self.joysticks.insert(k, (key, updated));
                None
            },
            None => {
                let (joystick, plan) = VirtualJoystick::new(name, config, is_persistent);
                self.joysticks.push((name.to_owned(), joystick));
                proof {
                    assert(self.joysticks@.drop_last() =~= old(self).joysticks@);
                }
                Some(plan)
            },
        }
    }

    /// Takes away the joysticks that the clearing-out names, and hands them
    /// back; the others stay, in their order.
    pub fn remove_where(&mut self, removal: Removal) -> (removed: Vec<(String, VirtualJoystick)>)
        ensures
            final(self).joysticks@ == old(self).joysticks@.filter(
                |j: (String, VirtualJoystick)| !spec_goes(removal, j),
            ),
            removed@ == old(self).joysticks@.filter(|j: (String, VirtualJoystick)| spec_goes(removal, j)),
    {
        let ghost stays = |j: (String, VirtualJoystick)| !spec_goes(removal, j);
        let ghost goes = |j: (String, VirtualJoystick)| spec_goes(removal, j);
        let ghost all = self.joysticks@;
        let mut removed: Vec<(String, VirtualJoystick)> = Vec::new();
        let mut i: usize = 0;
        proof {
            reveal_with_fuel(Seq::filter, 1);
            assert(all.take(0).filter(stays) =~= self.joysticks@.take(0));
            assert(all.skip(0) =~= self.joysticks@.skip(0));
        }
        while i < self.joysticks.len()
            invariant
                i <= self.joysticks@.len(),
                stays == (|j: (String, VirtualJoystick)| !spec_goes(removal, j)),
                goes == (|j: (String, VirtualJoystick)| spec_goes(removal, j)),
                i + removed@.len() + (self.joysticks@.len() - i) == all.len(),
                self.joysticks@.take(i as int) == all.take(i + removed@.len()).filter(stays),
                self.joysticks@.skip(i as int) == all.skip(i + removed@.len()),
                removed@ == all.take(i + removed@.len()).filter(goes),
            decreases self.joysticks@.len() - i,
        {
            let ghost k = i + removed@.len();
            let ghost current = self.joysticks@;
            let ghost taken = removed@;
            proof {
                lemma_filter_step(all, k as int, stays);
                lemma_filter_step(all, k as int, goes);
                assert(current[i as int] == current.skip(i as int)[0]);
                assert(all[k as int] == all.skip(k as int)[0]);
            }
            let go = match removal {
                Removal::ConfiguredAs(key) => str_eq(self.joysticks[i].1.config_key.as_str(), key),
                Removal::Transient => !self.joysticks[i].1.is_persistent,
                Removal::Every => true,
            };
            if go {
                let joystick = self.joysticks.remove(i);
                removed.push(joystick);
                proof {
                    assert(self.joysticks@ =~= current.remove(i as int));
                    assert(self.joysticks@.take(i as int) =~= current.take(i as int));
                    assert forall|j: int| 0 <= j < self.joysticks@.len() - i implies self.joysticks@.skip(
                        i as int,
                    )[j] == all.skip(k + 1)[j] by {
                        assert(current.skip(i as int)[j + 1] == all.skip(k as int)[j + 1]);
                    }
                    assert(self.joysticks@.skip(i as int) =~= all.skip(k + 1));
                }
            } else {
                i += 1;
                proof {
                    assert(self.joysticks@.take(i as int) =~= current.take(i - 1).push(current[i - 1]));
                    assert forall|j: int| 0 <= j < self.joysticks@.len() - i implies self.joysticks@.skip(
                        i as int,
                    )[j] == all.skip(k + 1)[j] by {
                        assert(current.skip(i - 1)[j + 1] == all.skip(k as int)[j + 1]);
                    }
                    assert(self.joysticks@.skip(i as int) =~= all.skip(k + 1));
                }
            }
        }
        proof {
            assert(self.joysticks@.take(i as int) =~= self.joysticks@);
            assert(all.take(i + removed@.len()) =~= all);
        }
        removed
    }

    /// Takes away the joysticks that are configured under the given key.
    pub fn destroy_virtual_joystick_if_exists(&mut self, joystick_config_key: &str) -> (removed: Vec<
        (String, VirtualJoystick),
    >)
        ensures
            final(self).joysticks@ == old(self).joysticks@.filter(
                |j: (String, VirtualJoystick)| !spec_goes(Removal::ConfiguredAs(joystick_config_key), j),
            ),
            removed@ == old(self).joysticks@.filter(
                |j: (String, VirtualJoystick)| spec_goes(Removal::ConfiguredAs(joystick_config_key), j),
            ),
    {
        self.remove_where(Removal::ConfiguredAs(joystick_config_key))
    }

    /// Takes the joysticks away: all of them at a full shutdown, and
    /// otherwise those that do not outlive a reload.
    pub fn stop(&mut self, full_shutdown: bool) -> (removed: Vec<(String, VirtualJoystick)>)
        ensures
            full_shutdown ==> final(self).joysticks@.len() == 0 && removed@ == old(self).joysticks@,
            !full_shutdown ==> final(self).joysticks@ == old(self).joysticks@.filter(
                |j: (String, VirtualJoystick)| !spec_goes(Removal::Transient, j),
            ) && removed@ == old(self).joysticks@.filter(
                |j: (String, VirtualJoystick)| spec_goes(Removal::Transient, j),
            ),
    {
        if full_shutdown {
            let removed = self.remove_where(Removal::Every);
            proof {
                let all = old(self).joysticks@;
                let goes = |j: (String, VirtualJoystick)| spec_goes(Removal::Every, j);
                let stays = |j: (String, VirtualJoystick)| !spec_goes(Removal::Every, j);
                lemma_filter_all(all, goes);
                lemma_filter_none(all, stays);
            }
            removed
        } else {
            self.remove_where(Removal::Transient)
        }
    }

    /// Writes a value to a control of a joystick. A joystick that does not
    /// exist takes the value without a word; a control that the joystick
    /// does not have is an error.
    pub fn set_control_value(&mut self, joystick_name: &str, control_name: &str, value: ControlValue) -> (r:
        Result<Option<OutputEvent>, JoystickError>)
        ensures
            final(self).joysticks@.len() == old(self).joysticks@.len(),
            spec_find(old(self).joysticks@, joystick_name@) is None ==> r == Ok::<
                Option<OutputEvent>,
                JoystickError,
            >(None) && final(self).joysticks == old(self).joysticks,
            spec_find(old(self).joysticks@, joystick_name@) matches Some(j) ==> {
                let before = old(self).joysticks@[j].1;
                let after = final(self).joysticks@[j].1;
                &&& forall|o: int|
                    0 <= o < old(self).joysticks@.len() && o != j ==> final(self).joysticks@[o] == old(
                        self,
                    ).joysticks@[o]
                &&& final(self).joysticks@[j].0 == old(self).joysticks@[j].0
                &&& after.config_key == before.config_key
                &&& after.name == before.name
                &&& after.ff_enabled == before.ff_enabled
                &&& after.is_persistent == before.is_persistent
                &&& spec_find(before.controls@, control_name@) is None ==> r == Err::<
                    Option<OutputEvent>,
                    JoystickError,
                >(JoystickError::ControlNotFound) && after.controls == before.controls
                &&& spec_find(before.controls@, control_name@) matches Some(k) ==> {
                    let (key, state) = before.controls@[k];
                    &&& r == Ok::<Option<OutputEvent>, JoystickError>(
                        spec_event(state.control_type, state.value, value),
                    )
                    &&& after.controls@ == before.controls@.update(
                        k,
                        (
                            key,
                            ControlState {
                                control_type: state.control_type,
                                value: spec_written(state.control_type, state.value, value),
                            },
                        ),
                    )
                }
            },
    {
        match find(&self.joysticks, joystick_name) {
            None => Ok(None),
            Some(j) => {
                let (key, mut joystick) = self.joysticks.remove(j);
                let r = joystick.set_control_value(control_name, value);
                self.joysticks.insert(j, (key, joystick));
                r
            },
        }
    }

    /// The value last written to a control of a joystick.
    pub fn get_control_state(&self, joystick_name: &str, control_name: &str) -> (r: i32)
        ensures
            r == self.spec_control_state(joystick_name@, control_name@),
    {
        match find(&self.joysticks, joystick_name) {
            Some(j) => self.joysticks[j].1.get_control_state(control_name),
            None => 0,
        }
    }
}

} // verus!
