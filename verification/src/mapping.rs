use crate::config::{ControlReference, ResolvedMapping};
use crate::interval::NumInterval;
use crate::schemas::{
    ClampTransform, ResolvedPedalSmootherTransform, ResolvedSteeringTransform,
    ResolvedTransformationStep, ResolvedVirtualJoystick,
};
use crate::keyed::{find, has_key, lemma_find_none, spec_find, spec_get};
use crate::midi::{midi_message_matches_spec, spec_message_matches, MidiMessage};
use crate::mouse::MouseEvent;
use crate::lists::{holds, is_selection, lemma_filter_step, spec_holds, spec_lists};
use crate::text::str_eq;
use vstd::prelude::*;
use vstd::string::StringExecFns;

verus! {

/// The lowest rate of idle ticks, in Hz.
pub const MIN_UPDATE_RATE: u32 = 10;

/// The highest rate of idle ticks, in Hz.
pub const MAX_UPDATE_RATE: u32 = 10000;

/// The rate nearest to `rate` that the ticker supports.
pub open spec fn spec_clamp_update_rate(rate: u32) -> u32 {
    if rate < MIN_UPDATE_RATE {
        MIN_UPDATE_RATE
    } else if rate > MAX_UPDATE_RATE {
        MAX_UPDATE_RATE
    } else {
        rate
    }
}

/// Whether the step moves with time, so that it has to be run when no input
/// arrives: the steering step and the pedal smoother do.
pub open spec fn spec_is_time_driven(step: ResolvedTransformationStep) -> bool {
    step is Steering || step is PedalSmoother
}

/// Whether any of the steps moves with time.
pub open spec fn spec_has_time_driven_step(steps: Seq<ResolvedTransformationStep>) -> bool {
    exists|i: int| 0 <= i < steps.len() && spec_is_time_driven(#[trigger] steps[i])
}

/// Whether the mapping is run on idle ticks: what its record says, and
/// where the record is empty, whether any of its steps moves with time.
pub open spec fn spec_requires_idle_tick(mapping: ResolvedMapping) -> bool {
    match mapping.idle_tick_requirement_info.is_required {
        Some(b) => b,
        None => spec_has_time_driven_step(mapping.transformation@),
    }
}

/// That the mapping's record, where it is filled in, says what the steps say.
pub open spec fn record_agrees(mapping: ResolvedMapping) -> bool {
    mapping.idle_tick_requirement_info.is_required matches Some(b) ==> b
        == spec_has_time_driven_step(mapping.transformation@)
}

/// Whether the step moves with time.
pub fn is_time_driven(step: &ResolvedTransformationStep) -> (b: bool)
    ensures
        b == spec_is_time_driven(*step),
{
    match step {
        ResolvedTransformationStep::Steering { .. } => true,
        ResolvedTransformationStep::PedalSmoother { .. } => true,
        _ => false,
    }
}

/// Whether any of the steps moves with time.
pub fn has_time_driven_step(steps: &Vec<ResolvedTransformationStep>) -> (b: bool)
    ensures
        b == spec_has_time_driven_step(steps@),
{
    let mut i: usize = 0;
    while i < steps.len()
        invariant
            i <= steps.len(),
            forall|j: int| 0 <= j < i ==> !spec_is_time_driven(#[trigger] steps@[j]),
        decreases steps.len() - i,
    {
        if is_time_driven(&steps[i]) {
            return true;
        }
        i += 1;
    }
    false
}

/// Whether the mapping is run on idle ticks.
pub fn requires_idle_tick(mapping: &ResolvedMapping) -> (b: bool)
    ensures
        b == spec_requires_idle_tick(*mapping),
{
    match mapping.idle_tick_requirement_info.is_required {
        Some(b) => b,
        None => has_time_driven_step(&mapping.transformation),
    }
}

/// Whether the mapping takes part at all: it is enabled, and its
/// destination joystick is among those that were created.
pub open spec fn spec_is_active(mapping: ResolvedMapping, opened_joysticks: Seq<String>) -> bool {
    mapping.enabled && spec_holds(opened_joysticks, mapping.destination.device_key@)
}

/// Whether the pair `entry`, a runtime name and the configured device that
/// it was opened for, makes the mapping listen to the runtime name `name`.
pub open spec fn entry_routes(entry: (String, String), mapping: ResolvedMapping, name: Seq<char>) -> bool {
    entry.0@ == name && entry.1@ == mapping.source.device_key@
}

/// Whether the mapping listens to the source device of the runtime name `name`.
pub open spec fn spec_listens_to(
    mapping: ResolvedMapping,
    runtime_names: Seq<(String, String)>,
    name: Seq<char>,
) -> bool {
    exists|k: int|
        0 <= k < runtime_names.len() && entry_routes(#[trigger] runtime_names[k], mapping, name)
}

/// Whether the mapping's source device was opened under any runtime name.
pub open spec fn spec_has_open_source(
    mapping: ResolvedMapping,
    runtime_names: Seq<(String, String)>,
) -> bool {
    exists|k: int|
        0 <= k < runtime_names.len() && (#[trigger] runtime_names[k]).1@
            == mapping.source.device_key@
}

/// Whether the mapping takes part at all.
pub fn is_active(mapping: &ResolvedMapping, opened_joysticks: &Vec<String>) -> (b: bool)
    ensures
        b == spec_is_active(*mapping, opened_joysticks@),
{
    mapping.enabled && holds(opened_joysticks, mapping.destination.device_key.as_str())
}

/// Whether the mapping listens to the source device of the runtime name `name`.
pub fn listens_to(mapping: &ResolvedMapping, runtime_names: &Vec<(String, String)>, name: &str) -> (b:
    bool)
    ensures
        b == spec_listens_to(*mapping, runtime_names@, name@),
{
    let mut i: usize = 0;
    while i < runtime_names.len()
        invariant
            i <= runtime_names.len(),
            forall|j: int| 0 <= j < i ==> !entry_routes(#[trigger] runtime_names@[j], *mapping, name@),
        decreases runtime_names.len() - i,
    {
        if str_eq(runtime_names[i].0.as_str(), name) && str_eq(
            runtime_names[i].1.as_str(),
            mapping.source.device_key.as_str(),
        ) {
            assert(entry_routes(runtime_names@[i as int], *mapping, name@));
            return true;
        }
        i += 1;
    }
    false
}

/// Whether the mapping's source device was opened under any runtime name.
pub fn has_open_source(mapping: &ResolvedMapping, runtime_names: &Vec<(String, String)>) -> (b: bool)
    ensures
        b == spec_has_open_source(*mapping, runtime_names@),
{
    let mut i: usize = 0;
    while i < runtime_names.len()
        invariant
            i <= runtime_names.len(),
            forall|j: int| 0 <= j < i ==> (#[trigger] runtime_names@[j]).1@ != mapping.source.device_key@,
        decreases runtime_names.len() - i,
    {
        if str_eq(runtime_names[i].1.as_str(), mapping.source.device_key.as_str()) {
            return true;
        }
        i += 1;
    }
    false
}

/// Whether the mapping at place `i` is one that events of the runtime name
/// `name` are handed to.
pub open spec fn spec_routed_to(
    mappings: Seq<ResolvedMapping>,
    opened_joysticks: Seq<String>,
    runtime_names: Seq<(String, String)>,
    name: Seq<char>,
    i: int,
) -> bool {
    0 <= i < mappings.len() && spec_is_active(mappings[i], opened_joysticks) && spec_listens_to(
        mappings[i],
        runtime_names,
        name,
    )
}

/// Whether the mapping at place `i` is one that idle ticks are handed to.
pub open spec fn spec_ticked(
    mappings: Seq<ResolvedMapping>,
    opened_joysticks: Seq<String>,
    runtime_names: Seq<(String, String)>,
    i: int,
) -> bool {
    0 <= i < mappings.len() && spec_is_active(mappings[i], opened_joysticks)
        && spec_has_open_source(mappings[i], runtime_names) && spec_requires_idle_tick(mappings[i])
}

/// The mappings that events of the runtime name `name` are handed to, by
/// their places in `mappings`, in the order of the configuration.
pub fn mappings_for_source(
    mappings: &Vec<ResolvedMapping>,
    opened_joysticks: &Vec<String>,
    runtime_names: &Vec<(String, String)>,
    name: &str,
) -> (list: Vec<usize>)
    ensures
        is_selection(
            list@,
            mappings.len() as int,
            |i: int| spec_routed_to(mappings@, opened_joysticks@, runtime_names@, name@, i),
        ),
{
    let ghost wanted = |i: int| spec_routed_to(mappings@, opened_joysticks@, runtime_names@, name@, i);
    let mut list: Vec<usize> = Vec::new();
    let mut i: usize = 0;
    while i < mappings.len()
        invariant
            i <= mappings.len(),
            wanted == (|i: int| spec_routed_to(mappings@, opened_joysticks@, runtime_names@, name@, i)),
            is_selection(list@, i as int, wanted),
        decreases mappings.len() - i,
    {
        let ghost before = list@;
        if is_active(&mappings[i], opened_joysticks) && listens_to(&mappings[i], runtime_names, name) {
            list.push(i);
            proof {
                assert(wanted(i as int));
                assert forall|k: int| 0 <= k < i + 1 && #[trigger] wanted(k) implies spec_lists(
                    list@,
                    k,
                ) by {
                    if k < i {
                        assert(spec_lists(before, k));
                        let w = choose|w: int| 0 <= w < before.len() && #[trigger] before[w] == k;
                        assert(list@[w] == k);
                    } else {
                        assert(list@[before.len() as int] == i);
                    }
                }
            }
        } else {
            proof {
                assert(!wanted(i as int));
            }
        }
        i += 1;
    }
    list
}

/// The mappings that idle ticks are handed to, by their places in
/// `mappings`, in the order of the configuration.
pub fn mappings_for_idle_tick(
    mappings: &Vec<ResolvedMapping>,
    opened_joysticks: &Vec<String>,
    runtime_names: &Vec<(String, String)>,
) -> (list: Vec<usize>)
    ensures
        is_selection(
            list@,
            mappings.len() as int,
            |i: int| spec_ticked(mappings@, opened_joysticks@, runtime_names@, i),
        ),
{
    let ghost wanted = |i: int| spec_ticked(mappings@, opened_joysticks@, runtime_names@, i);
    let mut list: Vec<usize> = Vec::new();
    let mut i: usize = 0;
    while i < mappings.len()
        invariant
            i <= mappings.len(),
            wanted == (|i: int| spec_ticked(mappings@, opened_joysticks@, runtime_names@, i)),
            is_selection(list@, i as int, wanted),
        decreases mappings.len() - i,
    {
        let ghost before = list@;
        if is_active(&mappings[i], opened_joysticks) && has_open_source(&mappings[i], runtime_names)
            && requires_idle_tick(&mappings[i]) {
            list.push(i);
            proof {
                assert(wanted(i as int));
                assert forall|k: int| 0 <= k < i + 1 && #[trigger] wanted(k) implies spec_lists(
                    list@,
                    k,
                ) by {
                    if k < i {
                        assert(spec_lists(before, k));
                        let w = choose|w: int| 0 <= w < before.len() && #[trigger] before[w] == k;
                        assert(list@[w] == k);
                    } else {
                        assert(list@[before.len() as int] == i);
                    }
                }
            }
        } else {
            proof {
                assert(!wanted(i as int));
            }
        }
        i += 1;
    }
    list
}

/// The place at which the key of the entry `a` of the routing table first
/// stands among the runtime names.
pub open spec fn spec_place_of_key(
    router: Seq<(String, Vec<usize>)>,
    runtime_names: Seq<(String, String)>,
    a: int,
) -> Option<int> {
    spec_find(runtime_names, router[a].0@)
}

/// That `router` is the routing table of the mappings: its keys are
/// runtime names, each once, in the order in which the names first come;
/// under each stands, never empty, the selection of mappings that listen to
/// that name; and every name that some mapping listens to is a key.
pub open spec fn is_router(
    router: Seq<(String, Vec<usize>)>,
    mappings: Seq<ResolvedMapping>,
    opened_joysticks: Seq<String>,
    runtime_names: Seq<(String, String)>,
) -> bool {
    &&& forall|a: int, b: int|
        0 <= a < b < router.len() ==> (#[trigger] router[a]).0@ != (#[trigger] router[b]).0@
    &&& forall|a: int|
        0 <= a < router.len() ==> (#[trigger] router[a]).1@.len() > 0 && is_selection(
            router[a].1@,
            mappings.len() as int,
            |i: int| spec_routed_to(mappings, opened_joysticks, runtime_names, router[a].0@, i),
        )
    &&& forall|name: Seq<char>, i: int| #[trigger]
        spec_routed_to(mappings, opened_joysticks, runtime_names, name, i) ==> has_key(router, name)
    &&& forall|a: int|
        0 <= a < router.len() ==> (#[trigger] spec_place_of_key(router, runtime_names, a)) is Some
    &&& forall|a: int, b: int|
        0 <= a < b < router.len() ==> (#[trigger] spec_place_of_key(router, runtime_names, a))->0 < (
        #[trigger] spec_place_of_key(router, runtime_names, b))->0
}

/// Builds the routing table: for each runtime name, the mappings that
/// listen to it, in the order of the configuration.
pub fn build_router(
    mappings: &Vec<ResolvedMapping>,
    opened_joysticks: &Vec<String>,
    runtime_names: &Vec<(String, String)>,
) -> (router: Vec<(String, Vec<usize>)>)
    ensures
        is_router(router@, mappings@, opened_joysticks@, runtime_names@),
{
    let mut router: Vec<(String, Vec<usize>)> = Vec::new();
    let mut k: usize = 0;
    while k < runtime_names.len()
        invariant
            k <= runtime_names.len(),
            forall|a: int, b: int|
                0 <= a < b < router@.len() ==> (#[trigger] router@[a]).0@ != (#[trigger] router@[b]).0@,
            forall|a: int|
                0 <= a < router@.len() ==> (#[trigger] router@[a]).1@.len() > 0 && is_selection(
                    router@[a].1@,
                    mappings.len() as int,
                    |i: int| spec_routed_to(mappings@, opened_joysticks@, runtime_names@, router@[a].0@, i),
                ),
            forall|j: int, i: int|
                0 <= j < k && #[trigger] spec_routed_to(
                    mappings@,
                    opened_joysticks@,
                    runtime_names@,
                    (#[trigger] runtime_names@[j]).0@,
                    i,
                ) ==> has_key(router@, runtime_names@[j].0@),
            forall|a: int|
                0 <= a < router@.len() ==> (#[trigger] spec_place_of_key(router@, runtime_names@, a)) is Some
                    && spec_place_of_key(router@, runtime_names@, a)->0 < k,
            forall|a: int, b: int|
                0 <= a < b < router@.len() ==> (#[trigger] spec_place_of_key(router@, runtime_names@, a))->0
                    < (#[trigger] spec_place_of_key(router@, runtime_names@, b))->0,
        decreases runtime_names.len() - k,
    {
        let name: &str = runtime_names[k].0.as_str();
        let ghost before = router@;
        if find(&router, name).is_none() {
            let list = mappings_for_source(mappings, opened_joysticks, runtime_names, name);
            if list.len() > 0 {
                router.push((name.to_owned(), list));
                proof {
                    lemma_find_none(before, name@);
                    let last = before.len() as int;
                    assert(router@[last].0@ == name@);
                    let heard = |i: int|
                        spec_routed_to(mappings@, opened_joysticks@, runtime_names@, name@, i);
                    assert(heard(list@[0] as int));
                    assert forall|j: int| 0 <= j < k implies (#[trigger] runtime_names@[j]).0@ != name@ by {
                        if runtime_names@[j].0@ == name@ {
                            assert(spec_routed_to(
                                mappings@,
                                opened_joysticks@,
                                runtime_names@,
                                runtime_names@[j].0@,
                                list@[0] as int,
                            ));
                            assert(has_key(before, runtime_names@[j].0@));
                        }
                    }
                    crate::keyed::lemma_find_is_first(runtime_names@, name@, k as int);
                    assert(spec_place_of_key(router@, runtime_names@, last) == Some(k as int));
                    assert forall|a: int| 0 <= a < router@.len() implies (#[trigger] spec_place_of_key(
                        router@,
                        runtime_names@,
                        a,
                    )) is Some && spec_place_of_key(router@, runtime_names@, a)->0 < k + 1 by {
                        if a < last {
                            assert(router@[a] == before[a]);
                            assert(spec_place_of_key(before, runtime_names@, a) is Some);
                        }
                    }
                    assert forall|a: int, b: int| 0 <= a < b < router@.len() implies (
                    #[trigger] spec_place_of_key(router@, runtime_names@, a))->0 < (
                    #[trigger] spec_place_of_key(router@, runtime_names@, b))->0 by {
                        assert(router@[a] == before[a]);
                        assert(spec_place_of_key(before, runtime_names@, a) is Some);
                        if b < last {
                            assert(router@[b] == before[b]);
                            assert(spec_place_of_key(before, runtime_names@, b) is Some);
                        }
                    }
                    assert forall|a: int, b: int| 0 <= a < b < router@.len() implies (
                    #[trigger] router@[a]).0@ != (#[trigger] router@[b]).0@ by {
                        if b == last {
                            assert(before[a].0@ != name@);
                        } else {
                            assert(before[a].0@ != before[b].0@);
                        }
                    }
                    assert forall|a: int| 0 <= a < router@.len() implies (
                    #[trigger] router@[a]).1@.len() > 0 && is_selection(
                        router@[a].1@,
                        mappings.len() as int,
                        |i: int|
                            spec_routed_to(
                                mappings@,
                                opened_joysticks@,
                                runtime_names@,
                                router@[a].0@,
                                i,
                            ),
                    ) by {
                        if a < last {
                            assert(router@[a] == before[a]);
                        } else {
                            let f = |i: int|
                                spec_routed_to(mappings@, opened_joysticks@, runtime_names@, name@, i);
                            let g = |i: int|
                                spec_routed_to(
                                    mappings@,
                                    opened_joysticks@,
                                    runtime_names@,
                                    router@[a].0@,
                                    i,
                                );
                            assert(f =~= g);
                        }
                    }
                    assert forall|j: int, i: int|
                        0 <= j < k + 1 && #[trigger] spec_routed_to(
                            mappings@,
                            opened_joysticks@,
                            runtime_names@,
                            (#[trigger] runtime_names@[j]).0@,
                            i,
                        ) implies has_key(router@, runtime_names@[j].0@) by {
                        if j < k {
                            assert(has_key(before, runtime_names@[j].0@));
                            let w = choose|w: int|
                                0 <= w < before.len() && (#[trigger] before[w]).0@
                                    == runtime_names@[j].0@;
                            assert(router@[w].0@ == runtime_names@[j].0@);
                        } else {
                            assert(router@[last].0@ == runtime_names@[j].0@);
                        }
                    }
                }
            } else {
                proof {
                    assert forall|i: int|
                        !spec_routed_to(mappings@, opened_joysticks@, runtime_names@, name@, i) by {
                        if spec_routed_to(mappings@, opened_joysticks@, runtime_names@, name@, i) {
                            let f = |i: int|
                                spec_routed_to(mappings@, opened_joysticks@, runtime_names@, name@, i);
                            assert(f(i));
                            assert(spec_lists(list@, i));
                        }
                    }
                }
            }
        } else {
            proof {
                lemma_find_none(before, name@);
            }
        }
        k += 1;
    }
    proof {
        assert forall|name: Seq<char>, i: int| #[trigger]
            spec_routed_to(mappings@, opened_joysticks@, runtime_names@, name, i) implies has_key(
            router@,
            name,
        ) by {
            let j = choose|j: int|
                0 <= j < runtime_names@.len() && entry_routes(
                    #[trigger] runtime_names@[j],
                    mappings@[i],
                    name,
                );
            assert(runtime_names@[j].0@ == name);
            assert(spec_routed_to(
                mappings@,
                opened_joysticks@,
                runtime_names@,
                runtime_names@[j].0@,
                i,
            ));
        }
    }
    router
}

/// What the routing table holds under a runtime name is the selection of
/// the mappings that listen to that name, and nothing for a name that no
/// mapping listens to.
pub proof fn lemma_router_lookup(
    router: Seq<(String, Vec<usize>)>,
    mappings: Seq<ResolvedMapping>,
    opened_joysticks: Seq<String>,
    runtime_names: Seq<(String, String)>,
    name: Seq<char>,
)
    requires
        is_router(router, mappings, opened_joysticks, runtime_names),
    ensures
        is_selection(
            match spec_get(router, name) {
                Some(list) => list@,
                None => Seq::empty(),
            },
            mappings.len() as int,
            |i: int| spec_routed_to(mappings, opened_joysticks, runtime_names, name, i),
        ),
{
    let wanted = |i: int| spec_routed_to(mappings, opened_joysticks, runtime_names, name, i);
    lemma_find_none(router, name);
    match crate::keyed::spec_find(router, name) {
        Some(a) => {
            let there = |i: int| spec_routed_to(mappings, opened_joysticks, runtime_names, router[a].0@, i);
            assert(router[a].1@.len() > 0 && is_selection(router[a].1@, mappings.len() as int, there));
            assert(there =~= wanted);
        },
        None => {
            assert forall|i: int| 0 <= i < mappings.len() implies !#[trigger] wanted(i) by {
                if spec_routed_to(mappings, opened_joysticks, runtime_names, name, i) {
                    assert(has_key(router, name));
                }
            }
        },
    }
}

/// Whether two mappings write to the same control of the same joystick.
pub open spec fn same_destination(a: ResolvedMapping, b: ResolvedMapping) -> bool {
    a.destination.device_key@ == b.destination.device_key@ && a.destination.control_key@
        == b.destination.control_key@
}

/// That `s` is the first mapping that writes where the mapping `i` writes.
pub open spec fn is_slot(mappings: Seq<ResolvedMapping>, i: int, s: int) -> bool {
    &&& 0 <= s <= i < mappings.len()
    &&& same_destination(mappings[s], mappings[i])
    &&& forall|j: int| 0 <= j < s ==> !same_destination(#[trigger] mappings[j], mappings[i])
}

/// Whether some mapping that is run on idle ticks writes where the mapping
/// `j` writes.
pub open spec fn spec_is_ticking_destination(mappings: Seq<ResolvedMapping>, j: int) -> bool {
    exists|i: int|
        0 <= i < mappings.len() && same_destination(#[trigger] mappings[i], mappings[j])
            && spec_requires_idle_tick(mappings[i])
}

/// How many mappings the routing table holds, each counted once for every
/// runtime name under which it stands.
pub open spec fn spec_total(router: Seq<(String, Vec<usize>)>) -> nat
    decreases router.len(),
{
    if router.len() == 0 {
        0
    } else {
        spec_total(router.drop_last()) + router.last().1@.len()
    }
}

/// Whether two mappings write to the same control of the same joystick.
pub fn writes_where(a: &ResolvedMapping, b: &ResolvedMapping) -> (r: bool)
    ensures
        r == same_destination(*a, *b),
{
    str_eq(a.destination.device_key.as_str(), b.destination.device_key.as_str()) && str_eq(
        a.destination.control_key.as_str(),
        b.destination.control_key.as_str(),
    )
}

/// The first mapping that writes where the mapping `i` writes.
pub fn slot_of(mappings: &Vec<ResolvedMapping>, i: usize) -> (s: usize)
    requires
        i < mappings.len(),
    ensures
        is_slot(mappings@, i as int, s as int),
{
    let mut j: usize = 0;
    while j < i
        invariant
            j <= i < mappings.len(),
            forall|k: int| 0 <= k < j ==> !same_destination(#[trigger] mappings@[k], mappings@[i as int]),
        decreases i - j,
    {
        if writes_where(&mappings[j], &mappings[i]) {
            return j;
        }
        j += 1;
    }
    i
}

/// The state of the mapping engine that does not depend on the values that
/// flow through it: which mappings there are, which of them each source
/// device feeds, which are run on idle ticks, and for which destination
/// controls idle ticks have been switched on.
#[derive(Debug)]
pub struct MappingEngine {
    pub mappings: Vec<ResolvedMapping>,
    pub update_rate: u32,
    pub running: bool,
    /// For each runtime name of a source device, the mappings it feeds.
    pub router: Vec<(String, Vec<usize>)>,
    /// The mappings that idle ticks are handed to.
    pub idle_tick_mappings: Vec<usize>,
    /// For each mapping, the first mapping with the same destination
    /// control: the place in `idle_tick_enabled` that the two share.
    pub idle_tick_slots: Vec<usize>,
    /// Whether idle ticks are switched on for a destination control.
    pub idle_tick_enabled: Vec<bool>,
}

impl MappingEngine {
    /// The engine's parts fit together.
    pub open spec fn wf(self) -> bool {
        &&& self.idle_tick_slots@.len() == self.mappings@.len()
        &&& self.idle_tick_enabled@.len() == self.mappings@.len()
        &&& forall|i: int|
            0 <= i < self.mappings@.len() ==> is_slot(
                self.mappings@,
                i,
                (#[trigger] self.idle_tick_slots@[i]) as int,
            )
        &&& forall|a: int, b: int|
            0 <= a < self.router@.len() && 0 <= b < self.router@[a].1@.len()
                ==> #[trigger] self.router@[a].1@[b] < self.mappings@.len()
        &&& forall|a: int|
            0 <= a < self.idle_tick_mappings@.len() ==> (#[trigger] self.idle_tick_mappings@[a])
                < self.mappings@.len() && spec_requires_idle_tick(
                self.mappings@[self.idle_tick_mappings@[a] as int],
            )
        &&& forall|j: int|
            0 <= j < self.mappings@.len() && #[trigger] self.spec_idle_tick_enabled(j)
                ==> spec_is_ticking_destination(self.mappings@, j)
    }

    /// Whether idle ticks are switched on for the destination control of
    /// the mapping `i`.
    pub open spec fn spec_idle_tick_enabled(self, i: int) -> bool {
        self.idle_tick_enabled@[self.idle_tick_slots@[i] as int]
    }

    /// Whether the mapping at place `i` takes the MIDI message.
    pub open spec fn spec_takes_midi(self, msg: MidiMessage, i: usize) -> bool {
        i < self.mappings@.len() && spec_message_matches(msg.fields(), self.mappings@[i as int])
    }

    /// Whether the mapping at place `i` takes the mouse event: its source
    /// is a mouse control of the event's type.
    pub open spec fn spec_takes_mouse(self, event: MouseEvent, i: usize) -> bool {
        i < self.mappings@.len() && (self.mappings@[i as int].source.control matches ControlReference::Mouse(
            control,
        ) && control.control_type == event.control_type)
    }

    /// Whether the mapping at place `i` is due on an idle tick.
    pub open spec fn spec_is_due(self, i: usize) -> bool {
        i < self.mappings@.len() && self.spec_idle_tick_enabled(i as int)
    }

    /// The mappings that the source device of the runtime name `name` feeds.
    pub open spec fn spec_routed(self, name: Seq<char>) -> Seq<usize> {
        match spec_get(self.router@, name) {
            Some(list) => list@,
            None => Seq::empty(),
        }
    }

    /// An engine over the given mappings that has not been started: nothing
    /// is routed, and no idle ticks are switched on.
    pub fn new(mappings: Vec<ResolvedMapping>, update_rate: u32) -> (r: Self)
        ensures
            r.wf(),
            r.mappings == mappings,
            r.update_rate == update_rate,
            !r.running,
            r.router@.len() == 0,
            r.idle_tick_mappings@.len() == 0,
            forall|i: int| 0 <= i < r.idle_tick_enabled@.len() ==> !r.idle_tick_enabled@[i],
    {
        let mut slots: Vec<usize> = Vec::new();
        let mut flags: Vec<bool> = Vec::new();
        let mut i: usize = 0;
        while i < mappings.len()
            invariant
                i <= mappings.len(),
                slots@.len() == i,
                flags@.len() == i,
                forall|k: int| 0 <= k < i ==> is_slot(mappings@, k, (#[trigger] slots@[k]) as int),
                forall|k: int| 0 <= k < i ==> !flags@[k],
            decreases mappings.len() - i,
        {
            slots.push(slot_of(&mappings, i));
            flags.push(false);
            i += 1;
        }
        MappingEngine {
            mappings,
            update_rate,
            running: false,
            router: Vec::new(),
            idle_tick_mappings: Vec::new(),
            idle_tick_slots: slots,
            idle_tick_enabled: flags,
        }
    }

    /// Sets the rate of idle ticks, moved into the band that the ticker supports.
    pub fn set_update_rate(&mut self, rate: u32)
        ensures
            final(self).update_rate == spec_clamp_update_rate(rate),
            MIN_UPDATE_RATE <= final(self).update_rate <= MAX_UPDATE_RATE,
            final(self).mappings == old(self).mappings,
            final(self).running == old(self).running,
            final(self).router == old(self).router,
            final(self).idle_tick_mappings == old(self).idle_tick_mappings,
            final(self).idle_tick_slots == old(self).idle_tick_slots,
            final(self).idle_tick_enabled == old(self).idle_tick_enabled,
    {
        self.update_rate = if rate < MIN_UPDATE_RATE {
            MIN_UPDATE_RATE
        } else if rate > MAX_UPDATE_RATE {
            MAX_UPDATE_RATE
        } else {
            rate
        };
    }

    /// How many mappings the routing table holds, or the greatest number
    /// that the machine can count to where there are more.
    pub fn active_mapping_count(&self) -> (n: usize)
        ensures
            n == if spec_total(self.router@) <= usize::MAX {
                spec_total(self.router@)
            } else {
                usize::MAX as nat
            },
    {
        let mut n: usize = 0;
        let mut a: usize = 0;
        while a < self.router.len()
            invariant
                a <= self.router@.len(),
                n == if spec_total(self.router@.take(a as int)) <= usize::MAX {
                    spec_total(self.router@.take(a as int))
                } else {
                    usize::MAX as nat
                },
            decreases self.router@.len() - a,
        {
            proof {
                assert(self.router@.take(a + 1).drop_last() =~= self.router@.take(a as int));
                assert(self.router@.take(a + 1).last() == self.router@[a as int]);
            }
            let len: usize = self.router[a].1.len();
            if len > usize::MAX - n {
                n = usize::MAX;
            } else {
                n = n + len;
            }
            a += 1;
        }
        proof {
            assert(self.router@.take(a as int) =~= self.router@);
        }
        n
    }

    /// Builds the routing table and the list of mappings that idle ticks
    /// are handed to, from the joysticks that were created and the source
    /// devices that were opened, each of those given by its runtime name and
    /// the configured device that it was opened for.
    pub fn initialize(&mut self, opened_joysticks: &Vec<String>, runtime_names: &Vec<(String, String)>)
        requires
            old(self).wf(),
        ensures
            final(self).wf(),
            final(self).mappings == old(self).mappings,
            final(self).update_rate == old(self).update_rate,
            final(self).running == old(self).running,
            final(self).idle_tick_slots == old(self).idle_tick_slots,
            final(self).idle_tick_enabled == old(self).idle_tick_enabled,
            is_router(final(self).router@, old(self).mappings@, opened_joysticks@, runtime_names@),
            is_selection(
                final(self).idle_tick_mappings@,
                old(self).mappings@.len() as int,
                |i: int| spec_ticked(old(self).mappings@, opened_joysticks@, runtime_names@, i),
            ),
    {
        let router = build_router(&self.mappings, opened_joysticks, runtime_names);
        let idle = mappings_for_idle_tick(&self.mappings, opened_joysticks, runtime_names);
        proof {
            let wanted = |i: int| spec_ticked(self.mappings@, opened_joysticks@, runtime_names@, i);
            assert forall|a: int| 0 <= a < idle@.len() implies (#[trigger] idle@[a])
                < self.mappings@.len() && spec_requires_idle_tick(self.mappings@[idle@[a] as int]) by {
                assert(wanted(idle@[a] as int));
            }
        }
        self.router = router;
        self.idle_tick_mappings = idle;
        proof {
            assert forall|j: int|
                0 <= j < self.mappings@.len() && #[trigger] self.spec_idle_tick_enabled(
                    j,
                ) implies spec_is_ticking_destination(self.mappings@, j) by {
                assert(old(self).spec_idle_tick_enabled(j));
            }
        }
    }

    /// Ends the engine's loop.
    pub fn stop(&mut self)
        ensures
            !final(self).running,
            final(self).mappings == old(self).mappings,
            final(self).update_rate == old(self).update_rate,
            final(self).router == old(self).router,
            final(self).idle_tick_mappings == old(self).idle_tick_mappings,
            final(self).idle_tick_slots == old(self).idle_tick_slots,
            final(self).idle_tick_enabled == old(self).idle_tick_enabled,
    {
        self.running = false;
    }

    /// Marks the engine's loop as running.
    pub fn run(&mut self)
        ensures
            final(self).running,
            final(self).mappings == old(self).mappings,
            final(self).update_rate == old(self).update_rate,
            final(self).router == old(self).router,
            final(self).idle_tick_mappings == old(self).idle_tick_mappings,
            final(self).idle_tick_slots == old(self).idle_tick_slots,
            final(self).idle_tick_enabled == old(self).idle_tick_enabled,
    {
        self.running = true;
    }

    /// Records that the mapping `i` has been run on an input. Where the
    /// mapping has a step that moves with time, idle ticks are from now on
    /// switched on for its destination control; they are never switched off.
    /// Returns whether the switch changed.
    pub fn set_idle_tick_enabled_on_device_control_for_mapping(&mut self, i: usize) -> (changed: bool)
        requires
            old(self).wf(),
            i < old(self).mappings@.len(),
        ensures
            final(self).wf(),
            final(self).mappings == old(self).mappings,
            final(self).update_rate == old(self).update_rate,
            final(self).running == old(self).running,
            final(self).router == old(self).router,
            final(self).idle_tick_mappings == old(self).idle_tick_mappings,
            final(self).idle_tick_slots == old(self).idle_tick_slots,
            forall|j: int|
                0 <= j < old(self).mappings@.len() ==> #[trigger] final(self).spec_idle_tick_enabled(j) == (
                old(self).spec_idle_tick_enabled(j) || (same_destination(
                    old(self).mappings@[j],
                    old(self).mappings@[i as int],
                ) && spec_requires_idle_tick(old(self).mappings@[i as int]))),
            changed == (!old(self).spec_idle_tick_enabled(i as int) && spec_requires_idle_tick(
                old(self).mappings@[i as int],
            )),
    {
        let required = requires_idle_tick(&self.mappings[i]);
        let slot: usize = self.idle_tick_slots[i];
        let prev: bool = self.idle_tick_enabled[slot];
        if required && !prev {
            self.idle_tick_enabled.set(slot, true);
            proof {
                assert forall|j: int| 0 <= j < old(self).mappings@.len() implies (
                #[trigger] self.spec_idle_tick_enabled(j)) == (old(self).spec_idle_tick_enabled(j) || (
                same_destination(old(self).mappings@[j], old(self).mappings@[i as int])
                    && spec_requires_idle_tick(old(self).mappings@[i as int]))) by {
                    lemma_slots_agree(self.mappings@, j, self.idle_tick_slots@[j] as int, i as int, slot as int);
                }
                assert forall|j: int|
                    0 <= j < self.mappings@.len() && #[trigger] self.spec_idle_tick_enabled(
                        j,
                    ) implies spec_is_ticking_destination(self.mappings@, j) by {
                    if old(self).spec_idle_tick_enabled(j) {
                        assert(spec_is_ticking_destination(old(self).mappings@, j));
                    } else {
                        assert(same_destination(self.mappings@[i as int], self.mappings@[j]));
                    }
                }
            }
            true
        } else {
            proof {
                assert forall|j: int| 0 <= j < old(self).mappings@.len() implies (
                #[trigger] self.spec_idle_tick_enabled(j)) == (old(self).spec_idle_tick_enabled(j) || (
                same_destination(old(self).mappings@[j], old(self).mappings@[i as int])
                    && spec_requires_idle_tick(old(self).mappings@[i as int]))) by {
                    lemma_slots_agree(self.mappings@, j, self.idle_tick_slots@[j] as int, i as int, slot as int);
                }
            }
            false
        }
    }

    /// The mappings to run on an idle tick, in the order of the
    /// configuration: those that idle ticks are handed to and whose
    /// destination control has idle ticks switched on.
    pub fn process_idle_tick(&self) -> (due: Vec<usize>)
        requires
            self.wf(),
        ensures
            due@ == self.idle_tick_mappings@.filter(|i: usize| self.spec_is_due(i)),
            forall|k: int|
                0 <= k < due@.len() ==> (#[trigger] due@[k]) < self.mappings@.len()
                    && spec_requires_idle_tick(self.mappings@[due@[k] as int])
                    && self.spec_idle_tick_enabled(due@[k] as int),
    {
        let ghost pred = |i: usize| self.spec_is_due(i);
        let mut due: Vec<usize> = Vec::new();
        let mut a: usize = 0;
        while a < self.idle_tick_mappings.len()
            invariant
                self.wf(),
                a <= self.idle_tick_mappings@.len(),
                pred == (|i: usize| self.spec_is_due(i)),
                due@ == self.idle_tick_mappings@.take(a as int).filter(pred),
                forall|k: int|
                    0 <= k < due@.len() ==> (#[trigger] due@[k]) < self.mappings@.len()
                        && spec_requires_idle_tick(self.mappings@[due@[k] as int])
                        && self.spec_idle_tick_enabled(due@[k] as int),
            decreases self.idle_tick_mappings@.len() - a,
        {
            let i: usize = self.idle_tick_mappings[a];
            proof {
                lemma_filter_step(self.idle_tick_mappings@, a as int, pred);
            }
            if self.idle_tick_enabled[self.idle_tick_slots[i]] {
                due.push(i);
            }
            a += 1;
        }
        proof {
            assert(self.idle_tick_mappings@.take(a as int) =~= self.idle_tick_mappings@);
        }
        due
    }

    /// The mappings to run on a MIDI message, in the order of the
    /// configuration: those that the sending device feeds and whose source
    /// control listens for such a message.
    pub fn process_midi_message(&self, msg: &MidiMessage) -> (taken: Vec<usize>)
        requires
            self.wf(),
        ensures
            taken@ == self.spec_routed(msg.device_name@).filter(|i: usize| self.spec_takes_midi(*msg, i)),
    {
        let ghost pred = |i: usize| self.spec_takes_midi(*msg, i);
        let mut taken: Vec<usize> = Vec::new();
        let place = match find(&self.router, msg.device_name.as_str()) {
            Some(p) => p,
            None => {
                proof {
                    reveal_with_fuel(Seq::filter, 1);
                }
                return taken;
            },
        };
        let list: &Vec<usize> = &self.router[place].1;
        let mut a: usize = 0;
        while a < list.len()
            invariant
                self.wf(),
                place < self.router@.len(),
                *list == self.router@[place as int].1,
                a <= list@.len(),
                pred == (|i: usize| self.spec_takes_midi(*msg, i)),
                taken@ == list@.take(a as int).filter(pred),
            decreases list@.len() - a,
        {
            let i: usize = list[a];
            proof {
                lemma_filter_step(list@, a as int, pred);
                assert(self.router@[place as int].1@[a as int] < self.mappings@.len());
            }
            if midi_message_matches_spec(msg, &self.mappings[i]) {
                taken.push(i);
            }
            a += 1;
        }
        proof {
            assert(list@.take(a as int) =~= list@);
        }
        taken
    }

    /// The mappings to run on a mouse event, in the order of the
    /// configuration: those that the device feeds and whose source control
    /// is of the event's type.
    pub fn process_mouse_event(&self, event: &MouseEvent) -> (taken: Vec<usize>)
        requires
            self.wf(),
        ensures
            taken@ == self.spec_routed(event.device_key@).filter(
                |i: usize| self.spec_takes_mouse(*event, i),
            ),
    {
        let ghost pred = |i: usize| self.spec_takes_mouse(*event, i);
        let mut taken: Vec<usize> = Vec::new();
        let place = match find(&self.router, event.device_key.as_str()) {
            Some(p) => p,
            None => {
                proof {
                    reveal_with_fuel(Seq::filter, 1);
                }
                return taken;
            },
        };
        let list: &Vec<usize> = &self.router[place].1;
        let mut a: usize = 0;
        while a < list.len()
            invariant
                self.wf(),
                place < self.router@.len(),
                *list == self.router@[place as int].1,
                a <= list@.len(),
                pred == (|i: usize| self.spec_takes_mouse(*event, i)),
                taken@ == list@.take(a as int).filter(pred),
            decreases list@.len() - a,
        {
            let i: usize = list[a];
            proof {
                lemma_filter_step(list@, a as int, pred);
                assert(self.router@[place as int].1@[a as int] < self.mappings@.len());
            }
            let fits = match &self.mappings[i].source.control {
                ControlReference::Mouse(control) => control.control_type == event.control_type,
                ControlReference::Midi(_) => false,
            };
            if fits {
                taken.push(i);
            }
            a += 1;
        }
        proof {
            assert(list@.take(a as int) =~= list@);
        }
        taken
    }
}

/// Two mappings share a place for their idle-tick switch exactly where they
/// write to the same control.
pub proof fn lemma_slots_agree(mappings: Seq<ResolvedMapping>, i: int, si: int, j: int, sj: int)
    requires
        is_slot(mappings, i, si),
        is_slot(mappings, j, sj),
    ensures
        si == sj <==> same_destination(mappings[i], mappings[j]),
{
    if same_destination(mappings[i], mappings[j]) {
        if si < sj {
            assert(!same_destination(mappings[si], mappings[j]));
        } else if sj < si {
            assert(!same_destination(mappings[sj], mappings[i]));
        }
    }
}

/// A mapping without a step that moves with time is never run on an idle
/// tick, as long as its record does not claim otherwise.
pub proof fn lemma_stateless_mapping_never_ticked(engine: MappingEngine, i: usize)
    requires
        engine.wf(),
        i < engine.mappings@.len(),
        record_agrees(engine.mappings@[i as int]),
        !spec_has_time_driven_step(engine.mappings@[i as int].transformation@),
    ensures
        !engine.idle_tick_mappings@.contains(i),
        !engine.idle_tick_mappings@.filter(|k: usize| engine.spec_is_due(k)).contains(i),
{
    let pred = |k: usize| engine.spec_is_due(k);
    if engine.idle_tick_mappings@.contains(i) {
        let a = choose|a: int|
            0 <= a < engine.idle_tick_mappings@.len() && engine.idle_tick_mappings@[a] == i;
        assert(spec_requires_idle_tick(engine.mappings@[engine.idle_tick_mappings@[a] as int]));
    }
    if engine.idle_tick_mappings@.filter(pred).contains(i) {
        engine.idle_tick_mappings@.lemma_filter_contains_rev(pred, i);
    }
}

/// What the pipeline does with one step on one run.
#[derive(Debug, Clone, Copy, PartialEq, Eq, Structural)]
pub enum StepAction {
    /// The step computes: it takes the value and the range that arrive and
    /// hands on its own.
    Apply,
    /// The step moves its state on with the value that arrives, and hands
    /// on that value and the range unchanged.
    AdvanceOnly,
    /// The step is passed over: value, range and state stay as they are.
    Skip,
}

/// Whether a step that may be switched off for idle ticks is switched on
/// for them; it is unless the configuration says otherwise.
pub open spec fn spec_runs_on_idle(on_idle: Option<bool>) -> bool {
    match on_idle {
        Some(b) => b,
        None => true,
    }
}

/// What the pipeline does with the step on an input (`is_idle_tick` false)
/// or on an idle tick. On an input every step computes. On an idle tick the
/// integrator is passed over; a curve that is switched off for idle ticks
/// is passed over; a filter that is switched off for them still moves its
/// state on; every other step computes.
pub open spec fn spec_step_action(step: ResolvedTransformationStep, is_idle_tick: bool) -> StepAction {
    if !is_idle_tick {
        StepAction::Apply
    } else {
        match step {
            ResolvedTransformationStep::Invert { .. } => StepAction::Apply,
            ResolvedTransformationStep::Clamp { .. } => StepAction::Apply,
            ResolvedTransformationStep::Steering { .. } => StepAction::Apply,
            ResolvedTransformationStep::PedalSmoother { .. } => StepAction::Apply,
            ResolvedTransformationStep::Integrate { .. } => StepAction::Skip,
            ResolvedTransformationStep::EmaFilter { ema_filter, .. } => if spec_runs_on_idle(
                ema_filter.on_idle,
            ) {
                StepAction::Apply
            } else {
                StepAction::AdvanceOnly
            },
            ResolvedTransformationStep::LowPass { lowpass, .. } => if spec_runs_on_idle(lowpass.on_idle) {
                StepAction::Apply
            } else {
                StepAction::AdvanceOnly
            },
            ResolvedTransformationStep::HighPass { highpass, .. } => if spec_runs_on_idle(
                highpass.on_idle,
            ) {
                StepAction::Apply
            } else {
                StepAction::AdvanceOnly
            },
            ResolvedTransformationStep::Linear { linear } => if spec_runs_on_idle(linear.on_idle) {
                StepAction::Apply
            } else {
                StepAction::Skip
            },
            ResolvedTransformationStep::Quadratic { quadratic_curve } => if spec_runs_on_idle(
                quadratic_curve.on_idle,
            ) {
                StepAction::Apply
            } else {
                StepAction::Skip
            },
            ResolvedTransformationStep::Cubic { cubic_curve } => if spec_runs_on_idle(
                cubic_curve.on_idle,
            ) {
                StepAction::Apply
            } else {
                StepAction::Skip
            },
            ResolvedTransformationStep::Smoothstep { smoothstep_curve } => if spec_runs_on_idle(
                smoothstep_curve.on_idle,
            ) {
                StepAction::Apply
            } else {
                StepAction::Skip
            },
            ResolvedTransformationStep::SCurve { s_curve } => if spec_runs_on_idle(s_curve.on_idle) {
                StepAction::Apply
            } else {
                StepAction::Skip
            },
            ResolvedTransformationStep::Exponential { exp_curve } => if spec_runs_on_idle(
                exp_curve.on_idle,
            ) {
                StepAction::Apply
            } else {
                StepAction::Skip
            },
            ResolvedTransformationStep::Power { power_curve } => if spec_runs_on_idle(
                power_curve.on_idle,
            ) {
                StepAction::Apply
            } else {
                StepAction::Skip
            },
            ResolvedTransformationStep::SymmetricPower { symmetric_power_curve } => if spec_runs_on_idle(
                symmetric_power_curve.on_idle,
            ) {
                StepAction::Apply
            } else {
                StepAction::Skip
            },
        }
    }
}

fn gate(on_idle: Option<bool>, otherwise: StepAction) -> (r: StepAction)
    ensures
        r == if spec_runs_on_idle(on_idle) {
            StepAction::Apply
        } else {
            otherwise
        },
{
    match on_idle {
        Some(false) => otherwise,
        _ => StepAction::Apply,
    }
}

/// What the pipeline does with the step on an input or on an idle tick.
pub fn plan_transformation_step(step: &ResolvedTransformationStep, is_idle_tick: bool) -> (r: StepAction)
    ensures
        r == spec_step_action(*step, is_idle_tick),
{
    if !is_idle_tick {
        return StepAction::Apply;
    }
    match step {
        ResolvedTransformationStep::Invert { .. } => StepAction::Apply,
        ResolvedTransformationStep::Clamp { .. } => StepAction::Apply,
        ResolvedTransformationStep::Steering { .. } => StepAction::Apply,
        ResolvedTransformationStep::PedalSmoother { .. } => StepAction::Apply,
        ResolvedTransformationStep::Integrate { .. } => StepAction::Skip,
        ResolvedTransformationStep::EmaFilter { ema_filter, .. } => gate(
            ema_filter.on_idle,
            StepAction::AdvanceOnly,
        ),
        ResolvedTransformationStep::LowPass { lowpass, .. } => gate(
            lowpass.on_idle,
            StepAction::AdvanceOnly,
        ),
        ResolvedTransformationStep::HighPass { highpass, .. } => gate(
            highpass.on_idle,
            StepAction::AdvanceOnly,
        ),
        ResolvedTransformationStep::Linear { linear } => gate(linear.on_idle, StepAction::Skip),
        ResolvedTransformationStep::Quadratic { quadratic_curve } => gate(
            quadratic_curve.on_idle,
            StepAction::Skip,
        ),
        ResolvedTransformationStep::Cubic { cubic_curve } => gate(cubic_curve.on_idle, StepAction::Skip),
        ResolvedTransformationStep::Smoothstep { smoothstep_curve } => gate(
            smoothstep_curve.on_idle,
            StepAction::Skip,
        ),
        ResolvedTransformationStep::SCurve { s_curve } => gate(s_curve.on_idle, StepAction::Skip),
        ResolvedTransformationStep::Exponential { exp_curve } => gate(
            exp_curve.on_idle,
            StepAction::Skip,
        ),
        ResolvedTransformationStep::Power { power_curve } => gate(power_curve.on_idle, StepAction::Skip),
        ResolvedTransformationStep::SymmetricPower { symmetric_power_curve } => gate(
            symmetric_power_curve.on_idle,
            StepAction::Skip,
        ),
    }
}

/// What the pipeline does with each step of the mapping, in order, on an
/// input or on an idle tick.
pub fn plan_transformation(mapping: &ResolvedMapping, is_idle_tick: bool) -> (plan: Vec<StepAction>)
    ensures
        plan@.len() == mapping.transformation@.len(),
        forall|k: int|
            0 <= k < plan@.len() ==> #[trigger] plan@[k] == spec_step_action(
                mapping.transformation@[k],
                is_idle_tick,
            ),
{
    let mut plan: Vec<StepAction> = Vec::new();
    let mut k: usize = 0;
    while k < mapping.transformation.len()
        invariant
            k <= mapping.transformation@.len(),
            plan@.len() == k,
            forall|j: int|
                0 <= j < k ==> #[trigger] plan@[j] == spec_step_action(
                    mapping.transformation@[j],
                    is_idle_tick,
                ),
        decreases mapping.transformation@.len() - k,
    {
        plan.push(plan_transformation_step(&mapping.transformation[k], is_idle_tick));
        k += 1;
    }
    plan
}

/// The range in which the mapping's source reports: that of its control,
/// and `[0, 127]` for a MIDI control that names none.
pub open spec fn spec_source_range(mapping: ResolvedMapping) -> NumInterval<i32> {
    match mapping.source.control {
        ControlReference::Mouse(control) => control.range,
        ControlReference::Midi(control) => match control.range {
            Some(range) => range,
            None => NumInterval { from: 0, to: 127 },
        },
    }
}

/// The range in which the mapping's source reports.
pub fn source_range(mapping: &ResolvedMapping) -> (r: NumInterval<i32>)
    ensures
        r == spec_source_range(*mapping),
{
    match &mapping.source.control {
        ControlReference::Mouse(control) => control.range,
        ControlReference::Midi(control) => match control.range {
            Some(range) => range,
            None => NumInterval::new(0, 127),
        },
    }
}

/// The range of the mapping's destination control.
pub fn destination_range(mapping: &ResolvedMapping) -> (r: NumInterval<i32>)
    ensures
        r == mapping.destination.control.range,
{
    mapping.destination.control.range
}

/// The interval that a clamp step clamps onto, for a value that arrives
/// with the range `current`: the step's own ends, and the end of `current`
/// in place of one that the step does not give.
pub open spec fn spec_clamp_range(clamp: ClampTransform, current: NumInterval<i32>) -> NumInterval<i32> {
    NumInterval::spec_new(
        match clamp.from {
            Some(from) => from,
            None => current.from,
        },
        match clamp.to {
            Some(to) => to,
            None => current.to,
        },
    )
}

/// The interval that a clamp step clamps onto.
pub fn clamp_range(clamp: &ClampTransform, current: &NumInterval<i32>) -> (r: NumInterval<i32>)
    ensures
        r == spec_clamp_range(*clamp, *current),
        r.wf(),
{
    let from: i32 = match clamp.from {
        Some(from) => from,
        None => current.from,
    };
    let to: i32 = match clamp.to {
        Some(to) => to,
        None => current.to,
    };
    NumInterval::new(from, to)
}

/// The range that a value leaves a clamp step with: the interval clamped
/// onto where the step overrides the range, and the range it came with
/// where not.
pub fn range_after_clamp(clamp: &ClampTransform, current: &NumInterval<i32>) -> (r: NumInterval<i32>)
    ensures
        r == if clamp.override_range {
            spec_clamp_range(*clamp, *current)
        } else {
            *current
        },
{
    if clamp.override_range {
        clamp_range(clamp, current)
    } else {
        *current
    }
}

/// The name under which a mapping is spoken of: its own, or its source and
/// destination where it has none.
pub open spec fn spec_mapping_label(mapping: ResolvedMapping) -> Seq<char> {
    match mapping.name {
        Some(name) => name@,
        None => mapping.source.device_key@ + "."@ + mapping.source.control_key@ + " -> "@
            + mapping.destination.device_key@ + "."@ + mapping.destination.control_key@,
    }
}

/// The name under which a mapping is spoken of.
pub fn mapping_to_string(mapping: &ResolvedMapping) -> (r: String)
    ensures
        r@ == spec_mapping_label(*mapping),
{
    match &mapping.name {
        Some(name) => name.clone(),
        None => {
            let mut label = mapping.source.device_key.clone();
            label.append(".");
            label.append(mapping.source.control_key.as_str());
            label.append(" -> ");
            label.append(mapping.destination.device_key.as_str());
            label.append(".");
            label.append(mapping.destination.control_key.as_str());
            label
        },
    }
}

/// The value that enters the mapping's pipeline for the raw value that the
/// source reported: the raw value itself where it lies in the source's
/// range, and the nearest end of the range where not. The flag says whether
/// the raw value was out of range.
pub fn clamp_to_source(mapping: &ResolvedMapping, raw_value: i32) -> (r: (i32, bool))
    ensures
        r.0 == spec_source_range(*mapping).spec_clamp(raw_value as int),
        r.1 == !spec_source_range(*mapping).spec_contains_inclusive(raw_value as int),
        !r.1 ==> r.0 == raw_value,
{
    let range = source_range(mapping);
    (range.clamp(raw_value), !range.contains_inclusive(raw_value))
}

/// Whether the steering step lets the force that a game plays on the
/// destination joystick push the wheel: it does where it is configured for
/// force feedback and that is switched on.
pub fn steering_reads_force(steering: &ResolvedSteeringTransform) -> (b: bool)
    ensures
        b == (steering.force_feedback matches Some(f) && f.enabled),
{
    match &steering.force_feedback {
        Some(f) => f.enabled,
        None => false,
    }
}

/// What one run of the steering step finds, as far as its course depends on it.
#[derive(Debug, Clone, Copy, PartialEq, Eq, Structural)]
pub struct SteeringConditions {
    /// The input moves the wheel: the movement it asks for is not zero.
    pub has_input: bool,
    /// The force that the game plays is stronger than a thousandth of the
    /// greatest force.
    pub force_is_felt: bool,
    /// The force that the game plays is weaker than a thousandth of the
    /// greatest force.
    pub force_is_still: bool,
    /// The half-life of the return to the centre is above zero.
    pub has_halflife: bool,
    /// Time has passed since the step last ran.
    pub time_has_passed: bool,
}

/// Which parts of the steering step take effect on one run.
#[derive(Debug, Clone, Copy, PartialEq, Eq, Structural)]
pub struct SteeringPlan {
    /// The new position is shaped by the power curve.
    pub apply_power_curve: bool,
    /// The new position is smoothed by the step's own filter.
    pub apply_input_filter: bool,
    /// The force that the game plays pushes the wheel.
    pub push_by_force: bool,
    /// The wheel drifts back toward the centre.
    pub auto_center: bool,
}

/// Which parts of the steering step take effect. Curve and filter shape
/// the position only on an input that moves the wheel, and only where the
/// step has them. The force pushes the wheel only where the step reads it
/// and it is felt. The wheel drifts back to the centre only when nothing
/// moves it: no input, no force that is not still, and time has passed on a
/// step with a half-life.
pub open spec fn spec_steering_plan(
    steering: ResolvedSteeringTransform,
    c: SteeringConditions,
) -> SteeringPlan {
    let reads_force = steering.force_feedback matches Some(f) && f.enabled;
    SteeringPlan {
        apply_power_curve: c.has_input && steering.user_input_power_curve is Some,
        apply_input_filter: c.has_input && steering.user_input_ema_filter_average is Some,
        push_by_force: reads_force && c.force_is_felt,
        auto_center: c.has_halflife && c.time_has_passed && !c.has_input && (!reads_force
            || c.force_is_still),
    }
}

/// Which parts of the steering step take effect on one run.
pub fn steering_plan(steering: &ResolvedSteeringTransform, c: SteeringConditions) -> (plan: SteeringPlan)
    ensures
        plan == spec_steering_plan(*steering, c),
        !(steering.force_feedback matches Some(f) && f.enabled) ==> !plan.push_by_force && plan.auto_center
            == (c.has_halflife && c.time_has_passed && !c.has_input),
        c.has_input ==> !plan.auto_center,
{
    let reads_force = steering_reads_force(steering);
    SteeringPlan {
        apply_power_curve: c.has_input && steering.user_input_power_curve.is_some(),
        apply_input_filter: c.has_input && steering.user_input_ema_filter_average.is_some(),
        push_by_force: reads_force && c.force_is_felt,
        auto_center: c.has_halflife && c.time_has_passed && !c.has_input && (!reads_force
            || c.force_is_still),
    }
}

/// What one run of the pedal smoother finds, as far as its course depends on it.
#[derive(Debug, Clone, Copy, PartialEq, Eq, Structural)]
pub struct PedalConditions {
    pub is_idle_tick: bool,
    /// Time has passed since the step last ran.
    pub time_has_passed: bool,
    /// The target lies above the output.
    pub is_rising: bool,
    /// The delay before a fall is shorter than the time since the last input.
    pub delay_has_passed: bool,
}

/// What the pedal smoother does on one run.
#[derive(Debug, Clone, Copy, PartialEq, Eq, Structural)]
pub enum PedalAction {
    /// An input arrived: it becomes the target, the time is noted, and the
    /// output stays where it is.
    TakeTarget,
    /// The output moves toward the target at the rate of rising.
    Rise,
    /// The output moves toward the target at the rate of falling.
    Fall,
    /// The output would fall, but the delay since the last input has not
    /// passed: it stays where it is.
    Wait,
    /// No time has passed: the output stays where it is.
    Hold,
}

/// What the pedal smoother does on one run: an input only sets the target;
/// idle ticks move the output, rising at once and falling after the delay,
/// where the step has one.
pub open spec fn spec_pedal_action(
    pedal_smoother: ResolvedPedalSmootherTransform,
    c: PedalConditions,
) -> PedalAction {
    if !c.is_idle_tick {
        PedalAction::TakeTarget
    } else if !c.time_has_passed {
        PedalAction::Hold
    } else if c.is_rising {
        PedalAction::Rise
    } else if pedal_smoother.fall_delay is Some && !c.delay_has_passed {
        PedalAction::Wait
    } else {
        PedalAction::Fall
    }
}

/// What the pedal smoother does on one run.
pub fn pedal_action(pedal_smoother: &ResolvedPedalSmootherTransform, c: PedalConditions) -> (r: PedalAction)
    ensures
        r == spec_pedal_action(*pedal_smoother, c),
{
    if !c.is_idle_tick {
        PedalAction::TakeTarget
    } else if !c.time_has_passed {
        PedalAction::Hold
    } else if c.is_rising {
        PedalAction::Rise
    } else if pedal_smoother.fall_delay.is_some() && !c.delay_has_passed {
        PedalAction::Wait
    } else {
        PedalAction::Fall
    }
}

/// Why the engine could not be prepared.
#[derive(Debug, Clone, Copy, PartialEq, Eq, Structural)]
pub enum EngineError {
    /// An enabled mapping writes to a joystick that was not resolved.
    JoystickNotResolved,
}

/// Whether an enabled mapping before place `n` has the string as the key
/// of its source device (`of_source`) or of its destination joystick.
pub open spec fn spec_is_wanted(
    mappings: Seq<ResolvedMapping>,
    n: int,
    of_source: bool,
    key: Seq<char>,
) -> bool {
    exists|i: int|
        0 <= i < n && (#[trigger] mappings[i]).enabled && key == if of_source {
            mappings[i].source.device_key@
        } else {
            mappings[i].destination.device_key@
        }
}

/// The keys of the source devices (`of_source`) or of the destination
/// joysticks that the enabled mappings name, each once, in the order in
/// which the mappings first name them.
pub fn wanted_device_keys(mappings: &Vec<ResolvedMapping>, of_source: bool) -> (keys: Vec<String>)
    ensures
        forall|a: int, b: int| 0 <= a < b < keys@.len() ==> (#[trigger] keys@[a])@ != (#[trigger] keys@[b])@,
        forall|key: Seq<char>|
            spec_holds(keys@, key) <==> spec_is_wanted(mappings@, mappings@.len() as int, of_source, key),
{
    let mut keys: Vec<String> = Vec::new();
    let mut i: usize = 0;
    while i < mappings.len()
        invariant
            i <= mappings@.len(),
            forall|a: int, b: int|
                0 <= a < b < keys@.len() ==> (#[trigger] keys@[a])@ != (#[trigger] keys@[b])@,
            forall|key: Seq<char>|
                spec_holds(keys@, key) <==> spec_is_wanted(mappings@, i as int, of_source, key),
        decreases mappings@.len() - i,
    {
        let ghost before = keys@;
        let key: &String = if of_source {
            &mappings[i].source.device_key
        } else {
            &mappings[i].destination.device_key
        };
        if mappings[i].enabled && !holds(&keys, key.as_str()) {
            keys.push(key.clone());
            proof {
                assert forall|k: Seq<char>| spec_holds(keys@, k) <==> spec_is_wanted(
                    mappings@,
                    i + 1,
                    of_source,
                    k,
                ) by {
                    if spec_holds(keys@, k) {
                        let w = choose|w: int| 0 <= w < keys@.len() && (#[trigger] keys@[w])@ == k;
                        if w < before.len() {
                            assert(before[w]@ == k);
                            assert(spec_holds(before, k));
                            let j = choose|j: int|
                                0 <= j < i && (#[trigger] mappings@[j]).enabled && k == if of_source {
                                    mappings@[j].source.device_key@
                                } else {
                                    mappings@[j].destination.device_key@
                                };
                            assert(mappings@[j].enabled);
                        } else {
                            assert(mappings@[i as int].enabled);
                        }
                    }
                    if spec_is_wanted(mappings@, i + 1, of_source, k) {
                        let j = choose|j: int|
                            0 <= j < i + 1 && (#[trigger] mappings@[j]).enabled && k == if of_source {
                                mappings@[j].source.device_key@
                            } else {
                                mappings@[j].destination.device_key@
                            };
                        if j < i {
                            assert(spec_is_wanted(mappings@, i as int, of_source, k));
                            assert(spec_holds(before, k));
                            let w = choose|w: int| 0 <= w < before.len() && (#[trigger] before[w])@ == k;
                            assert(keys@[w]@ == k);
                        } else {
                            assert(keys@[before.len() as int]@ == k);
                        }
                    }
                }
                assert forall|a: int, b: int| 0 <= a < b < keys@.len() implies (#[trigger] keys@[a])@ != (
                #[trigger] keys@[b])@ by {
                    if b == before.len() {
                        assert(before[a]@ != key@);
                    } else {
                        assert(before[a]@ != before[b]@);
                    }
                }
            }
        } else {
            proof {
                assert forall|k: Seq<char>| spec_holds(keys@, k) <==> spec_is_wanted(
                    mappings@,
                    i + 1,
                    of_source,
                    k,
                ) by {
                    if spec_holds(keys@, k) {
                        let j = choose|j: int|
                            0 <= j < i && (#[trigger] mappings@[j]).enabled && k == if of_source {
                                mappings@[j].source.device_key@
                            } else {
                                mappings@[j].destination.device_key@
                            };
                        assert(mappings@[j].enabled);
                    }
                    if spec_is_wanted(mappings@, i + 1, of_source, k) {
                        let j = choose|j: int|
                            0 <= j < i + 1 && (#[trigger] mappings@[j]).enabled && k == if of_source {
                                mappings@[j].source.device_key@
                            } else {
                                mappings@[j].destination.device_key@
                            };
                        if j < i {
                            assert(spec_is_wanted(mappings@, i as int, of_source, k));
                        } else {
                            assert(spec_holds(keys@, key@));
                        }
                    }
                }
            }
        }
        i += 1;
    }
    keys
}

/// Of the joysticks that the enabled mappings write to, those that are
/// enabled, by their keys. A joystick that was not resolved is an error.
pub fn usable_joysticks(
    mappings: &Vec<ResolvedMapping>,
    joysticks: &Vec<(String, ResolvedVirtualJoystick)>,
) -> (r:
    Result<Vec<String>, EngineError>)
    ensures
        r matches Ok(keys) ==> forall|key: Seq<char>|
            spec_holds(keys@, key) <==> (spec_is_wanted(mappings@, mappings@.len() as int, false, key)
                && (spec_get(joysticks@, key) matches Some(j) && j.enabled)),
        r matches Ok(_) ==> forall|key: Seq<char>|
            spec_is_wanted(mappings@, mappings@.len() as int, false, key) ==> has_key(joysticks@, key),
        r matches Err(_) ==> exists|key: Seq<char>|
            #![trigger has_key(joysticks@, key)]
            spec_is_wanted(mappings@, mappings@.len() as int, false, key) && !has_key(joysticks@, key),
{
    let wanted = wanted_device_keys(mappings, false);
    let mut keys: Vec<String> = Vec::new();
    let mut i: usize = 0;
    while i < wanted.len()
        invariant
            i <= wanted@.len(),
            forall|a: int, b: int|
                0 <= a < b < wanted@.len() ==> (#[trigger] wanted@[a])@ != (#[trigger] wanted@[b])@,
            forall|key: Seq<char>|
                spec_holds(wanted@, key) <==> spec_is_wanted(mappings@, mappings@.len() as int, false, key),
            forall|key: Seq<char>|
                spec_holds(keys@, key) <==> (spec_holds(wanted@.take(i as int), key) && (spec_get(
                    joysticks@,
                    key,
                ) matches Some(j) && j.enabled)),
            forall|a: int| 0 <= a < i ==> has_key(joysticks@, (#[trigger] wanted@[a])@),
        decreases wanted@.len() - i,
    {
        let ghost before = keys@;
        proof {
            lemma_find_none(joysticks@, wanted@[i as int]@);
        }
        match find(joysticks, wanted[i].as_str()) {
            None => {
                proof {
                    assert(spec_holds(wanted@, wanted@[i as int]@));
                }
                return Err(EngineError::JoystickNotResolved);
            },
            Some(j) => {
                let enabled = joysticks[j].1.enabled;
                if enabled {
                    keys.push(wanted[i].clone());
                }
                proof {
                    let this = wanted@[i as int]@;
                    assert(wanted@.take(i + 1) =~= wanted@.take(i as int).push(wanted@[i as int]));
                    assert forall|key: Seq<char>| spec_holds(keys@, key) <==> (spec_holds(
                        wanted@.take(i + 1),
                        key,
                    ) && (spec_get(joysticks@, key) matches Some(j) && j.enabled)) by {
                        if spec_holds(keys@, key) {
                            let w = choose|w: int| 0 <= w < keys@.len() && (#[trigger] keys@[w])@ == key;
                            if w < before.len() {
                                assert(before[w]@ == key);
                                assert(spec_holds(before, key));
                                let v = choose|v: int|
                                    0 <= v < wanted@.take(i as int).len() && (#[trigger] wanted@.take(
                                        i as int,
                                    )[v])@ == key;
                                assert(wanted@.take(i + 1)[v]@ == key);
                            } else {
                                assert(wanted@.take(i + 1)[i as int]@ == key);
                            }
                        }
                        if spec_holds(wanted@.take(i + 1), key) && (spec_get(joysticks@, key) matches Some(
                            j,
                        ) && j.enabled) {
                            let v = choose|v: int|
                                0 <= v < wanted@.take(i + 1).len() && (#[trigger] wanted@.take(i + 1)[v])@
                                    == key;
                            if v < i {
                                assert(wanted@.take(i as int)[v]@ == key);
                                assert(spec_holds(wanted@.take(i as int), key));
                                assert(spec_holds(before, key));
                                let w = choose|w: int| 0 <= w < before.len() && (#[trigger] before[w])@ == key;
                                assert(keys@[w]@ == key);
                            } else {
                                assert(key == this);
                                assert(enabled);
                                assert(keys@[before.len() as int]@ == key);
                            }
                        }
                    }
                }
            },
        }
        i += 1;
    }
    proof {
        assert(wanted@.take(i as int) =~= wanted@);
        assert forall|key: Seq<char>|
            spec_is_wanted(mappings@, mappings@.len() as int, false, key) implies has_key(
            joysticks@,
            key,
        ) by {
            assert(spec_holds(wanted@, key));
            let w = choose|w: int| 0 <= w < wanted@.len() && (#[trigger] wanted@[w])@ == key;
            assert(has_key(joysticks@, wanted@[w]@));
        }
    }
    Ok(keys)
}

} // verus!
