use crate::control_type::{is_control_of_event, ControlType};
use crate::text::{matching_places, spec_match_flags, spec_matched_places};
use vstd::prelude::*;

verus! {

/// A movement or a button of a mouse, under the configured key of the device.
#[derive(Debug)]
pub struct MouseEvent {
    pub device_key: String,
    pub control_type: ControlType,
    pub value: i32,
}

/// Turns an event of the kernel's input layer, given by its type, code and
/// value, into a mouse event of the device `device_name`. An event that
/// belongs to no control, such as the one that closes a report, gives nothing.
pub fn evdev_mouse_event_to_internal(device_name: &str, event_type: u16, code: u16, value: i32) -> (r:
    Option<MouseEvent>)
    ensures
        r is None <==> is_control_of_event(ControlType::Unhandled, event_type, code),
        r matches Some(e) ==> e.device_key@ == device_name@ && e.value == value
            && e.control_type != ControlType::Unhandled && is_control_of_event(
            e.control_type,
            event_type,
            code,
        ),
{
    let control_type = ControlType::from_evdev(event_type, code);
    if control_type.is_unhandled() {
        None
    } else {
        proof {
            if is_control_of_event(ControlType::Unhandled, event_type, code) {
                crate::control_type::lemma_control_of_event_unique(
                    ControlType::Unhandled,
                    control_type,
                    event_type,
                    code,
                );
            }
        }
        Some(MouseEvent { device_key: device_name.to_owned(), control_type, value })
    }
}

/// An input device that reports relative movement, as the system offers it.
#[derive(Debug)]
pub struct MouseDeviceInfo {
    pub name: String,
    pub path: String,
}

impl Clone for MouseDeviceInfo {
    fn clone(&self) -> (r: Self)
        ensures
            r == *self,
    {
        MouseDeviceInfo { name: self.name.clone(), path: self.path.clone() }
    }
}

/// The names of the devices, in order.
pub open spec fn spec_device_names(devices: Seq<MouseDeviceInfo>) -> Seq<String> {
    Seq::new(devices.len(), |i: int| devices[i].name)
}

/// The devices whose name the regular expression matches, in their order.
pub fn match_device(pattern: &str, devices: &Vec<MouseDeviceInfo>) -> (matched: Vec<MouseDeviceInfo>)
    ensures
        matched@.len() == spec_matched_places(spec_match_flags(pattern@, spec_device_names(devices@))).len(),
        forall|k: int|
            0 <= k < matched@.len() ==> (#[trigger] matched@[k]) == devices@[spec_matched_places(
                spec_match_flags(pattern@, spec_device_names(devices@)),
            )[k] as int],
{
    let mut names: Vec<String> = Vec::new();
    let mut i: usize = 0;
    while i < devices.len()
        invariant
            i <= devices@.len(),
            names@.len() == i,
            forall|k: int| 0 <= k < i ==> names@[k] == devices@[k].name,
        decreases devices@.len() - i,
    {
        names.push(devices[i].name.clone());
        i += 1;
    }
    proof {
        assert(names@ =~= spec_device_names(devices@));
    }
    let places = matching_places(pattern, &names);
    let mut matched: Vec<MouseDeviceInfo> = Vec::new();
    let mut k: usize = 0;
    while k < places.len()
        invariant
            k <= places@.len(),
            matched@.len() == k,
            names@.len() == devices@.len(),
            forall|j: int| 0 <= j < places@.len() ==> (#[trigger] places@[j]) < names@.len(),
            forall|j: int| 0 <= j < k ==> (#[trigger] matched@[j]) == devices@[places@[j] as int],
        decreases places@.len() - k,
    {
        matched.push(devices[places[k]].clone());
        k += 1;
    }
    matched
}

} // verus!
