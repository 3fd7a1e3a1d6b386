use crate::lists::{holds, spec_holds};
use crate::schemas::ResolvedVirtualJoystick;
use vstd::prelude::*;

verus! {

/// A task that the program carries out in place of running the engine.
#[derive(Debug)]
pub enum AuxDriverTask {
    EnumMidi,
    MonitorMidi { name_regex: Option<String> },
    MidiLearn,
    EnumMice,
    MonitorMouse { name_regex: Option<String> },
    ValidateConfig,
}

impl Clone for AuxDriverTask {
    fn clone(&self) -> (r: Self)
        ensures
            r == *self,
    {
        match self {
            AuxDriverTask::EnumMidi => AuxDriverTask::EnumMidi,
            AuxDriverTask::MonitorMidi { name_regex } => AuxDriverTask::MonitorMidi {
                name_regex: crate::schemas::clone_text(name_regex),
            },
            AuxDriverTask::MidiLearn => AuxDriverTask::MidiLearn,
            AuxDriverTask::EnumMice => AuxDriverTask::EnumMice,
            AuxDriverTask::MonitorMouse { name_regex } => AuxDriverTask::MonitorMouse {
                name_regex: crate::schemas::clone_text(name_regex),
            },
            AuxDriverTask::ValidateConfig => AuxDriverTask::ValidateConfig,
        }
    }
}

/// The pattern that a monitoring task watches for: the one given, and one
/// that matches every name where none is.
pub fn monitor_pattern(name_regex: &Option<String>) -> (r: String)
    ensures
        r@ == match *name_regex {
            Some(pattern) => pattern@,
            None => ".*"@,
        },
{
    match name_regex {
        Some(pattern) => pattern.clone(),
        None => ".*".to_owned(),
    }
}

/// What is done with a configured joystick when the engine starts or
/// starts again.
#[derive(Debug, Clone, Copy, PartialEq, Eq, Structural)]
pub enum JoystickOrder {
    /// The joystick is disabled: it is taken away if it exists.
    Destroy,
    /// The joystick is made if it does not exist, and outlives a reload or
    /// not as `is_persistent` says.
    Create { is_persistent: bool },
}

/// Whether the joystick `key` outlives a reload: where its configuration
/// says so, and where the command line names it or names `all`.
pub open spec fn spec_is_persistent(persistent: bool, named: Option<Vec<String>>, key: Seq<char>) -> bool {
    persistent || match named {
        Some(list) => spec_holds(list@, "all"@) || spec_holds(list@, key),
        None => false,
    }
}

/// What is done with the joystick that is configured under `key`.
pub fn joystick_order(key: &str, joystick: &ResolvedVirtualJoystick, named: &Option<Vec<String>>) -> (r:
    JoystickOrder)
    ensures
        r == if !joystick.enabled {
            JoystickOrder::Destroy
        } else {
            JoystickOrder::Create { is_persistent: spec_is_persistent(joystick.persistent, *named, key@) }
        },
{
    if !joystick.enabled {
        return JoystickOrder::Destroy;
    }
    let mut is_persistent = joystick.persistent;
    match named {
        Some(list) => {
            if holds(list, "all") || holds(list, key) {
                is_persistent = true;
            }
        },
        None => {},
    }
    JoystickOrder::Create { is_persistent }
}

} // verus!
