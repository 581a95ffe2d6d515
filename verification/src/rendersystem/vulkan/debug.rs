//! What becomes of a message of the validation layers: how loud it is
//! logged, and what it is said to be about.

use crate::rendersystem::vulkan::api;
use vstd::prelude::*;
use vstd::string::StringExecFns;

verus! {

/// How loud a message is logged.
#[derive(Clone, Copy, Debug, PartialEq, Eq)]
pub enum Level {
    Trace,
    Debug,
    Info,
    Warn,
}

/// The level for a message of the given severity: one step below what the
/// layers make of it, since they cry wolf; a severity that is none of the
/// four is logged as a debug message.
pub open spec fn level_of(severity: u32) -> Level {
    if severity == api::DEBUG_SEVERITY_VERBOSE {
        Level::Trace
    } else if severity == api::DEBUG_SEVERITY_INFO {
        Level::Debug
    } else if severity == api::DEBUG_SEVERITY_WARNING {
        Level::Info
    } else if severity == api::DEBUG_SEVERITY_ERROR {
        Level::Warn
    } else {
        Level::Debug
    }
}

/// What a message of the given types is about: the names of the types it
/// has, each followed by a space.
pub open spec fn location_of(types: u32) -> Seq<char> {
    (if types & api::DEBUG_TYPE_GENERAL == api::DEBUG_TYPE_GENERAL {
        "GENERAL "@
    } else {
        Seq::empty()
    }) + (if types & api::DEBUG_TYPE_PERFORMANCE == api::DEBUG_TYPE_PERFORMANCE {
        "PERFORMANCE "@
    } else {
        Seq::empty()
    }) + (if types & api::DEBUG_TYPE_VALIDATION == api::DEBUG_TYPE_VALIDATION {
        "VALIDATION "@
    } else {
        Seq::empty()
    })
}

/// Says at which level a message of the validation layers is logged and
/// what it is about.
pub fn debug_log(severity: u32, types: u32) -> (heading: (Level, String))
    ensures
        heading.0 == level_of(severity),
        heading.1@ == location_of(types),
{
    let log_level = if severity == api::DEBUG_SEVERITY_VERBOSE {
        Level::Trace
    } else if severity == api::DEBUG_SEVERITY_INFO {
        Level::Debug
    } else if severity == api::DEBUG_SEVERITY_WARNING {
        Level::Info
    } else if severity == api::DEBUG_SEVERITY_ERROR {
        Level::Warn
    } else {
        Level::Debug
    };
    let mut location = String::new();
    if types & api::DEBUG_TYPE_GENERAL == api::DEBUG_TYPE_GENERAL {
        location.append("GENERAL ");
    }
    if types & api::DEBUG_TYPE_PERFORMANCE == api::DEBUG_TYPE_PERFORMANCE {
        location.append("PERFORMANCE ");
    }
    if types & api::DEBUG_TYPE_VALIDATION == api::DEBUG_TYPE_VALIDATION {
        location.append("VALIDATION ");
    }
    proof {
        assert(location@ =~= location_of(types));
    }
    (log_level, location)
}

} // verus!
