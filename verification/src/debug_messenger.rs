//! Debug-messenger configuration and the labelling of the messages the
//! driver sends back: which severities and kinds are subscribed to, and
//! the tag each message is printed under.

use vstd::prelude::*;

use crate::model::DEBUG_SEVERITY_ERROR;
use crate::model::DEBUG_SEVERITY_INFO;
use crate::model::DEBUG_SEVERITY_VERBOSE;
use crate::model::DEBUG_SEVERITY_WARNING;
use crate::model::DEBUG_TYPE_GENERAL;
use crate::model::DEBUG_TYPE_PERFORMANCE;
use crate::model::DEBUG_TYPE_VALIDATION;
use crate::model::DebugMessengerConfig;

verus! {

/// Fills in the debug-messenger configuration: verbose, warning and
/// error severities, and general, performance and validation message
/// kinds.
pub fn populate_debug_messenger_create_info() -> (r: DebugMessengerConfig)
    ensures
        r.message_severity == (DEBUG_SEVERITY_VERBOSE | DEBUG_SEVERITY_WARNING
            | DEBUG_SEVERITY_ERROR),
        r.message_type == (DEBUG_TYPE_GENERAL | DEBUG_TYPE_PERFORMANCE | DEBUG_TYPE_VALIDATION),
{
    DebugMessengerConfig {
        message_severity: DEBUG_SEVERITY_VERBOSE | DEBUG_SEVERITY_WARNING | DEBUG_SEVERITY_ERROR,
        message_type: DEBUG_TYPE_GENERAL | DEBUG_TYPE_PERFORMANCE | DEBUG_TYPE_VALIDATION,
    }
}

/// The tag a message of the given severity is printed under.
pub open spec fn spec_severity_label(message_severity: u32) -> Seq<char> {
    if message_severity == DEBUG_SEVERITY_VERBOSE {
        "[Verbose]"@
    } else if message_severity == DEBUG_SEVERITY_WARNING {
        "[Warning]"@
    } else if message_severity == DEBUG_SEVERITY_ERROR {
        "[ERROR]"@
    } else if message_severity == DEBUG_SEVERITY_INFO {
        "[INFO]"@
    } else {
        "[Unknown]"@
    }
}

/// Picks the tag a message of the given severity is printed under.
pub fn severity_label(message_severity: u32) -> (r: &'static str)
    ensures
        r@ == spec_severity_label(message_severity),
{
    if message_severity == DEBUG_SEVERITY_VERBOSE {
        "[Verbose]"
    } else if message_severity == DEBUG_SEVERITY_WARNING {
        "[Warning]"
    } else if message_severity == DEBUG_SEVERITY_ERROR {
        "[ERROR]"
    } else if message_severity == DEBUG_SEVERITY_INFO {
        "[INFO]"
    } else {
        "[Unknown]"
    }
}

/// The tag a message of the given kind is printed under.
pub open spec fn spec_type_label(message_type: u32) -> Seq<char> {
    if message_type == DEBUG_TYPE_GENERAL {
        "[General]"@
    } else if message_type == DEBUG_TYPE_PERFORMANCE {
        "[Performance]"@
    } else if message_type == DEBUG_TYPE_VALIDATION {
        "[Validation]"@
    } else {
        "[Unknown]"@
    }
}

/// Picks the tag a message of the given kind is printed under.
pub fn type_label(message_type: u32) -> (r: &'static str)
    ensures
        r@ == spec_type_label(message_type),
{
    if message_type == DEBUG_TYPE_GENERAL {
        "[General]"
    } else if message_type == DEBUG_TYPE_PERFORMANCE {
        "[Performance]"
    } else if message_type == DEBUG_TYPE_VALIDATION {
        "[Validation]"
    } else {
        "[Unknown]"
    }
}

} // verus!
