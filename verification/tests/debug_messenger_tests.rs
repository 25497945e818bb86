use two_dee_shooter::debug_messenger::populate_debug_messenger_create_info;
use two_dee_shooter::debug_messenger::severity_label;
use two_dee_shooter::debug_messenger::type_label;
use two_dee_shooter::model::DEBUG_SEVERITY_ERROR;
use two_dee_shooter::model::DEBUG_SEVERITY_INFO;
use two_dee_shooter::model::DEBUG_SEVERITY_VERBOSE;
use two_dee_shooter::model::DEBUG_SEVERITY_WARNING;
use two_dee_shooter::model::DEBUG_TYPE_GENERAL;
use two_dee_shooter::model::DEBUG_TYPE_PERFORMANCE;
use two_dee_shooter::model::DEBUG_TYPE_VALIDATION;

#[test]
fn messenger_subscribes_verbose_warning_error() {
    let config = populate_debug_messenger_create_info();
    assert_eq!(
        config.message_severity,
        DEBUG_SEVERITY_VERBOSE | DEBUG_SEVERITY_WARNING | DEBUG_SEVERITY_ERROR
    );
    assert_eq!(config.message_severity, 0x1101);
}

#[test]
fn messenger_subscribes_all_message_kinds() {
    let config = populate_debug_messenger_create_info();
    assert_eq!(
        config.message_type,
        DEBUG_TYPE_GENERAL | DEBUG_TYPE_PERFORMANCE | DEBUG_TYPE_VALIDATION
    );
    assert_eq!(config.message_type, 0x7);
}

#[test]
fn severity_labels() {
    assert_eq!(severity_label(DEBUG_SEVERITY_VERBOSE), "[Verbose]");
    assert_eq!(severity_label(DEBUG_SEVERITY_WARNING), "[Warning]");
    assert_eq!(severity_label(DEBUG_SEVERITY_ERROR), "[ERROR]");
    assert_eq!(severity_label(DEBUG_SEVERITY_INFO), "[INFO]");
    assert_eq!(severity_label(0), "[Unknown]");
    assert_eq!(severity_label(DEBUG_SEVERITY_VERBOSE | DEBUG_SEVERITY_INFO), "[Unknown]");
}

#[test]
fn type_labels() {
    assert_eq!(type_label(DEBUG_TYPE_GENERAL), "[General]");
    assert_eq!(type_label(DEBUG_TYPE_PERFORMANCE), "[Performance]");
    assert_eq!(type_label(DEBUG_TYPE_VALIDATION), "[Validation]");
    assert_eq!(type_label(0), "[Unknown]");
    assert_eq!(type_label(DEBUG_TYPE_GENERAL | DEBUG_TYPE_VALIDATION), "[Unknown]");
}
