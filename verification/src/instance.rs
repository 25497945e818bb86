//! Instance configuration: the validation layers the application demands,
//! the layer-support check, and the instance extension list built from
//! what the windowing system requires.

use vstd::prelude::*;

use crate::model::all_names_contained;
use crate::model::all_strings_contained;
use crate::model::contains_name;

verus! {

/// The one validation layer the application demands: the standard
/// validation bundle.
pub open spec fn spec_validation_layer_name() -> Seq<char> {
    "VK_LAYER_KHRONOS_validation"@
}

/// The validation layers the application demands; today only the
/// standard validation bundle.
pub fn required_validation_layers() -> (r: Vec<String>)
    ensures
        r@.len() == 1,
        r@[0]@ == spec_validation_layer_name(),
{
    let mut layers: Vec<String> = Vec::new();
    layers.push("VK_LAYER_KHRONOS_validation".to_owned());
    layers
}

/// The driver offers every validation layer the application demands.
pub open spec fn spec_validation_layers_supported(available: Seq<String>) -> bool {
    contains_name(available, spec_validation_layer_name())
}

/// Whether the driver's layer list carries every validation layer the
/// application demands. Instance creation is refused when it does not.
pub fn check_validation_layer_support(available_layers: &Vec<String>) -> (r: bool)
    ensures
        r == spec_validation_layers_supported(available_layers@),
{
    let required = required_validation_layers();
    let supported = all_strings_contained(&required, available_layers);

    proof {
        if supported {
            assert(contains_name(available_layers@, required@[0]@));
        }
        if spec_validation_layers_supported(available_layers@) {
            assert forall|i: int|
                0 <= i < required@.len() implies contains_name(
                available_layers@,
                #[trigger] required@[i]@,
            ) by {
                assert(i == 0);
            }
            assert(all_names_contained(required@, available_layers@));
        }
    }

    supported
}

/// The instance extension the debug messenger needs.
pub open spec fn spec_debug_utils_extension_name() -> Seq<char> {
    "VK_EXT_debug_utils"@
}

/// Builds the instance extension list: the extensions the windowing
/// system requires, in their order, followed by the debug-utilities
/// extension that the message callback needs.
pub fn build_extensions(window_system_extensions: Vec<String>) -> (r: Vec<String>)
    ensures
        r@.len() == window_system_extensions@.len() + 1,
        forall|i: int|
            0 <= i < window_system_extensions@.len() ==> r@[i] == window_system_extensions@[i],
        r@[window_system_extensions@.len() as int]@ == spec_debug_utils_extension_name(),
{
    let mut required_extensions = window_system_extensions;
    required_extensions.push("VK_EXT_debug_utils".to_owned());
    required_extensions
}

} // verus!
