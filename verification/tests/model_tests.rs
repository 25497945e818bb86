use two_dee_shooter::model::all_strings_contained;
use two_dee_shooter::model::contains_string;
use two_dee_shooter::model::QueueFamilyIndices;

#[test]
fn contains_string_finds_member() {
    let names = vec![String::from("alpha"), String::from("beta")];
    assert!(contains_string(&names, &String::from("beta")));
    assert!(!contains_string(&names, &String::from("gamma")));
    assert!(!contains_string(&Vec::new(), &String::from("alpha")));
}

#[test]
fn all_strings_contained_needs_every_member() {
    let available = vec![String::from("alpha"), String::from("beta"), String::from("gamma")];
    let all_there = vec![String::from("gamma"), String::from("alpha")];
    let one_missing = vec![String::from("alpha"), String::from("delta")];
    assert!(all_strings_contained(&all_there, &available));
    assert!(!all_strings_contained(&one_missing, &available));
    assert!(all_strings_contained(&Vec::new(), &available));
}

#[test]
fn default_indices_are_empty() {
    let indices = QueueFamilyIndices::default();
    assert!(indices.graphics_family.is_none());
    assert!(indices.present_family.is_none());
    assert!(!indices.is_complete());
}
