use json_transform::text::{str_ends_with, str_eq};
use json_transform::worker::{JsonTransformEvent, ParameterKind};

#[test]
fn worker_names_itself() {
    let worker = JsonTransformEvent {};
    assert_eq!(worker.get_name(), "Json transform");
    assert_eq!(
        worker.get_short_description(),
        "Transform json file(s) into another json based on template"
    );
    assert!(worker.get_description().starts_with("This worker enables the transformation"));
    assert_eq!(worker.get_version(), "0.1.0");
}

#[test]
fn declared_schema_lists_the_canonical_parameters() {
    let worker = JsonTransformEvent {};
    let parameters = worker.get_parameters();
    let identifiers: Vec<&str> = parameters.iter().map(|p| p.identifier.as_str()).collect();
    assert_eq!(
        identifiers,
        vec![
            "template",
            "template_mode",
            "source_path",
            "source_paths",
            "destination_path",
            "slurp",
            "output_mode",
        ]
    );
    let required: Vec<bool> = parameters.iter().map(|p| p.required).collect();
    assert_eq!(required, vec![true, false, false, false, true, false, false]);
    assert_eq!(parameters[3].kind, vec![ParameterKind::TextList]);
    assert_eq!(parameters[5].kind, vec![ParameterKind::Flag]);
    assert_eq!(parameters[0].kind, vec![ParameterKind::Text]);
}

#[test]
fn string_equality_is_character_exact() {
    assert!(str_eq("abc", "abc"));
    assert!(!str_eq("abc", "abd"));
    assert!(!str_eq("abc", "abcd"));
    assert!(str_eq("", ""));
}

#[test]
fn suffix_test_matches_the_tail() {
    assert!(str_ends_with("/tmp/out.xml", ".xml"));
    assert!(!str_ends_with("/tmp/out.xml", ".json"));
    assert!(!str_ends_with("xml", ".xml"));
    assert!(str_ends_with("anything", ""));
}
