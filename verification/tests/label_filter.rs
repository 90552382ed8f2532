use spade_docker::errors::CoreError;
use spade_docker::meta::{inspect_decode, is_owned, Meta};

fn owned_doc() -> &'static str {
    "[{\"Config\":{\"Labels\":{\"tool\":\"spade-docker\"}}}]"
}

#[test]
fn marker_label_means_owned() {
    let m = inspect_decode(owned_doc()).unwrap();
    assert!(is_owned(&m));
}

#[test]
fn empty_labels_means_not_owned() {
    let m = inspect_decode("[{\"Config\":{\"Labels\":{}}}]").unwrap();
    assert!(!is_owned(&m));
}

#[test]
fn missing_config_means_not_owned_not_an_error() {
    let m = inspect_decode("[{}]").unwrap();
    assert!(!is_owned(&m));
}

#[test]
fn wrong_label_value_means_not_owned() {
    let m = inspect_decode("[{\"Config\":{\"Labels\":{\"tool\":\"other\"}}}]").unwrap();
    assert!(!is_owned(&m));
}

#[test]
fn non_text_label_means_not_owned() {
    let m = inspect_decode("[{\"Config\":{\"Labels\":{\"tool\":7}}}]").unwrap();
    assert!(!is_owned(&m));
}

#[test]
fn non_array_root_means_not_owned() {
    let m = inspect_decode("{\"Config\":{\"Labels\":{\"tool\":\"spade-docker\"}}}").unwrap();
    assert!(!is_owned(&m));
}

#[test]
fn empty_array_root_means_not_owned() {
    let m = inspect_decode("[]").unwrap();
    assert!(!is_owned(&m));
}

#[test]
fn invalid_json_fails_with_encoding_error() {
    assert_eq!(inspect_decode("not json at all {"), Err(CoreError::Encoding));
}

#[test]
fn parsed_tree_holds_the_label() {
    let m = inspect_decode(owned_doc()).unwrap();
    let expected = Meta::List(vec![Meta::Object(vec![(
        String::from("Config"),
        Meta::Object(vec![(
            String::from("Labels"),
            Meta::Object(vec![(
                String::from("tool"),
                Meta::Text(String::from("spade-docker")),
            )]),
        )]),
    )])]);
    assert_eq!(m, expected);
}

#[test]
fn hand_built_tree_is_owned() {
    let m = Meta::List(vec![Meta::Object(vec![(
        String::from("Config"),
        Meta::Object(vec![(
            String::from("Labels"),
            Meta::Object(vec![(
                String::from("tool"),
                Meta::Text(String::from("spade-docker")),
            )]),
        )]),
    )])]);
    assert!(is_owned(&m));
}
