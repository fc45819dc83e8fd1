use codeydog::names::{is_among, name_or_empty, reads};

#[test]
fn name_or_empty_defaults_to_the_empty_name() {
    assert_eq!(name_or_empty(None), "");
    let name = "dwn".to_string();
    assert_eq!(name_or_empty(Some(&name)), "dwn");
}

#[test]
fn is_among_wants_the_whole_name() {
    let names = vec!["task-rust".to_string(), "dwn".to_string(), String::new()];
    assert!(is_among(&names, "dwn"));
    assert!(is_among(&names, "task-rust"));
    assert!(is_among(&names, ""));
    assert!(!is_among(&names, "task"));
    assert!(!is_among(&names, "DWN"));
    assert!(!is_among(&Vec::new(), "dwn"));
}

#[test]
fn reads_compares_whole_texts() {
    assert!(reads("help", "help"));
    assert!(reads("", ""));
    assert!(!reads("help", "helps"));
    assert!(!reads("Help", "help"));
}
