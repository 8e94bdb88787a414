use provision::status::Status;

fn strings(items: &[&str]) -> Vec<String> {
    items.iter().map(|s| s.to_string()).collect()
}

#[test]
fn new_with_empty_failure_list_is_satisfied() {
    let status = Status::new(strings(&["a ok", "b ok"]), Vec::new());
    match status {
        Status::Installed { success } => {
            assert_eq!(success, strings(&["a ok", "b ok"]));
        }
        Status::NotInstalled { .. } => panic!("expected Installed"),
    }
}

#[test]
fn new_with_any_failure_is_unsatisfied() {
    let status = Status::new(strings(&["a ok"]), strings(&["b missing"]));
    match status {
        Status::NotInstalled { success, fail } => {
            assert_eq!(success, strings(&["a ok"]));
            assert_eq!(fail, strings(&["b missing"]));
        }
        Status::Installed { .. } => panic!("expected NotInstalled"),
    }
}

#[test]
fn new_keeps_insertion_order() {
    let status = Status::new(strings(&["z", "a", "m"]), strings(&["q", "b"]));
    match status {
        Status::NotInstalled { success, fail } => {
            assert_eq!(success, strings(&["z", "a", "m"]));
            assert_eq!(fail, strings(&["q", "b"]));
        }
        Status::Installed { .. } => panic!("expected NotInstalled"),
    }
}

#[test]
fn new_with_both_lists_empty_is_satisfied() {
    let status = Status::new(Vec::new(), Vec::new());
    assert!(status.is_satisfied());
}

#[test]
fn render_shows_the_variant_and_nonempty_lists() {
    assert_eq!(Status::new(Vec::new(), Vec::new()).render(), "Installed");
    assert_eq!(
        Status::new(strings(&["a ok", "b ok"]), Vec::new()).render(),
        "Installed { success: [\"a ok\", \"b ok\"] }"
    );
    assert_eq!(
        Status::new(Vec::new(), strings(&["x missing"])).render(),
        "NotInstalled { fail: [\"x missing\"] }"
    );
    assert_eq!(
        Status::new(strings(&["a ok"]), strings(&["b missing"])).render(),
        "NotInstalled { success: [\"a ok\"], fail: [\"b missing\"] }"
    );
}

#[test]
fn render_escapes_quotes_and_backslashes_in_evidence() {
    assert_eq!(
        Status::new(Vec::new(), strings(&["say \"hi\"", "back\\slash"])).render(),
        "NotInstalled { fail: [\"say \\\"hi\\\"\", \"back\\\\slash\"] }"
    );
}
