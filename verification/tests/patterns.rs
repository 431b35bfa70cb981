use compdb::patterns::PatternSet;

fn strings_for_patterns(items: &[&str]) -> Vec<String> {
    items.iter().map(|s| s.to_string()).collect()
}

#[test]
fn empty_set_compiles_and_matches_nothing() {
    let set = PatternSet::new(&Vec::new()).unwrap();
    assert!(!set.matches(""));
    assert!(!set.matches("a.c"));
}

#[test]
fn set_matches_when_any_pattern_matches() {
    let set = PatternSet::new(&strings_for_patterns(&[r".*\.c$", r".*\.cpp$"])).unwrap();
    assert!(set.matches("ws/a.c"));
    assert!(set.matches("ws/b.cpp"));
    assert!(!set.matches("ws/c.h"));
}

#[test]
fn patterns_are_unanchored() {
    let set = PatternSet::new(&strings_for_patterns(&["test"])).unwrap();
    assert!(set.matches("ws/my_test_file.c"));
    assert!(!set.matches("ws/main.c"));
}

#[test]
fn patterns_are_regular_expressions_not_literals() {
    let set = PatternSet::new(&strings_for_patterns(&[r"^a.c$"])).unwrap();
    assert!(set.matches("abc"));
    assert!(!set.matches("^a.c$"));
}

#[test]
fn invalid_pattern_is_an_error() {
    let r = PatternSet::new(&strings_for_patterns(&[r".*\.c$", "("]));
    match r {
        Ok(_) => panic!("an unclosed group must not compile"),
        Err(error) => assert!(!error.message.is_empty()),
    }
}

#[test]
fn invalid_pattern_message_names_the_cause() {
    let r = PatternSet::new(&strings_for_patterns(&["[a"]));
    match r {
        Ok(_) => panic!("an unclosed class must not compile"),
        Err(error) => assert!(error.message.contains("unclosed character class")),
    }
}
