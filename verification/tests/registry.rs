use project_manager::Registry;

fn names_of(registry: &Registry<String>) -> Vec<String> {
    let mut names = Vec::new();
    let mut i = 0;
    while let Some((name, _)) = registry.entry(i) {
        names.push(name.to_string());
        i += 1;
    }
    names
}

#[test]
fn new_registry_is_empty() {
    let registry: Registry<String> = Registry::new();
    assert_eq!(registry.len(), 0);
    assert!(!registry.contains("work"));
    assert!(registry.get("work").is_none());
    assert!(registry.entry(0).is_none());
}

#[test]
fn insert_enters_a_new_name_at_the_end() {
    let mut registry: Registry<String> = Registry::new();
    registry.insert("work".to_string(), "/w".to_string());
    registry.insert("play".to_string(), "/p".to_string());
    assert_eq!(registry.len(), 2);
    assert_eq!(registry.get("work").map(|path| path.as_str()), Some("/w"));
    assert_eq!(registry.get("play").map(|path| path.as_str()), Some("/p"));
    assert_eq!(names_of(&registry), vec!["work".to_string(), "play".to_string()]);
}

#[test]
fn insert_replaces_the_value_of_a_known_name_in_place() {
    let mut registry: Registry<String> = Registry::new();
    registry.insert("work".to_string(), "/w".to_string());
    registry.insert("play".to_string(), "/p".to_string());
    registry.insert("work".to_string(), "/elsewhere".to_string());
    assert_eq!(registry.len(), 2);
    assert_eq!(registry.get("work").map(|path| path.as_str()), Some("/elsewhere"));
    assert_eq!(registry.get("play").map(|path| path.as_str()), Some("/p"));
    assert_eq!(names_of(&registry), vec!["work".to_string(), "play".to_string()]);
}

#[test]
fn names_differ_by_any_character() {
    let mut registry: Registry<String> = Registry::new();
    registry.insert("work".to_string(), "/w".to_string());
    assert!(!registry.contains("Work"));
    assert!(!registry.contains("work "));
    assert!(!registry.contains("wor"));
    assert!(!registry.contains(""));
    assert!(registry.contains("work"));
}

#[test]
fn remove_returns_the_value_and_keeps_the_order() {
    let mut registry: Registry<String> = Registry::new();
    registry.insert("a".to_string(), "1".to_string());
    registry.insert("b".to_string(), "2".to_string());
    registry.insert("c".to_string(), "3".to_string());
    assert_eq!(registry.remove("b"), Some("2".to_string()));
    assert_eq!(registry.len(), 2);
    assert!(!registry.contains("b"));
    assert_eq!(names_of(&registry), vec!["a".to_string(), "c".to_string()]);
    assert_eq!(registry.get("c").map(|value| value.as_str()), Some("3"));
}

#[test]
fn remove_of_an_unknown_name_changes_nothing() {
    let mut registry: Registry<String> = Registry::new();
    registry.insert("a".to_string(), "1".to_string());
    assert_eq!(registry.remove("b"), None);
    assert_eq!(registry.len(), 1);
    assert_eq!(registry.get("a").map(|value| value.as_str()), Some("1"));
}

#[test]
fn entry_gives_each_position_below_len() {
    let mut registry: Registry<String> = Registry::new();
    registry.insert("a".to_string(), "1".to_string());
    registry.insert("b".to_string(), "2".to_string());
    let first = registry.entry(0).unwrap();
    assert_eq!((first.0, first.1.as_str()), ("a", "1"));
    let second = registry.entry(1).unwrap();
    assert_eq!((second.0, second.1.as_str()), ("b", "2"));
    assert!(registry.entry(2).is_none());
    assert!(registry.entry(usize::MAX).is_none());
}
