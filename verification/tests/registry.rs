use webview_bridge::registry::Registry;

#[test]
fn new_registry_has_no_commands() {
    let registry: Registry<u32> = Registry::new();
    assert_eq!(registry.len(), 0);
    assert!(!registry.contains("greet"));
    assert!(registry.lookup("greet").is_none());
    assert!(registry.lookup("").is_none());
}

#[test]
fn registered_command_is_found_by_its_name() {
    let mut registry: Registry<u32> = Registry::new();
    registry.register("greet".to_string(), 1);
    registry.register("part".to_string(), 2);
    assert_eq!(registry.len(), 2);
    assert_eq!(registry.lookup("greet"), Some(&1));
    assert_eq!(registry.lookup("part"), Some(&2));
    assert_eq!(registry.lookup("Greet"), None);
    assert_eq!(registry.lookup("gree"), None);
    assert!(registry.contains("part"));
    assert!(!registry.contains("parts"));
}

#[test]
fn later_registration_takes_the_place_of_an_earlier_one() {
    let mut registry: Registry<u32> = Registry::new();
    registry.register("greet".to_string(), 1);
    registry.register("part".to_string(), 2);
    registry.register("greet".to_string(), 3);
    assert_eq!(registry.len(), 3);
    assert_eq!(registry.lookup("greet"), Some(&3));
    assert_eq!(registry.lookup("part"), Some(&2));
}

#[test]
fn batch_is_registered_first_to_last() {
    let registry = Registry::from_entries(vec![
        ("a".to_string(), 1u32),
        ("b".to_string(), 2),
        ("a".to_string(), 3),
    ]);
    assert_eq!(registry.len(), 3);
    assert_eq!(registry.lookup("a"), Some(&3));
    assert_eq!(registry.lookup("b"), Some(&2));
}

#[test]
fn batch_after_single_registrations_wins_over_them() {
    let mut registry: Registry<u32> = Registry::new();
    registry.register("a".to_string(), 1);
    registry.register("c".to_string(), 9);
    registry.register_all(vec![("a".to_string(), 2), ("b".to_string(), 3)]);
    registry.register_all(Vec::new());
    assert_eq!(registry.len(), 4);
    assert_eq!(registry.lookup("a"), Some(&2));
    assert_eq!(registry.lookup("b"), Some(&3));
    assert_eq!(registry.lookup("c"), Some(&9));
}

#[test]
fn strict_registration_turns_a_taken_name_down() {
    let mut registry: Registry<u32> = Registry::new();
    assert!(registry.register_strict("greet".to_string(), 1).is_ok());
    match registry.register_strict("greet".to_string(), 2) {
        Err(e) => assert_eq!(e.name, "greet"),
        Ok(_) => panic!("the name was taken"),
    }
    assert_eq!(registry.len(), 1);
    assert_eq!(registry.lookup("greet"), Some(&1));
    assert!(registry.register_strict("part".to_string(), 3).is_ok());
    assert_eq!(registry.len(), 2);
    assert_eq!(registry.lookup("part"), Some(&3));
}

#[test]
fn strict_batch_takes_distinct_names() {
    match Registry::strict_from_entries(vec![("a".to_string(), 1u32), ("b".to_string(), 2)]) {
        Ok(registry) => {
            assert_eq!(registry.len(), 2);
            assert_eq!(registry.lookup("a"), Some(&1));
            assert_eq!(registry.lookup("b"), Some(&2));
        },
        Err(_) => panic!("the names are distinct"),
    }
    assert!(Registry::<u32>::strict_from_entries(Vec::new()).is_ok());
}

#[test]
fn strict_batch_turns_a_repeated_name_down() {
    let batch = vec![
        ("a".to_string(), 1u32),
        ("b".to_string(), 2),
        ("c".to_string(), 3),
        ("b".to_string(), 4),
        ("a".to_string(), 5),
    ];
    match Registry::strict_from_entries(batch) {
        Err(e) => assert_eq!(e.name, "b"),
        Ok(_) => panic!("a name came twice"),
    }
}
