use dispatch::registry::Registry;

#[test]
fn insert_contains_get() {
    let mut reg: Registry<u32> = Registry::new();
    assert!(!reg.contains("alice"));
    assert_eq!(reg.insert("alice".to_string(), 1), None);
    assert!(reg.contains("alice"));
    assert_eq!(reg.get("alice"), Some(&1));
    assert_eq!(reg.get("bob"), None);
}

#[test]
fn insert_replaces_and_returns_previous() {
    let mut reg: Registry<u32> = Registry::new();
    reg.insert("alice".to_string(), 1);
    reg.insert("bob".to_string(), 2);
    assert_eq!(reg.insert("alice".to_string(), 3), Some(1));
    assert_eq!(reg.get("alice"), Some(&3));
    assert_eq!(reg.members().len(), 2);
}

#[test]
fn remove_hands_back_connection() {
    let mut reg: Registry<u32> = Registry::new();
    reg.insert("alice".to_string(), 1);
    reg.insert("bob".to_string(), 2);
    assert_eq!(reg.remove("alice"), 1);
    assert!(!reg.contains("alice"));
    assert_eq!(reg.get("bob"), Some(&2));
}

#[test]
fn join_then_leave_restores() {
    let mut reg: Registry<u32> = Registry::new();
    reg.insert("bob".to_string(), 2);
    reg.insert("carol".to_string(), 3);
    reg.insert("alice".to_string(), 1);
    reg.remove("alice");
    let mut members: Vec<u32> = reg.members().into_iter().copied().collect();
    members.sort();
    assert_eq!(members, vec![2, 3]);
    assert!(!reg.contains("alice"));
}

#[test]
fn broadcast_reaches_each_member_once() {
    let mut reg: Registry<u32> = Registry::new();
    for (i, name) in ["a", "b", "c", "d"].iter().enumerate() {
        reg.insert(name.to_string(), i as u32);
    }
    reg.insert("b".to_string(), 10);
    let mut members: Vec<u32> = reg.members().into_iter().copied().collect();
    members.sort();
    assert_eq!(members, vec![0, 2, 3, 10]);
}

#[test]
fn empty_registry_has_no_members() {
    let reg: Registry<String> = Registry::new();
    assert!(reg.members().is_empty());
}
