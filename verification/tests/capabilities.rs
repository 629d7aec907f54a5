use sandbox_host::capability::CapabilityTable;
use sandbox_host::error::LinkError;
use sandbox_host::interface::{Import, Signature};
use sandbox_host::value::ValueType;

fn sig(results: Vec<ValueType>) -> Signature {
    Signature { params: vec![], results, is_async: false }
}

fn import(namespace: &str, name: &str, results: Vec<ValueType>) -> Import {
    Import { namespace: namespace.to_string(), name: name.to_string(), sig: sig(results) }
}

#[test]
fn register_gives_slots_in_order() {
    let mut table = CapabilityTable::new();
    assert_eq!(table.len(), 0);
    assert_eq!(table.register("context".to_string(), "foo".to_string(), sig(vec![])), Ok(0));
    assert_eq!(table.register("context".to_string(), "bar".to_string(), sig(vec![])), Ok(1));
    assert_eq!(table.register("other".to_string(), "foo".to_string(), sig(vec![])), Ok(2));
    assert_eq!(table.len(), 3);
    assert!(table.contains("context", "foo"));
    assert!(table.contains("other", "foo"));
    assert!(!table.contains("other", "bar"));
}

#[test]
fn registering_a_name_twice_is_refused() {
    let mut table = CapabilityTable::new();
    assert_eq!(table.register("context".to_string(), "foo".to_string(), sig(vec![])), Ok(0));
    assert_eq!(
        table.register("context".to_string(), "foo".to_string(), sig(vec![ValueType::Str])),
        Err(LinkError::Duplicate)
    );
    assert_eq!(table.len(), 1);
    let bindings = table.build();
    let kept = bindings.get(0).unwrap();
    assert!(kept.sig.results.is_empty());
}

#[test]
fn build_keeps_the_slots() {
    let mut table = CapabilityTable::new();
    table.register("context".to_string(), "foo".to_string(), sig(vec![])).unwrap();
    table.register("context".to_string(), "bar".to_string(), sig(vec![])).unwrap();
    let bindings = table.build();
    assert_eq!(bindings.len(), 2);
    assert_eq!(bindings.lookup("context", "foo"), Some(0));
    assert_eq!(bindings.lookup("context", "bar"), Some(1));
    assert_eq!(bindings.lookup("context", "baz"), None);
    assert_eq!(bindings.lookup("foo", "context"), None);
    assert_eq!(bindings.get(1).unwrap().name, "bar");
    assert!(bindings.get(2).is_none());
}

#[test]
fn link_binds_each_import_to_its_slot() {
    let mut table = CapabilityTable::new();
    table.register("a".to_string(), "one".to_string(), sig(vec![])).unwrap();
    table.register("a".to_string(), "two".to_string(), sig(vec![ValueType::Str])).unwrap();
    table.register("b".to_string(), "one".to_string(), sig(vec![])).unwrap();
    let bindings = table.build();
    let imports = vec![
        import("b", "one", vec![]),
        import("a", "two", vec![ValueType::Str]),
        import("b", "one", vec![]),
    ];
    assert_eq!(bindings.link(&imports), Ok(vec![2, 1, 2]));
    assert_eq!(bindings.link(&vec![]), Ok(vec![]));
}

#[test]
fn link_fails_exactly_when_an_import_is_not_registered() {
    let imports = vec![import("a", "one", vec![]), import("a", "two", vec![])];

    let mut all_but_one = CapabilityTable::new();
    all_but_one.register("a".to_string(), "one".to_string(), sig(vec![])).unwrap();
    assert_eq!(all_but_one.build().link(&imports), Err(LinkError::Unresolved { import: 1 }));

    let mut all = CapabilityTable::new();
    all.register("a".to_string(), "one".to_string(), sig(vec![])).unwrap();
    all.register("a".to_string(), "two".to_string(), sig(vec![])).unwrap();
    assert_eq!(all.build().link(&imports), Ok(vec![0, 1]));

    let none = CapabilityTable::new();
    assert_eq!(none.build().link(&imports), Err(LinkError::Unresolved { import: 0 }));
}

#[test]
fn link_refuses_a_capability_of_another_signature() {
    let mut table = CapabilityTable::new();
    table.register("a".to_string(), "one".to_string(), sig(vec![ValueType::U32])).unwrap();
    let bindings = table.build();
    assert_eq!(
        bindings.link(&vec![import("a", "one", vec![ValueType::Str])]),
        Err(LinkError::SignatureMismatch { import: 0 })
    );
    assert_eq!(bindings.link(&vec![import("a", "one", vec![ValueType::U32])]), Ok(vec![0]));
}

#[test]
fn link_names_the_first_failing_import() {
    let mut table = CapabilityTable::new();
    table.register("a".to_string(), "one".to_string(), sig(vec![])).unwrap();
    let bindings = table.build();
    let imports = vec![
        import("a", "one", vec![]),
        import("a", "one", vec![ValueType::Str]),
        import("a", "missing", vec![]),
    ];
    assert_eq!(bindings.link(&imports), Err(LinkError::SignatureMismatch { import: 1 }));
}
