use webrender_traits::ExternalImageId;
use webrender_traits::WebrenderExternalImageRegistry;
use webrender_traits::WebrenderImageHandlerType;

#[test]
fn allocated_ids_are_distinct_increasing_and_nonzero() {
    let mut registry = WebrenderExternalImageRegistry::new();
    let a = registry.next_id(WebrenderImageHandlerType::WebGL);
    let b = registry.next_id(WebrenderImageHandlerType::Media);
    let c = registry.next_id(WebrenderImageHandlerType::WebGL);
    assert_eq!(a.0, 1);
    assert_eq!(b.0, 2);
    assert_eq!(c.0, 3);
    assert_ne!(a.0, b.0);
    assert_ne!(b.0, c.0);
    assert_ne!(a.0, c.0);
    assert!(a.0 < b.0 && b.0 < c.0);
    assert_ne!(a.0, 0);
    assert_ne!(b.0, 0);
    assert_ne!(c.0, 0);
}

#[test]
fn lookup_returns_most_recently_associated_kind() {
    let mut registry = WebrenderExternalImageRegistry::new();
    let a = registry.next_id(WebrenderImageHandlerType::WebGL);
    let b = registry.next_id(WebrenderImageHandlerType::Media);
    assert_eq!(registry.get(&a), Some(&WebrenderImageHandlerType::WebGL));
    assert_eq!(registry.get(&b), Some(&WebrenderImageHandlerType::Media));
}

#[test]
fn lookup_after_remove_returns_nothing() {
    let mut registry = WebrenderExternalImageRegistry::new();
    let a = registry.next_id(WebrenderImageHandlerType::Media);
    let b = registry.next_id(WebrenderImageHandlerType::WebGL);
    registry.remove(&a);
    assert_eq!(registry.get(&a), None);
    assert_eq!(registry.get(&b), Some(&WebrenderImageHandlerType::WebGL));
}

#[test]
fn remove_on_absent_id_is_a_noop() {
    let mut registry = WebrenderExternalImageRegistry::new();
    registry.remove(&ExternalImageId(42));
    let a = registry.next_id(WebrenderImageHandlerType::WebGL);
    assert_eq!(a.0, 1);
    registry.remove(&a);
    registry.remove(&a);
    assert_eq!(registry.get(&a), None);
}

#[test]
fn lookup_of_never_issued_id_returns_nothing() {
    let registry = WebrenderExternalImageRegistry::new();
    assert_eq!(registry.get(&ExternalImageId(0)), None);
    assert_eq!(registry.get(&ExternalImageId(7)), None);
}
