use std::sync::Arc;
use sync_point::point::{role_of, Role};
use sync_point::table::{PointTable, TableOp};

#[test]
fn empty_table_holds_nothing() {
    let t = PointTable::new();
    assert!(t.get("A").is_none());
}

#[test]
fn get_or_create_creates_once_per_key() {
    let mut t = PointTable::new();
    let (first, created_first) = t.get_or_create("A");
    let (again, created_again) = t.get_or_create("A");
    assert!(created_first);
    assert!(!created_again);
    assert!(Arc::ptr_eq(&first, &again));
    assert!(Arc::ptr_eq(&first, &t.get("A").unwrap()));
}

#[test]
fn keys_are_case_sensitive_and_exact() {
    let mut t = PointTable::new();
    let (a, _) = t.get_or_create("a");
    let (big_a, created) = t.get_or_create("A");
    assert!(created);
    assert!(!Arc::ptr_eq(&a, &big_a));
    assert!(t.get("a ").is_none());
}

#[test]
fn remove_is_idempotent() {
    let mut t = PointTable::new();
    let (p, _) = t.get_or_create("A");
    let removed = t.remove("A").unwrap();
    assert!(Arc::ptr_eq(&p, &removed));
    assert!(t.get("A").is_none());
    assert!(t.remove("A").is_none());
}

#[test]
fn removal_leaves_other_keys() {
    let mut t = PointTable::new();
    let (a, _) = t.get_or_create("A");
    let (b, _) = t.get_or_create("B");
    let (c, _) = t.get_or_create("C");
    t.remove("B");
    assert!(Arc::ptr_eq(&a, &t.get("A").unwrap()));
    assert!(Arc::ptr_eq(&c, &t.get("C").unwrap()));
    assert!(t.get("B").is_none());
    let (b2, created) = t.get_or_create("B");
    assert!(created);
    assert!(!Arc::ptr_eq(&b, &b2));
}

#[test]
fn apply_dispatches() {
    let mut t = PointTable::new();
    let p = t.apply(TableOp::GetOrCreate, "K").unwrap();
    let q = t.apply(TableOp::GetOrCreate, "K").unwrap();
    assert!(Arc::ptr_eq(&p, &q));
    assert!(Arc::ptr_eq(&p, &t.apply(TableOp::Remove, "K").unwrap()));
    assert!(t.apply(TableOp::Remove, "K").is_none());
}

#[test]
fn roles_by_previous_count() {
    assert_eq!(role_of(0), Role::First);
    assert_eq!(role_of(1), Role::Second);
    assert_eq!(role_of(2), Role::Extra(2));
    assert_eq!(role_of(usize::MAX), Role::Extra(usize::MAX));
}

#[test]
fn fresh_point_counts_from_zero() {
    let mut t = PointTable::new();
    let (p, _) = t.get_or_create("A");
    assert_eq!(p.arrive(), 0);
    assert_eq!(p.arrive(), 1);
    assert_eq!(p.arrive(), 2);
    t.remove("A");
    let (fresh, _) = t.get_or_create("A");
    assert_eq!(fresh.arrive(), 0);
}
