use lilcy::ir::value::Value;
use lilcy::support::slotmap::{Key, PrimaryMap, SecondaryMap};

#[test]
fn primary_insert_then_get() {
    let mut m: PrimaryMap<Value, String> = PrimaryMap::new();
    let a: Value = m.insert("alpha".to_string());
    assert_eq!(m.get(a), &"alpha".to_string());
    let b: Value = m.insert("beta".to_string());
    assert_eq!(m.get(b), &"beta".to_string());
    let c: Value = m.insert("gamma".to_string());
    assert_eq!(m.get(c), &"gamma".to_string());
    assert_eq!(m.get(a), &"alpha".to_string());
    assert_eq!(m.get(b), &"beta".to_string());
    assert_ne!(a, b);
    assert_ne!(b, c);
    assert_eq!(m.len(), 3);
}

#[test]
fn primary_set_and_replace() {
    let mut m: PrimaryMap<Value, u64> = PrimaryMap::new();
    let a: Value = m.insert(10);
    let b: Value = m.insert(20);
    m.set(a, 11);
    assert_eq!(*m.get(a), 11);
    assert_eq!(*m.get(b), 20);
    let was = m.replace(b, 21);
    assert_eq!(was, 20);
    assert_eq!(*m.get(b), 21);
}

#[test]
fn secondary_missing_read_fails() {
    let mut m: SecondaryMap<Value, u64> = SecondaryMap::new();
    let never_inserted = Value(3);
    assert!(m.get(never_inserted).is_none());
    m.insert(Value(5), 50);
    // Slot 3 lies below the grown storage but was never written: reading it
    // must still fail rather than yield a default value.
    assert!(m.get(never_inserted).is_none());
    assert!(m.get(Value(7)).is_none());
}

#[test]
fn secondary_insert_then_get() {
    let mut m: SecondaryMap<Value, u64> = SecondaryMap::new();
    m.insert(Value(4), 40);
    m.insert(Value(0), 1);
    assert_eq!(m.get(Value(4)), Some(&40));
    assert_eq!(m.get(Value(0)), Some(&1));
    m.insert(Value(4), 41);
    assert_eq!(m.get(Value(4)), Some(&41));
}

#[test]
fn key_sentinel_is_reserved() {
    let none: Value = Key::none_val();
    assert!(none.is_none());
    let k: Value = Key::new(12);
    assert!(!k.is_none());
    assert_eq!(k.index(), 12);
}
