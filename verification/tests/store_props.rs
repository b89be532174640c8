use std::any::TypeId;
use std::sync::Arc;
use std::sync::atomic::AtomicUsize;
use std::sync::atomic::Ordering;

use ttmap::TypeMap;
use ttmap::Value;
use ttmap::ValueBox;

#[test]
fn distinct_types_coexist() {
    let mut map = TypeMap::new();
    assert!(map.insert(1u8).is_none());
    assert!(map.insert(2u16).is_none());
    assert_eq!(map.len(), 2);
    assert_eq!(*map.get::<u8>().unwrap(), 1);
    assert_eq!(*map.get::<u16>().unwrap(), 2);
}

#[test]
fn overwrite_returns_previous() {
    let mut map = TypeMap::new();
    assert!(map.insert(10i32).is_none());
    assert_eq!(*map.insert(20i32).unwrap(), 10);
    assert_eq!(*map.get::<i32>().unwrap(), 20);
    assert_eq!(map.len(), 1);
}

#[test]
fn remove_is_exactly_once() {
    let mut map = TypeMap::new();
    map.insert(String::from("abc"));
    assert_eq!(map.remove::<String>().unwrap().as_str(), "abc");
    assert!(map.remove::<String>().is_none());
    assert_eq!(map.len(), 0);
}

#[test]
fn default_on_demand() {
    let mut map = TypeMap::new();
    assert!(!map.has::<usize>());
    let before = map.len();
    {
        let v = map.get_or_default::<usize>();
        assert_eq!(*v, 0);
        *v = 41;
    }
    assert_eq!(map.len(), before + 1);
    assert_eq!(*map.get::<usize>().unwrap(), 41);
    assert_eq!(*map.get_or_default::<usize>(), 41);
    assert_eq!(map.len(), before + 1);
}

struct Flagged(Arc<AtomicUsize>);

impl Drop for Flagged {
    fn drop(&mut self) {
        self.0.fetch_add(1, Ordering::Relaxed);
    }
}

#[test]
fn clear_drops_everything() {
    let drops = Arc::new(AtomicUsize::new(0));
    let mut map = TypeMap::new();
    map.insert(Flagged(drops.clone()));
    map.insert(7u64);
    assert_eq!(map.len(), 2);
    let capacity_before = map.capacity();
    map.clear();
    assert_eq!(map.len(), 0);
    assert!(map.is_empty());
    assert_eq!(drops.load(Ordering::Relaxed), 1);
    assert!(map.capacity() >= capacity_before);
}

#[test]
fn dtor_runs_exactly_once_on_drop() {
    let drops = Arc::new(AtomicUsize::new(0));
    {
        let mut map = TypeMap::new();
        assert!(map.insert(Flagged(drops.clone())).is_none());
    }
    assert_eq!(drops.load(Ordering::Relaxed), 1);
}

#[test]
fn raw_lookup_by_identifier() {
    let mut map = TypeMap::new();
    map.insert(5u8);
    assert!(map.get_raw(TypeId::of::<u8>()).is_some());
    assert!(map.get_raw(TypeId::of::<u16>()).is_none());
    let vb = map.get_raw(TypeId::of::<u8>()).unwrap();
    assert_eq!(vb.type_id(), TypeId::of::<u8>());
    assert_eq!(*vb.try_downcast_ref::<u8>().unwrap(), 5);
    assert!(vb.try_downcast_ref::<u16>().is_none());
}

#[test]
fn raw_insert_keys_by_content() {
    let mut map = TypeMap::new();
    assert!(map.insert_raw(ValueBox::from_boxed(Box::new(3u16))).is_none());
    assert_eq!(map.len(), 1);
    assert_eq!(*map.get::<u16>().unwrap(), 3);
    let old = map.insert_raw(ValueBox::from_boxed(Box::new(4u16))).unwrap();
    assert_eq!(*old.try_downcast_ref::<u16>().unwrap(), 3);
    assert_eq!(map.len(), 1);
    assert_eq!(*map.get::<u16>().unwrap(), 4);
}

#[test]
fn erased_box_round_trip() {
    let vb = ValueBox::from_boxed(Box::new(123i64));
    assert_eq!(vb.type_id(), TypeId::of::<i64>());
    let mut vb = vb.try_downcast::<u32>().unwrap_err();
    assert_eq!(vb.type_id(), TypeId::of::<i64>());
    assert!(vb.try_downcast_mut::<u32>().is_none());
    *vb.try_downcast_mut::<i64>().unwrap() = -5;
    assert_eq!(vb.type_id(), TypeId::of::<i64>());
    assert_eq!(*vb.try_downcast::<i64>().ok().unwrap(), -5);
}

#[test]
fn typed_view_accessors() {
    let mut v = Value::from_boxed(Box::new(String::from("hi")));
    assert_eq!(v.downcast_ref().as_str(), "hi");
    v.downcast_mut().push('!');
    assert_eq!(*v.downcast(), String::from("hi!"));
    let raw = Value::from_boxed(Box::new(9u8)).into_raw();
    assert_eq!(raw.type_id(), TypeId::of::<u8>());
    assert_eq!(*raw.try_downcast::<u8>().ok().unwrap(), 9);
}

#[test]
fn exclusive_borrow_updates_value() {
    let mut map = TypeMap::new();
    map.insert(1u32);
    assert!(map.get_mut::<u64>().is_none());
    *map.get_mut::<u32>().unwrap() = 9;
    assert_eq!(*map.get::<u32>().unwrap(), 9);
}

#[test]
fn default_store_is_empty() {
    let map = TypeMap::default();
    assert!(map.is_empty());
    assert_eq!(map.len(), 0);
}

#[test]
fn diagnostic_string_shows_size() {
    let mut map = TypeMap::new();
    map.insert(1u8);
    let line = map.debug_string();
    assert!(line.starts_with("TypeMap { size=1, capacity="));
    assert!(line.ends_with(" }\n"));
    map.clear();
    assert!(map.debug_string().starts_with("TypeMap { size=0, capacity="));
}
