use scars::local::cell::{ConstLocalCell, LocalCell};
use scars::local::list::{LocalHandle, StorageListHead, StorageListNode};
use scars::local::publish::{Publish, PublishCtx, PublishError};
use scars::local::storage::LocalStorage;

const A: u64 = 1;
const B: u64 = 2;
const MISSING: u64 = 99;

#[test]
fn storage_files_values_by_key() {
    let mut s: LocalStorage<u32> = LocalStorage::new();
    s.put_init(A, 1);
    s.put(LocalHandle::from_node(StorageListNode::new(B, 2)));
    assert!(s.contains(A));
    assert_eq!(s.get(A), Some(1));
    assert_eq!(s.as_ptr(B), Some(&2));
    assert_eq!(s.set(A, 11), Ok(()));
    assert_eq!(s.replace(A, 111), Ok(11));
    assert_eq!(s.with(A, |v| *v + 1), Some(112));
    assert_eq!(s.with_mut(B, |v| { *v = 22; *v }), Some(22));
    assert_eq!(s.get(B), Some(22));
    assert_eq!(s.head().get(A), Some(111));
}

#[test]
fn storage_reports_missing_keys() {
    let mut s: LocalStorage<u8> = LocalStorage::new();
    assert!(!s.contains(MISSING));
    assert_eq!(s.as_ptr(MISSING), None);
    assert_eq!(s.get(MISSING), None);
    assert_eq!(s.set(MISSING, 0), Err(0));
    assert_eq!(s.replace(MISSING, 0), Err(0));
    assert_eq!(s.with(MISSING, |_| ()), None);
    assert_eq!(s.with_mut(MISSING, |_| ()), None);
    assert!(s.borrow(MISSING).is_none());
    assert!(s.borrow_mut(MISSING).is_none());
    assert!(s.remove(MISSING).is_none());
}

#[test]
fn removed_handle_can_be_put_back() {
    let mut s: LocalStorage<u16> = LocalStorage::new();
    s.put_init_with(A, || 4);
    let h = s.remove(A).unwrap();
    assert!(!s.contains(A));
    assert_eq!(*h.get(), 4);
    s.put(h);
    assert_eq!(s.get(A), Some(4));
}

#[test]
fn borrowing_and_giving_back_keeps_every_value() {
    let mut s: LocalStorage<u32> = LocalStorage::new();
    s.put_init(A, 1);
    s.put_init(B, 2);
    let r = s.borrow(A).unwrap();
    assert_eq!(*r.deref(), 1);
    assert!(!s.contains(A));
    s.release_ref(r);
    assert_eq!(s.get(A), Some(1));
    assert_eq!(s.get(B), Some(2));
    let mut w = s.borrow_mut(B).unwrap();
    *w.deref_mut() = 20;
    s.release_ref_mut(w);
    assert_eq!(s.get(B), Some(20));
}

#[test]
fn handles_give_access_to_their_value() {
    let mut h = LocalHandle::from_node(StorageListNode::new(A, 5u8));
    *h.get_mut() = 6;
    assert_eq!(*h.get(), 6);
    let mut head: StorageListHead<u8> = StorageListHead::new();
    head.push_node(h.into_node());
    assert_eq!(head.get(A), Some(6));
    assert!(head.unlink_by_key(A).is_some());
    assert!(!head.contains(A));
}

struct Config {
    base: u32,
}

impl Publish<u32> for Config {
    // What publishing does: it files `B` or fails.
    fn publishes(&self, _before: &StorageListHead<u32>, after: &StorageListHead<u32>, r: Result<(), PublishError>) -> bool {
        r.is_err() || after.contains(B)
    }

    fn try_publish_to(&self, ctx: &mut PublishCtx<u32>) -> Result<(), PublishError> {
        ctx.require(A)?;
        let base = self.base;
        ctx.put_init(B, |c: &PublishCtx<u32>| c.get(A).unwrap_or(0) + base)
    }
}

#[test]
fn publishing_checks_prerequisites_and_free_slots() {
    let mut s: LocalStorage<u32> = LocalStorage::new();
    let src = Config { base: 10 };
    assert_eq!(s.try_publish(&src), Err(PublishError::MissingPrerequisite(A)));
    s.put_init(A, 5);
    assert_eq!(s.try_publish(&src), Ok(()));
    assert_eq!(s.get(B), Some(15));
    assert_eq!(s.try_publish(&src), Err(PublishError::AlreadyPublished(B)));
    assert_eq!(s.get(B), Some(15));
}

struct Bump;

impl Publish<u32> for Bump {
    // What publishing does: it needs `A`, which it keeps.
    fn publishes(&self, _before: &StorageListHead<u32>, after: &StorageListHead<u32>, r: Result<(), PublishError>) -> bool {
        r.is_err() || after.contains(A)
    }

    fn try_publish_to(&self, ctx: &mut PublishCtx<u32>) -> Result<(), PublishError> {
        ctx.with_mut(A, |v: &mut u32| *v += 1)
    }
}

#[test]
fn publishing_context_updates_a_value_in_place() {
    let mut s: LocalStorage<u32> = LocalStorage::new();
    assert_eq!(s.try_publish(&Bump), Err(PublishError::MissingPrerequisite(A)));
    s.put_init(A, 5);
    assert_eq!(s.try_publish(&Bump), Ok(()));
    assert_eq!(s.get(A), Some(6));
    s.publish(&Bump);
    assert_eq!(s.get(A), Some(7));
    let mut head: StorageListHead<u32> = StorageListHead::new();
    head.put_init(A, 1);
    head.publish(&Bump);
    assert_eq!(head.get(A), Some(2));
}

#[test]
fn cells_fill_once_and_take_once() {
    use_cells();
}

fn use_cells() {
    let mut cell = LocalCell::new(A);
    let h = cell.init(7u32);
    assert_eq!(*h.get(), 7);
    assert!(cell.try_init(8u32).is_none());
    let mut ran = false;
    assert!(cell.try_init_with(|| {
        ran = true;
        9u32
    })
    .is_none());
    assert!(!ran);
    let mut other = LocalCell::new(B);
    let h2 = other.try_init_with(|| 10u32).unwrap();
    assert_eq!(*h2.get(), 10);
    let mut fresh = LocalCell::new(MISSING);
    assert_eq!(*fresh.init_with(|| 11u32).get(), 11);

    let mut c = ConstLocalCell::new(B, 3u32);
    let mut s: LocalStorage<u32> = LocalStorage::new();
    s.put(h);
    s.put_take(&mut c);
    assert_eq!(s.get(B), Some(3));
    assert!(c.try_take().is_none());
    let mut d = ConstLocalCell::new(MISSING, 4u32);
    assert_eq!(*d.take().get(), 4);
    assert_eq!(s.get(A), Some(7));
}
