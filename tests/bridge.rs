use std::cell::Cell;
use std::rc::Rc;

use cef_refcount::{
    CompositeHeap, DownloadImageCallback, HeaderOp, RefCountHeader, RefCountedPtr,
    RefCountedPtrCache, RefCounter,
};

/// A payload that counts how often it is torn down.
struct Probe {
    id: u32,
    drops: Rc<Cell<u32>>,
}

impl Drop for Probe {
    fn drop(&mut self) {
        self.drops.set(self.drops.get() + 1);
    }
}

type Heap = CompositeHeap<DownloadImageCallback, Probe>;

fn record() -> DownloadImageCallback {
    DownloadImageCallback { base: RefCountHeader::empty(), on_download_image_finished: true }
}

fn probe(id: u32) -> (Probe, Rc<Cell<u32>>) {
    let drops = Rc::new(Cell::new(0));
    (Probe { id, drops: drops.clone() }, drops)
}

#[test]
fn two_increments_then_three_decrements_tear_down_once() {
    let mut heap = Heap::new();
    let (p, drops) = probe(7);
    let addr = heap.wrap(record(), p);
    assert!(heap.has_one_ref(addr));
    heap.add_ref(addr);
    heap.add_ref(addr);
    assert!(!heap.has_one_ref(addr));
    assert!(heap.release(addr));
    assert_eq!(drops.get(), 0);
    assert!(heap.release(addr));
    assert_eq!(drops.get(), 0);
    assert!(heap.has_one_ref(addr));
    assert!(!heap.release(addr));
    assert_eq!(drops.get(), 1);
    assert!(!heap.has_at_least_one_ref(addr));
    assert_eq!(heap.ref_count(addr), 0);
}

#[test]
fn release_reports_remaining_owner_until_last() {
    let mut heap = Heap::new();
    let (p, drops) = probe(1);
    let h = RefCountedPtr::wrap(&mut heap, record(), p);
    let h2 = h.clone_ref(&mut heap);
    let h3 = h2.clone_ref(&mut heap);
    assert!(h.release(&mut heap));
    assert!(h2.release(&mut heap));
    assert_eq!(drops.get(), 0);
    assert!(!h3.release(&mut heap));
    assert_eq!(drops.get(), 1);
}

#[test]
fn balanced_interleaved_calls_keep_count() {
    let mut heap = Heap::new();
    let (p, drops) = probe(2);
    let a = heap.wrap(record(), p);
    let calls = [true, true, false, true, false, false, true, false];
    for c in calls {
        if c {
            heap.add_ref(a);
        } else {
            assert!(heap.release(a));
        }
    }
    assert!(heap.has_one_ref(a));
    assert_eq!(heap.wrapper(a).id, 2);
    assert_eq!(drops.get(), 0);
}

#[test]
fn round_robin_clone_release_pairs_leave_count_unchanged() {
    let mut heap = Heap::new();
    let (p, drops) = probe(3);
    let root = RefCountedPtr::wrap(&mut heap, record(), p);
    let workers: Vec<RefCountedPtr> = (0..4).map(|_| root.clone_ref(&mut heap)).collect();
    for _ in 0..100 {
        for w in &workers {
            let extra = w.clone_ref(&mut heap);
            assert!(extra.release(&mut heap));
        }
    }
    for w in workers {
        assert!(w.release(&mut heap));
    }
    assert!(heap.has_one_ref(root.as_ptr()));
    assert_eq!(drops.get(), 0);
    assert!(!root.release(&mut heap));
    assert_eq!(drops.get(), 1);
    assert_eq!(heap.len(), 1);
}

#[test]
fn wrap_into_raw_and_back_reaches_same_payload() {
    let mut heap = Heap::new();
    let (p, _drops) = probe(11);
    let h = RefCountedPtr::wrap(&mut heap, record(), p);
    let before: &Probe = h.payload(&heap);
    let raw = h.into_raw();
    let back = RefCountedPtr::from_ptr(raw).unwrap();
    assert_eq!(back.as_ptr(), raw);
    let after: &Probe = back.payload(&heap);
    assert!(std::ptr::eq(before, after));
    assert_eq!(back.payload(&heap).id, 11);
    assert!(heap.has_one_ref(raw));
}

#[test]
fn null_addresses_give_no_handle() {
    let mut heap = Heap::new();
    assert!(RefCountedPtr::from_ptr(0).is_none());
    assert!(RefCountedPtr::from_ptr_add_ref(&mut heap, 0).is_none());
    assert_eq!(heap.len(), 0);
}

#[test]
fn adopting_a_borrowed_address_adds_an_owner() {
    let mut heap = Heap::new();
    let (p, drops) = probe(4);
    let raw = heap.wrap(record(), p);
    let adopted = RefCountedPtr::from_ptr_add_ref(&mut heap, raw).unwrap();
    assert_eq!(adopted.as_ptr(), raw);
    assert!(!heap.has_one_ref(raw));
    assert!(adopted.release(&mut heap));
    let owned = RefCountedPtr::from_ptr_unchecked(raw);
    assert!(!owned.release(&mut heap));
    assert_eq!(drops.get(), 1);
}

#[test]
fn wrapping_installs_the_bridge_header() {
    let mut heap = Heap::new();
    let (p, _drops) = probe(5);
    let mut r = record();
    r.base.size = 999;
    let h = RefCountedPtr::wrap(&mut heap, r, p);
    let base = h.record(&heap).base();
    assert_eq!(base.size, std::mem::size_of::<DownloadImageCallback>());
    assert_eq!(base.add_ref, Some(HeaderOp::AddRef));
    assert_eq!(base.release, Some(HeaderOp::Release));
    assert_eq!(base.has_one_ref, Some(HeaderOp::HasOneRef));
    assert_eq!(base.has_at_least_one_ref, Some(HeaderOp::HasAtLeastOneRef));
    assert!(h.record(&heap).on_download_image_finished);
}

#[test]
fn cache_with_same_identity_reuses_composite() {
    let mut heap = Heap::new();
    let (p, _d1) = probe(1);
    let mut cache = RefCountedPtrCache::new(&mut heap, record(), p, 42);
    let (q, d2) = probe(1);
    let a = cache.get_ptr_or_rewrap(&mut heap, record(), q, 42);
    assert_eq!(d2.get(), 1);
    let (q2, _d3) = probe(1);
    let b = cache.get_ptr_or_rewrap(&mut heap, record(), q2, 42);
    assert_eq!(a.as_ptr(), b.as_ptr());
    assert_eq!(a.as_ptr(), cache.ptr.as_ptr());
    assert_eq!(heap.len(), 1);
    assert!(!heap.has_one_ref(a.as_ptr()));
    assert!(a.release(&mut heap));
    assert!(b.release(&mut heap));
    assert!(heap.has_one_ref(cache.ptr.as_ptr()));
}

#[test]
fn cache_with_new_identity_rewraps() {
    let mut heap = Heap::new();
    let (p, d1) = probe(1);
    let mut cache = RefCountedPtrCache::new(&mut heap, record(), p, 1);
    let first = cache.get_ptr_or_rewrap(&mut heap, record(), probe(1).0, 1);
    let (q, d2) = probe(2);
    let second = cache.get_ptr_or_rewrap(&mut heap, record(), q, 2);
    assert_ne!(first.as_ptr(), second.as_ptr());
    assert_eq!(heap.len(), 2);
    assert_eq!(cache.arc, 2);
    assert_eq!(second.payload(&heap).id, 2);
    assert!(heap.has_one_ref(first.as_ptr()));
    assert_eq!(d1.get(), 0);
    assert!(!first.release(&mut heap));
    assert_eq!(d1.get(), 1);
    assert!(second.release(&mut heap));
    assert_eq!(d2.get(), 0);
}

#[test]
fn replacing_payload_keeps_owners() {
    let mut heap = Heap::new();
    let (p, d1) = probe(1);
    let a = heap.wrap(record(), p);
    let (q, d2) = probe(2);
    let old = heap.replace_payload(a, q);
    assert_eq!(old.id, 1);
    drop(old);
    assert_eq!(d1.get(), 1);
    assert!(heap.has_one_ref(a));
    assert_eq!(heap.wrapper(a).id, 2);
    assert!(!heap.release(a));
    assert_eq!(d2.get(), 1);
}
