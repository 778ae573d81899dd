use vstd::prelude::*;

use crate::refcounted::{
    installed_header, slot, Composite, CompositeHeap, RefCountHeader, RefCounter,
};

verus! {

/// The foreign record of a navigation-entry visitor: the reference-count
/// header and the slot of the visit entry point.
pub struct NavigationEntryVisitor {
    pub base: RefCountHeader,
    pub visit: bool,
}

impl RefCounter for NavigationEntryVisitor {
    open spec fn header(&self) -> RefCountHeader {
        self.base
    }

    open spec fn with_header(self, h: RefCountHeader) -> Self {
        NavigationEntryVisitor { base: h, visit: self.visit }
    }

    proof fn lemma_with_header(self, h: RefCountHeader) {
    }

    fn base(&self) -> (r: &RefCountHeader) {
        &self.base
    }

    fn set_base(&mut self, h: RefCountHeader) {
        self.base = h;
    }
}

/// The composites of navigation-entry visitors, each holding the host
/// visitor until it answers that the visit should stop. The visitor is called
/// once per entry: with the entry's address, whether it is the current entry,
/// its position and the number of entries, and answers whether to go on.
pub type NavigationVisitorHeap<F> = CompositeHeap<NavigationEntryVisitor, Option<F>>;

/// The position and count of a visit are ones the visitor can be called with:
/// neither negative, and the position below the count.
pub open spec fn visitable(index: i32, total: i32) -> bool {
    0 <= index < total
}

/// The host side of a navigation-entry visitor.
pub struct NavigationEntryVisitorWrapper;

impl NavigationEntryVisitorWrapper {
    /// Wraps `visitor` into a new visitor composite whose record fills the
    /// visit slot, and returns its address, which carries one owner for the
    /// foreign side.
    pub fn new<F: Fn(usize, bool, usize, usize) -> bool>(
        heap: &mut NavigationVisitorHeap<F>,
        visitor: F,
    ) -> (p: usize)
        requires
            old(heap).wf(),
            old(heap)@.len() + 1 < usize::MAX,
        ensures
            final(heap).wf(),
            p == old(heap)@.len() + 1,
            final(heap)@.len() == p,
            final(heap)@.drop_last() == old(heap)@,
            final(heap)@.last().record->0.header() == installed_header(
                core::mem::size_of::<NavigationEntryVisitor>(),
            ),
            final(heap)@.last().record->0.visit,
            final(heap)@.last().payload == Some(Some(visitor)),
            final(heap)@.last().count == 1,
    {
        let record = NavigationEntryVisitor { base: RefCountHeader::empty(), visit: true };
        heap.wrap(record, Some(visitor))
    }

    /// The visit entry point, called by the foreign side on the live composite
    /// at `self_` once per entry. Calls the visitor, without touching the
    /// owners, where it is still held and the position lies below the count;
    /// answers 1 to go on and 0 to stop. Once the visitor answers false it is
    /// dropped, and later visits answer 0 without a call.
    pub fn visit<F: Fn(usize, bool, usize, usize) -> bool>(
        heap: &mut NavigationVisitorHeap<F>,
        self_: usize,
        entry: usize,
        current: i32,
        index: i32,
        total: i32,
    ) -> (r: i32)
        requires
            old(heap).wf(),
            old(heap).live(self_),
            forall|f: F, e: usize, c: bool, i: usize, t: usize|
                old(heap)@[slot(self_)].payload == Some(Some(f)) ==> #[trigger] f.requires(
                    (e, c, i, t),
                ),
        ensures
            final(heap).wf(),
            r == 0 || r == 1,
            (old(heap)@[slot(self_)].payload->0 is None || !visitable(index, total)) ==> {
                &&& r == 0
                &&& final(heap)@ == old(heap)@
            },
            r == 1 ==> {
                &&& old(heap)@[slot(self_)].payload->0 is Some
                &&& visitable(index, total)
                &&& old(heap)@[slot(self_)].payload->0->0.ensures(
                    (entry, current != 0, index as usize, total as usize),
                    true,
                )
                &&& final(heap)@ == old(heap)@
            },
            (r == 0 && old(heap)@[slot(self_)].payload->0 is Some && visitable(index, total))
                ==> {
                &&& old(heap)@[slot(self_)].payload->0->0.ensures(
                    (entry, current != 0, index as usize, total as usize),
                    false,
                )
                &&& final(heap)@ == old(heap)@.update(
                    slot(self_),
                    Composite {
                        record: old(heap)@[slot(self_)].record,
                        payload: Some(None),
                        count: old(heap)@[slot(self_)].count,
                    },
                )
            },
    {
        if index < 0 || total < 0 || index >= total {
            return 0;
        }
        let go = match heap.wrapper(self_) {
            Some(visitor) => visitor(entry, current != 0, index as usize, total as usize),
            None => {
                return 0;
            },
        };
        if go {
            1
        } else {
            heap.replace_payload(self_, None);
            0
        }
    }
}

} // verus!
