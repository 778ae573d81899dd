use vstd::prelude::*;

verus! {

/// The entry point that a slot of the reference-count header dispatches to.
#[derive(PartialEq, Eq, Structural, Clone, Copy, Debug)]
pub enum HeaderOp {
    AddRef,
    Release,
    HasOneRef,
    HasAtLeastOneRef,
}

/// The reference-count header that every foreign record starts with: the
/// declared size of the record and four function slots, each of which may be
/// empty.
#[derive(Clone, Copy, Debug)]
pub struct RefCountHeader {
    pub size: usize,
    pub add_ref: Option<HeaderOp>,
    pub release: Option<HeaderOp>,
    pub has_one_ref: Option<HeaderOp>,
    pub has_at_least_one_ref: Option<HeaderOp>,
}

/// The header that wrapping installs into a record of `size` bytes: every slot
/// dispatches to the matching entry point of the composite heap.
pub open spec fn installed_header(size: usize) -> RefCountHeader {
    RefCountHeader {
        size,
        add_ref: Some(HeaderOp::AddRef),
        release: Some(HeaderOp::Release),
        has_one_ref: Some(HeaderOp::HasOneRef),
        has_at_least_one_ref: Some(HeaderOp::HasAtLeastOneRef),
    }
}

impl RefCountHeader {
    /// A header whose slots are all empty, as in a zeroed record.
    pub fn empty() -> (h: RefCountHeader)
        ensures
            h.size == 0,
            h.add_ref is None,
            h.release is None,
            h.has_one_ref is None,
            h.has_at_least_one_ref is None,
    {
        RefCountHeader {
            size: 0,
            add_ref: None,
            release: None,
            has_one_ref: None,
            has_at_least_one_ref: None,
        }
    }
}

/// Layout contract: a foreign record type that carries the reference-count
/// header as its first member, so that the record and its header can be viewed
/// through one another.
pub trait RefCounter: Sized {
    /// The header held by this record.
    spec fn header(&self) -> RefCountHeader;

    /// This record with its header replaced by `h` and all else kept.
    spec fn with_header(self, h: RefCountHeader) -> Self;

    /// A record with its header replaced holds the new header.
    proof fn lemma_with_header(self, h: RefCountHeader)
        ensures
            self.with_header(h).header() == h,
    ;

    /// Borrows the header.
    fn base(&self) -> (r: &RefCountHeader)
        ensures
            *r == self.header(),
    ;

    /// Overwrites the header.
    fn set_base(&mut self, h: RefCountHeader)
        ensures
            *final(self) == old(self).with_header(h),
    ;
}


/// What one composite allocation holds: the foreign-visible record and the
/// host payload, both absent once the composite is freed, and the number of
/// outstanding owners.
pub struct Composite<C, P> {
    pub record: Option<C>,
    pub payload: Option<P>,
    pub count: nat,
}

/// The host side of the bridge: every composite allocation made by wrapping.
/// A composite is addressed by a non-zero address; the address 0 is null.
/// The composite at address `a` is the entry `a - 1` of the view. A freed
/// composite keeps only its zero count, so that its address is never handed
/// out again and stays recognisable as stale.
pub struct CompositeHeap<C, P> {
    records: Vec<Option<C>>,
    payloads: Vec<Option<P>>,
    counts: Vec<u64>,
}

/// Position in the view of the composite at address `p`.
pub open spec fn slot(p: usize) -> int {
    p - 1
}

/// The composite `c` with its count changed to `n`; record and payload are
/// freed when `n` is zero.
pub open spec fn with_count<C, P>(c: Composite<C, P>, n: nat) -> Composite<C, P> {
    Composite {
        record: if n == 0 {
            None
        } else {
            c.record
        },
        payload: if n == 0 {
            None
        } else {
            c.payload
        },
        count: n,
    }
}

/// The heap after `add_ref` on address `p`.
pub open spec fn after_add_ref<C, P>(s: Seq<Composite<C, P>>, p: usize) -> Seq<Composite<C, P>> {
    s.update(slot(p), with_count(s[slot(p)], s[slot(p)].count + 1))
}

/// The heap after `release` on address `p`.
pub open spec fn after_release<C, P>(s: Seq<Composite<C, P>>, p: usize) -> Seq<Composite<C, P>> {
    s.update(slot(p), with_count(s[slot(p)], (s[slot(p)].count - 1) as nat))
}

/// Largest count the heap keeps: one more owner past it is refused.
pub const MAX_REFS: u64 = 0xffff_ffff_ffff_fffe;

impl<C: RefCounter, P> View for CompositeHeap<C, P> {
    type V = Seq<Composite<C, P>>;

    closed spec fn view(&self) -> Seq<Composite<C, P>> {
        Seq::new(
            self.records@.len(),
            |i: int|
                Composite {
                    record: self.records@[i],
                    payload: self.payloads@[i],
                    count: self.counts@[i] as nat,
                },
        )
    }
}

impl<C: RefCounter, P> CompositeHeap<C, P> {
    /// The storage is consistent: the three columns have one entry per
    /// composite, record and payload are present exactly while an owner
    /// remains, and no count passes the bound.
    pub closed spec fn wf(&self) -> bool {
        &&& self.payloads@.len() == self.records@.len()
        &&& self.counts@.len() == self.records@.len()
        &&& self.records@.len() < usize::MAX
        &&& forall|i: int|
            0 <= i < self.records@.len() ==> (#[trigger] self.payloads@[i] is Some
                <==> self.counts@[i] > 0)
        &&& forall|i: int|
            0 <= i < self.records@.len() ==> (#[trigger] self.records@[i] is Some
                <==> self.counts@[i] > 0)
        &&& forall|i: int| 0 <= i < self.records@.len() ==> #[trigger] self.counts@[i] <= MAX_REFS
    }

    /// `p` is the address of a composite of this heap.
    pub open spec fn valid(&self, p: usize) -> bool {
        1 <= p <= self@.len()
    }

    /// `p` is the address of a composite that still has an owner.
    pub open spec fn live(&self, p: usize) -> bool {
        self.valid(p) && self@[slot(p)].count > 0
    }

    /// Owners of the composite at `p`.
    pub open spec fn count(&self, p: usize) -> nat {
        self@[slot(p)].count
    }

    proof fn lemma_view(&self)
        requires
            self.wf(),
        ensures
            self@.len() == self.records@.len(),
            forall|i: int|
                0 <= i < self@.len() ==> {
                    &&& #[trigger] self@[i].record == self.records@[i]
                    &&& self@[i].payload == self.payloads@[i]
                    &&& self@[i].count == self.counts@[i] as nat
                    &&& (self@[i].payload is Some <==> self@[i].count > 0)
                    &&& (self@[i].record is Some <==> self@[i].count > 0)
                    &&& self@[i].count <= MAX_REFS
                },
    {
    }

    /// An empty heap.
    pub fn new() -> (h: Self)
        ensures
            h.wf(),
            h@.len() == 0,
    {
        let h = CompositeHeap { records: Vec::new(), payloads: Vec::new(), counts: Vec::new() };
        assert(h@ =~= Seq::<Composite<C, P>>::empty());
        h
    }

    /// Number of composites made so far, live or torn down.
    pub fn len(&self) -> (n: usize)
        requires
            self.wf(),
        ensures
            n == self@.len(),
    {
        self.records.len()
    }

    /// Wraps `object` together with `record` into a new composite: installs
    /// the bridge's header into the record, overwriting the one it held, and
    /// returns the address of the new composite, which has one owner.
    pub fn wrap(&mut self, record: C, object: P) -> (p: usize)
        requires
            old(self).wf(),
            old(self)@.len() + 1 < usize::MAX,
        ensures
            final(self).wf(),
            p == old(self)@.len() + 1,
            final(self)@.len() == p,
            final(self)@.drop_last() == old(self)@,
            final(self)@.last().record == Some(
                record.with_header(installed_header(core::mem::size_of::<C>())),
            ),
            final(self)@.last().record->0.header() == installed_header(core::mem::size_of::<C>()),
            final(self)@.last().payload == Some(object),
            final(self)@.last().count == 1,
    {
        let ghost template = record;
        let mut record = record;
        let size = core::mem::size_of::<C>();
        record.set_base(
            RefCountHeader {
                size,
                add_ref: Some(HeaderOp::AddRef),
                release: Some(HeaderOp::Release),
                has_one_ref: Some(HeaderOp::HasOneRef),
                has_at_least_one_ref: Some(HeaderOp::HasAtLeastOneRef),
            },
        );
        proof { template.lemma_with_header(installed_header(size)); }
        let ghost prev = self@;
        self.records.push(Some(record));
        self.payloads.push(Some(object));
        self.counts.push(1);
        assert(self@.drop_last() =~= prev);
        self.records.len()
    }

    /// Adds one owner to the composite at `p`.
    pub fn add_ref(&mut self, p: usize)
        requires
            old(self).wf(),
            old(self).live(p),
            old(self).count(p) < MAX_REFS,
        ensures
            final(self).wf(),
            final(self)@ == after_add_ref(old(self)@, p),
    {
        proof { self.lemma_view(); }
        let i = p - 1;
        let n = self.counts[i];
        self.counts.set(i, n + 1);
        assert(self@ =~= after_add_ref(old(self)@, p));
    }

    /// Removes one owner from the composite at `p`, and returns whether an
    /// owner remains. When the last owner leaves, the payload is torn down
    /// here, once.
    pub fn release(&mut self, p: usize) -> (remains: bool)
        requires
            old(self).wf(),
            old(self).live(p),
        ensures
            final(self).wf(),
            final(self)@ == after_release(old(self)@, p),
            remains == (old(self).count(p) > 1),
    {
        proof { self.lemma_view(); }
        let i = p - 1;
        let n = self.counts[i];
        self.counts.set(i, n - 1);
        if n == 1 {
            self.payloads.set(i, None);
            self.records.set(i, None);
        }
        assert(self@ =~= after_release(old(self)@, p));
        n > 1
    }

    /// Owners of the composite at `p`.
    pub fn ref_count(&self, p: usize) -> (n: u64)
        requires
            self.wf(),
            self.valid(p),
        ensures
            n == self.count(p),
    {
        proof { self.lemma_view(); }
        self.counts[p - 1]
    }

    /// Whether the composite at `p` has exactly one owner.
    pub fn has_one_ref(&self, p: usize) -> (r: bool)
        requires
            self.wf(),
            self.valid(p),
        ensures
            r == (self.count(p) == 1),
    {
        proof { self.lemma_view(); }
        self.counts[p - 1] == 1
    }

    /// Whether the composite at `p` has at least one owner.
    pub fn has_at_least_one_ref(&self, p: usize) -> (r: bool)
        requires
            self.wf(),
            self.valid(p),
        ensures
            r == (self.count(p) >= 1),
    {
        proof { self.lemma_view(); }
        self.counts[p - 1] >= 1
    }

    /// Borrows the payload of the live composite at `p`, leaving its owners
    /// as they are.
    pub fn wrapper(&self, p: usize) -> (r: &P)
        requires
            self.wf(),
            self.live(p),
        ensures
            self@[slot(p)].payload == Some(*r),
    {
        proof { self.lemma_view(); }
        self.payloads[p - 1].as_ref().unwrap()
    }

    /// Puts `value` in place of the payload of the live composite at `p` and
    /// returns the payload it held. The owners and the address stay as they
    /// are.
    pub fn replace_payload(&mut self, p: usize, value: P) -> (prev: P)
        requires
            old(self).wf(),
            old(self).live(p),
        ensures
            final(self).wf(),
            old(self)@[slot(p)].payload == Some(prev),
            final(self)@ == old(self)@.update(
                slot(p),
                Composite {
                    record: old(self)@[slot(p)].record,
                    payload: Some(value),
                    count: old(self)@[slot(p)].count,
                },
            ),
    {
        proof { self.lemma_view(); }
        let mut held = Some(value);
        self.payloads.set_and_swap(p - 1, &mut held);
        proof {
            assert(self@ =~= old(self)@.update(
                slot(p),
                Composite {
                    record: old(self)@[slot(p)].record,
                    payload: Some(value),
                    count: old(self)@[slot(p)].count,
                },
            ));
        }
        held.unwrap()
    }

    /// Borrows the foreign record of the live composite at `p`.
    pub fn record(&self, p: usize) -> (r: &C)
        requires
            self.wf(),
            self.live(p),
        ensures
            self@[slot(p)].record == Some(*r),
    {
        proof { self.lemma_view(); }
        self.records[p - 1].as_ref().unwrap()
    }
}


/// An owning handle: one owner counted on the composite at a non-zero
/// address. Making one by wrapping or by adopting a borrowed address adds the
/// owner; `release` gives it back, and `into_raw` hands it over as a bare
/// address.
#[must_use]
pub struct RefCountedPtr {
    cef: usize,
}

impl View for RefCountedPtr {
    type V = usize;

    closed spec fn view(&self) -> usize {
        self.cef
    }
}

impl RefCountedPtr {
    #[verifier::type_invariant]
    spec fn non_null(&self) -> bool {
        self.cef != 0
    }

    /// Wraps `object` with `record` into a new composite and returns the handle
    /// that owns its one owner.
    pub fn wrap<C: RefCounter, P>(heap: &mut CompositeHeap<C, P>, cefobj: C, object: P) -> (r:
        RefCountedPtr)
        requires
            old(heap).wf(),
            old(heap)@.len() + 1 < usize::MAX,
        ensures
            final(heap).wf(),
            r@ == old(heap)@.len() + 1,
            final(heap)@.len() == r@,
            final(heap)@.drop_last() == old(heap)@,
            final(heap)@.last().record == Some(
                cefobj.with_header(installed_header(core::mem::size_of::<C>())),
            ),
            final(heap)@.last().record->0.header() == installed_header(core::mem::size_of::<C>()),
            final(heap)@.last().payload == Some(object),
            final(heap)@.last().count == 1,
    {
        let p = heap.wrap(cefobj, object);
        RefCountedPtr { cef: p }
    }

    /// Adopts a borrowed address: adds one owner to it first. A null address
    /// gives `None` and changes nothing.
    pub fn from_ptr_add_ref<C: RefCounter, P>(heap: &mut CompositeHeap<C, P>, ptr: usize) -> (r:
        Option<RefCountedPtr>)
        requires
            old(heap).wf(),
            ptr != 0 ==> old(heap).live(ptr) && old(heap).count(ptr) < MAX_REFS,
        ensures
            final(heap).wf(),
            ptr == 0 ==> r is None && final(heap)@ == old(heap)@,
            ptr != 0 ==> r is Some && r->0@ == ptr && final(heap)@ == after_add_ref(
                old(heap)@,
                ptr,
            ),
    {
        if ptr == 0 {
            None
        } else {
            heap.add_ref(ptr);
            Some(RefCountedPtr { cef: ptr })
        }
    }

    /// Takes over the owner that `ptr` already carries. A null address gives
    /// `None`.
    pub fn from_ptr(ptr: usize) -> (r: Option<RefCountedPtr>)
        ensures
            ptr == 0 ==> r is None,
            ptr != 0 ==> r is Some && r->0@ == ptr,
    {
        if ptr == 0 {
            None
        } else {
            Some(RefCountedPtr { cef: ptr })
        }
    }

    /// Takes over the owner that the non-null `ptr` already carries.
    pub fn from_ptr_unchecked(ptr: usize) -> (r: RefCountedPtr)
        requires
            ptr != 0,
        ensures
            r@ == ptr,
    {
        RefCountedPtr { cef: ptr }
    }

    /// The address this handle owns an owner of.
    pub fn as_ptr(&self) -> (p: usize)
        ensures
            p == self@,
            p != 0,
    {
        proof { use_type_invariant(self); }
        self.cef
    }

    /// Gives up the handle without releasing: its owner now travels with the
    /// returned address.
    pub fn into_raw(self) -> (p: usize)
        ensures
            p == self@,
            p != 0,
    {
        proof { use_type_invariant(&self); }
        self.cef
    }

    /// A second handle on the same composite, with one more owner counted.
    pub fn clone_ref<C: RefCounter, P>(&self, heap: &mut CompositeHeap<C, P>) -> (r:
        RefCountedPtr)
        requires
            old(heap).wf(),
            old(heap).live(self@),
            old(heap).count(self@) < MAX_REFS,
        ensures
            final(heap).wf(),
            r@ == self@,
            final(heap)@ == after_add_ref(old(heap)@, self@),
    {
        heap.add_ref(self.cef);
        RefCountedPtr { cef: self.cef }
    }

    /// Ends the handle: one owner fewer on its composite. Returns whether an
    /// owner remains; when none does, the payload has been torn down.
    pub fn release<C: RefCounter, P>(self, heap: &mut CompositeHeap<C, P>) -> (remains: bool)
        requires
            old(heap).wf(),
            old(heap).live(self@),
        ensures
            final(heap).wf(),
            final(heap)@ == after_release(old(heap)@, self@),
            remains == (old(heap).count(self@) > 1),
    {
        heap.release(self.cef)
    }

    /// Borrows the foreign record the handle points at.
    pub fn record<'a, C: RefCounter, P>(&self, heap: &'a CompositeHeap<C, P>) -> (r: &'a C)
        requires
            heap.wf(),
            heap.live(self@),
        ensures
            heap@[slot(self@)].record == Some(*r),
    {
        heap.record(self.cef)
    }

    /// Borrows the payload of the composite the handle points at.
    pub fn payload<'a, C: RefCounter, P>(&self, heap: &'a CompositeHeap<C, P>) -> (r: &'a P)
        requires
            heap.wf(),
            heap.live(self@),
        ensures
            heap@[slot(self@)].payload == Some(*r),
    {
        heap.wrapper(self.cef)
    }
}


/// Remembers the last wrap of a payload: the handle it made and the identity
/// of the payload's shared backing object, so that wrapping the same object
/// again hands out a second handle on the same composite.
pub struct RefCountedPtrCache {
    pub ptr: RefCountedPtr,
    pub arc: u64,
}

impl RefCountedPtrCache {
    /// Wraps `wrapper`, whose backing object has identity `identity`, and
    /// remembers the result.
    pub fn new<C: RefCounter, P>(
        heap: &mut CompositeHeap<C, P>,
        record: C,
        wrapper: P,
        identity: u64,
    ) -> (r: RefCountedPtrCache)
        requires
            old(heap).wf(),
            old(heap)@.len() + 1 < usize::MAX,
        ensures
            final(heap).wf(),
            r.arc == identity,
            r.ptr@ == old(heap)@.len() + 1,
            final(heap)@.len() == r.ptr@,
            final(heap)@.drop_last() == old(heap)@,
            final(heap)@.last().record == Some(
                record.with_header(installed_header(core::mem::size_of::<C>())),
            ),
            final(heap)@.last().payload == Some(wrapper),
            final(heap)@.last().count == 1,
    {
        RefCountedPtrCache { arc: identity, ptr: RefCountedPtr::wrap(heap, record, wrapper) }
    }

    /// A handle for `wrapper`, whose backing object has identity `identity`.
    /// If that is the identity remembered, the remembered composite gets one
    /// more owner and nothing is allocated. Otherwise `wrapper` is wrapped
    /// anew and remembered, and the cache gives back its owner of the composite
    /// it held before.
    pub fn get_ptr_or_rewrap<C: RefCounter, P>(
        &mut self,
        heap: &mut CompositeHeap<C, P>,
        record: C,
        wrapper: P,
        identity: u64,
    ) -> (r: RefCountedPtr)
        requires
            old(heap).wf(),
            old(heap).live(old(self).ptr@),
            identity == old(self).arc ==> old(heap).count(old(self).ptr@) < MAX_REFS,
            old(heap)@.len() + 1 < usize::MAX,
        ensures
            final(heap).wf(),
            final(self).arc == identity,
            r@ == final(self).ptr@,
            identity == old(self).arc ==> {
                &&& final(self).ptr@ == old(self).ptr@
                &&& final(heap)@ == after_add_ref(old(heap)@, old(self).ptr@)
            },
            identity != old(self).arc ==> {
                &&& final(self).ptr@ == old(heap)@.len() + 1
                &&& final(heap)@.len() == old(heap)@.len() + 1
                &&& final(heap)@.drop_last() == after_release(old(heap)@, old(self).ptr@)
                &&& final(heap)@.last().payload == Some(wrapper)
                &&& final(heap)@.last().count == 2
                &&& final(heap)@.last().record == Some(
                    record.with_header(installed_header(core::mem::size_of::<C>())),
                )
            },
    {
        if self.arc != identity {
            let fresh = RefCountedPtr::wrap(heap, record, wrapper);
            proof { use_type_invariant(&self.ptr); }
            let prev = RefCountedPtr { cef: self.ptr.cef };
            self.ptr = fresh;
            self.arc = identity;
            let ghost mid = heap@;
            prev.release(heap);
            proof {
                assert(heap@.drop_last() =~= after_release(mid.drop_last(), old(self).ptr@));
            }
        }
        self.ptr.clone_ref(heap)
    }
}

} // verus!
