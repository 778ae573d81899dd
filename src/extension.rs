use vstd::prelude::*;

use crate::refcounted::RefCountedPtr;

verus! {

/// The function slots of the foreign extension record.
#[derive(PartialEq, Eq, Structural, Clone, Copy, Debug)]
pub enum ExtensionFn {
    GetIdentifier,
    GetPath,
    IsLoaded,
    Unload,
}

/// The slots that a foreign extension record fills; an empty slot means the
/// operation is not offered by that build of the foreign component.
pub struct ExtensionTable {
    slots: Vec<ExtensionFn>,
}

impl ExtensionTable {
    /// The slot of `f` is filled.
    pub closed spec fn supports(&self, f: ExtensionFn) -> bool {
        self.slots@.contains(f)
    }

    /// A table with exactly the slots `slots` filled.
    pub fn new(slots: Vec<ExtensionFn>) -> (t: ExtensionTable)
        ensures
            forall|f: ExtensionFn| t.supports(f) == slots@.contains(f),
    {
        ExtensionTable { slots }
    }

    /// Whether the slot of `f` is filled.
    pub fn has(&self, f: ExtensionFn) -> (r: bool)
        ensures
            r == self.supports(f),
    {
        let mut i: usize = 0;
        while i < self.slots.len()
            invariant
                i <= self.slots@.len(),
                forall|j: int| 0 <= j < i ==> self.slots@[j] != f,
            decreases self.slots@.len() - i,
        {
            if self.slots[i] == f {
                return true;
            }
            i = i + 1;
        }
        false
    }
}

/// Object representing an extension: an owning handle on the foreign record
/// and the slots it fills.
pub struct Extension {
    ptr: RefCountedPtr,
    table: ExtensionTable,
}

impl Extension {
    /// The address of the foreign record.
    pub closed spec fn addr(&self) -> usize {
        self.ptr@
    }

    /// The slot of `f` is filled in the foreign record.
    pub closed spec fn supports(&self, f: ExtensionFn) -> bool {
        self.table.supports(f)
    }

    /// `f` if its slot is filled, else nothing.
    pub open spec fn issued(&self, f: ExtensionFn) -> Option<ExtensionFn> {
        if self.supports(f) {
            Some(f)
        } else {
            None
        }
    }

    /// An extension over the handle `ptr`, whose record fills `table`.
    pub fn new(ptr: RefCountedPtr, table: ExtensionTable) -> (e: Extension)
        ensures
            e.addr() == ptr@,
            forall|f: ExtensionFn| e.supports(f) == table.supports(f),
    {
        Extension { ptr, table }
    }

    /// Takes over the owner that `ptr` carries; a null address gives `None`.
    pub fn from_ptr(ptr: usize, table: ExtensionTable) -> (r: Option<Extension>)
        ensures
            ptr == 0 ==> r is None,
            ptr != 0 ==> r is Some && r->0.addr() == ptr && forall|f: ExtensionFn|
                r->0.supports(f) == table.supports(f),
    {
        match RefCountedPtr::from_ptr(ptr) {
            Some(p) => Some(Extension::new(p, table)),
            None => None,
        }
    }

    /// The address of the foreign record.
    pub fn as_ptr(&self) -> (p: usize)
        ensures
            p == self.addr(),
            p != 0,
    {
        self.ptr.as_ptr()
    }

    /// Gives up the extension and hands its owner over with the address.
    pub fn into_raw(self) -> (p: usize)
        ensures
            p == self.addr(),
            p != 0,
    {
        self.ptr.into_raw()
    }

    fn issue(&self, f: ExtensionFn) -> (r: Option<ExtensionFn>)
        ensures
            r == self.issued(f),
    {
        if self.table.has(f) {
            Some(f)
        } else {
            None
        }
    }

    /// Asks for the unique extension identifier. Returns the call to make, or
    /// nothing where the slot is empty; `text_from_reply` reads the answer.
    pub fn get_identifier(&self) -> (r: Option<ExtensionFn>)
        ensures
            r == self.issued(ExtensionFn::GetIdentifier),
    {
        self.issue(ExtensionFn::GetIdentifier)
    }

    /// Asks for the absolute path to the extension directory. Returns the call
    /// to make, or nothing where the slot is empty; `text_from_reply` reads the
    /// answer.
    pub fn get_path(&self) -> (r: Option<ExtensionFn>)
        ensures
            r == self.issued(ExtensionFn::GetPath),
    {
        self.issue(ExtensionFn::GetPath)
    }

    /// Asks whether this extension is currently loaded. Returns the call to
    /// make, or nothing where the slot is empty.
    pub fn is_loaded(&self) -> (r: Option<ExtensionFn>)
        ensures
            r == self.issued(ExtensionFn::IsLoaded),
    {
        self.issue(ExtensionFn::IsLoaded)
    }

    /// Unloads this extension. Returns the call to make, or nothing where the
    /// slot is empty.
    pub fn unload(&mut self) -> (r: Option<ExtensionFn>)
        ensures
            r == old(self).issued(ExtensionFn::Unload),
            *final(self) == *old(self),
    {
        self.issue(ExtensionFn::Unload)
    }
}

/// Implement this trait to handle events related to browser extensions.
pub trait ExtensionHandler {
}

} // verus!
