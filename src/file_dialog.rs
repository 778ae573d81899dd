use vstd::prelude::*;

use crate::refcounted::{
    after_release, installed_header, slot, Composite, CompositeHeap, RefCountHeader, RefCounter,
};

verus! {

/// Kinds of file dialog.
#[derive(PartialEq, Eq, Structural, Clone, Copy, Debug)]
pub enum FileDialogMode {
    Open,
    OpenMultiple,
    OpenFolder,
    Save,
}

/// The foreign record of a file-dialog completion: the reference-count header
/// and the slot of the completion entry point.
pub struct RunFileDialogCallback {
    pub base: RefCountHeader,
    pub on_file_dialog_dismissed: bool,
}

impl RefCounter for RunFileDialogCallback {
    open spec fn header(&self) -> RefCountHeader {
        self.base
    }

    open spec fn with_header(self, h: RefCountHeader) -> Self {
        RunFileDialogCallback { base: h, on_file_dialog_dismissed: self.on_file_dialog_dismissed }
    }

    proof fn lemma_with_header(self, h: RefCountHeader) {
    }

    fn base(&self) -> (r: &RefCountHeader) {
        &self.base
    }

    fn set_base(&mut self, h: RefCountHeader) {
        self.base = h;
    }
}

/// The composites of pending file dialogs, each holding the host callback
/// until the dialog is dismissed. The callback gets the index of the chosen
/// filter and the chosen paths, none where the dialog was cancelled.
pub type FileDialogHeap<F> = CompositeHeap<RunFileDialogCallback, Option<F>>;

/// The filter index handed to the callback: the foreign index, 0 where it is
/// negative.
pub open spec fn filter_arg(selected_accept_filter: i32) -> usize {
    if selected_accept_filter < 0 {
        0
    } else {
        selected_accept_filter as usize
    }
}

/// The host side of a file-dialog completion.
pub struct RunFileDialogCallbackWrapper;

impl RunFileDialogCallbackWrapper {
    /// Wraps `callback` into a new completion composite whose record fills the
    /// completion slot, and returns its address, which carries the one owner
    /// that the foreign side will give back on completion.
    pub fn new<F: FnOnce(usize, Option<Vec<String>>)>(
        heap: &mut FileDialogHeap<F>,
        callback: F,
    ) -> (p: usize)
        requires
            old(heap).wf(),
            old(heap)@.len() + 1 < usize::MAX,
        ensures
            final(heap).wf(),
            p == old(heap)@.len() + 1,
            final(heap)@.len() == p,
            final(heap)@.drop_last() == old(heap)@,
            final(heap)@.last().record->0.header() == installed_header(
                core::mem::size_of::<RunFileDialogCallback>(),
            ),
            final(heap)@.last().record->0.on_file_dialog_dismissed,
            final(heap)@.last().payload == Some(Some(callback)),
            final(heap)@.last().count == 1,
    {
        let record = RunFileDialogCallback {
            base: RefCountHeader::empty(),
            on_file_dialog_dismissed: true,
        };
        heap.wrap(record, Some(callback))
    }

    /// The completion entry point, called once by the foreign side on the
    /// composite at `self_`: takes the callback out, calls it with the filter
    /// index (0 where the foreign index is negative) and the paths, then gives
    /// back the owner the foreign side held. Returns whether a callback was
    /// still there to call.
    pub fn on_file_dialog_dismissed<F: FnOnce(usize, Option<Vec<String>>)>(
        heap: &mut FileDialogHeap<F>,
        self_: usize,
        selected_accept_filter: i32,
        file_paths: Option<Vec<String>>,
    ) -> (called: bool)
        requires
            old(heap).wf(),
            old(heap).live(self_),
            forall|f: F, i: usize, paths: Option<Vec<String>>|
                old(heap)@[slot(self_)].payload == Some(Some(f)) ==> #[trigger] f.requires(
                    (i, paths),
                ),
        ensures
            final(heap).wf(),
            called == (old(heap)@[slot(self_)].payload->0 is Some),
            called ==> old(heap)@[slot(self_)].payload->0->0.ensures(
                (filter_arg(selected_accept_filter), file_paths),
                (),
            ),
            final(heap)@ == after_release(
                old(heap)@.update(
                    slot(self_),
                    Composite {
                        record: old(heap)@[slot(self_)].record,
                        payload: Some(None),
                        count: old(heap)@[slot(self_)].count,
                    },
                ),
                self_,
            ),
    {
        let taken = heap.replace_payload(self_, None);
        let called = match taken {
            Some(callback) => {
                let index: usize = if selected_accept_filter < 0 {
                    0
                } else {
                    selected_accept_filter as usize
                };
                callback(index, file_paths);
                true
            },
            None => false,
        };
        heap.release(self_);
        called
    }
}

/// Owned copies of `items`, in order.
pub fn strings_of(items: &[&str]) -> (r: Vec<String>)
    ensures
        r@.len() == items@.len(),
        forall|i: int| 0 <= i < items@.len() ==> #[trigger] r@[i]@ == items@[i]@,
{
    let mut r: Vec<String> = Vec::new();
    let mut i: usize = 0;
    while i < items.len()
        invariant
            i <= items@.len(),
            r@.len() == i,
            forall|j: int| 0 <= j < i ==> #[trigger] r@[j]@ == items@[j]@,
        decreases items@.len() - i,
    {
        r.push(items[i].to_owned());
        i = i + 1;
    }
    r
}

} // verus!
