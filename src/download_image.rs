use vstd::prelude::*;

use crate::refcounted::{
    after_release, installed_header, slot, Composite, CompositeHeap, RefCountHeader, RefCounter,
};

verus! {

/// The foreign record of a download-image completion: the reference-count
/// header and the slot of the completion entry point.
pub struct DownloadImageCallback {
    pub base: RefCountHeader,
    pub on_download_image_finished: bool,
}

impl RefCounter for DownloadImageCallback {
    open spec fn header(&self) -> RefCountHeader {
        self.base
    }

    open spec fn with_header(self, h: RefCountHeader) -> Self {
        DownloadImageCallback {
            base: h,
            on_download_image_finished: self.on_download_image_finished,
        }
    }

    proof fn lemma_with_header(self, h: RefCountHeader) {
    }

    fn base(&self) -> (r: &RefCountHeader) {
        &self.base
    }

    fn set_base(&mut self, h: RefCountHeader) {
        self.base = h;
    }
}

/// The composites of pending download-image completions, each holding the
/// host callback until the completion takes it.
pub type DownloadImageHeap<F> = CompositeHeap<DownloadImageCallback, Option<F>>;

/// The image argument handed to the callback for the image address `i`: none
/// where the address is null.
pub open spec fn image_arg(i: usize) -> Option<usize> {
    if i == 0 {
        None
    } else {
        Some(i)
    }
}

/// The URL text handed to the callback: the URL where one came, else empty.
pub open spec fn url_arg(image_url: Option<String>) -> Seq<char> {
    if image_url is Some {
        image_url->0@
    } else {
        Seq::<char>::empty()
    }
}

/// The host side of a download-image completion.
pub struct DownloadImageCallbackWrapper;

impl DownloadImageCallbackWrapper {
    /// Wraps `callback` into a new completion composite whose record fills the
    /// completion slot, and returns its address, which carries the one owner
    /// that the foreign side will give back on completion.
    pub fn new<F: FnOnce(String, u16, Option<usize>)>(
        heap: &mut DownloadImageHeap<F>,
        callback: F,
    ) -> (p: usize)
        requires
            old(heap).wf(),
            old(heap)@.len() + 1 < usize::MAX,
        ensures
            final(heap).wf(),
            p == old(heap)@.len() + 1,
            final(heap)@.len() == p,
            final(heap)@.drop_last() == old(heap)@,
            final(heap)@.last().record->0.header() == installed_header(
                core::mem::size_of::<DownloadImageCallback>(),
            ),
            final(heap)@.last().record->0.on_download_image_finished,
            final(heap)@.last().payload == Some(Some(callback)),
            final(heap)@.last().count == 1,
    {
        let record = DownloadImageCallback {
            base: RefCountHeader::empty(),
            on_download_image_finished: true,
        };
        heap.wrap(record, Some(callback))
    }

    /// The completion entry point, called once by the foreign side on the
    /// composite at `self_`: takes the callback out, calls it with the URL
    /// (empty where none came), the status code as 16 bits and the image
    /// address (none where null), then gives back the owner the foreign side
    /// held. Returns whether a callback was still there to call.
    pub fn download_image_finished<F: FnOnce(String, u16, Option<usize>)>(
        heap: &mut DownloadImageHeap<F>,
        self_: usize,
        image_url: Option<String>,
        http_status_code: i32,
        image: usize,
    ) -> (called: bool)
        requires
            old(heap).wf(),
            old(heap).live(self_),
            forall|f: F, u: String, c: u16, i: Option<usize>|
                old(heap)@[slot(self_)].payload == Some(Some(f)) ==> #[trigger] f.requires(
                    (u, c, i),
                ),
        ensures
            final(heap).wf(),
            called == (old(heap)@[slot(self_)].payload->0 is Some),
            called ==> exists|u: String|
                u@ == url_arg(image_url) && #[trigger] old(heap)@[slot(
                    self_,
                )].payload->0->0.ensures((u, http_status_code as u16, image_arg(image)), ()),
            final(heap)@ == after_release(
                old(heap)@.update(
                    slot(self_),
                    Composite {
                        record: old(heap)@[slot(self_)].record,
                        payload: Some(None),
                        count: old(heap)@[slot(self_)].count,
                    },
                ),
                self_,
            ),
    {
        let taken = heap.replace_payload(self_, None);
        let called = match taken {
            Some(callback) => {
                let url = match image_url {
                    Some(u) => u,
                    None => String::new(),
                };
                let img = if image == 0 {
                    None
                } else {
                    Some(image)
                };
                callback(url, http_status_code as u16, img);
                true
            },
            None => false,
        };
        heap.release(self_);
        called
    }
}

} // verus!
