//! A verified model of a reference-counting bridge between host-owned
//! composite allocations and a foreign component that manages lifetime
//! through an intrusive header of four counting entry points.

mod browser_host;
mod download_image;
mod extension;
mod file_dialog;
mod laws;
mod navigation;
mod refcounted;
mod reply;

pub use browser_host::{
    drag_bit, drag_mask, drag_operations_mask, extension_from_reply, BrowserHost,
    CompositionUnderline, DragData, DragOperation, HostCall, HostFn, HostTable, KeyEvent,
    KeyEventType, MouseButtonType, MouseEvent, PaintElementType, Range, Size, State,
};
pub use download_image::{
    image_arg, url_arg, DownloadImageCallback, DownloadImageCallbackWrapper, DownloadImageHeap,
};
pub use extension::{Extension, ExtensionFn, ExtensionHandler, ExtensionTable};
pub use file_dialog::{
    filter_arg, strings_of, FileDialogHeap, FileDialogMode, RunFileDialogCallback,
    RunFileDialogCallbackWrapper,
};
pub use laws::{
    after_calls, calls_on_live, lemma_balanced_calls_restore, lemma_calls_move_count,
    lemma_release_tears_down_last, lemma_wrap_round_trip, net,
};
pub use navigation::{
    visitable, NavigationEntryVisitor, NavigationEntryVisitorWrapper, NavigationVisitorHeap,
};
pub use refcounted::{
    after_add_ref, after_release, installed_header, slot, with_count, Composite, CompositeHeap,
    HeaderOp, RefCountHeader, RefCountedPtr, RefCountedPtrCache, RefCounter, MAX_REFS,
};
pub use reply::{
    flag_from_reply, frame_rate_from_reply, handle_from_reply, int_from_reply, opener_from_reply,
    text_from_reply, DEFAULT_FRAME_RATE, MAX_FRAME_RATE, MIN_FRAME_RATE,
};
