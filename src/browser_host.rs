use vstd::prelude::*;

use crate::extension::{Extension, ExtensionFn, ExtensionTable};
use crate::download_image::{DownloadImageCallbackWrapper, DownloadImageHeap};
use crate::file_dialog::{strings_of, FileDialogHeap, FileDialogMode, RunFileDialogCallbackWrapper};
use crate::navigation::{NavigationEntryVisitorWrapper, NavigationVisitorHeap};
use crate::refcounted::RefCountedPtr;

verus! {

/// Paint element types.
#[derive(PartialEq, Eq, Structural, Clone, Copy, Debug)]
pub enum PaintElementType {
    View,
    Popup,
}

/// Accessibility state of all frames of a browser.
#[derive(PartialEq, Eq, Structural, Clone, Copy, Debug)]
pub enum State {
    Default,
    Enabled,
    Disabled,
}

/// A size in view coordinates.
#[derive(PartialEq, Eq, Structural, Clone, Copy, Debug)]
pub struct Size {
    pub width: i32,
    pub height: i32,
}

/// A range of text positions.
#[derive(PartialEq, Eq, Structural, Clone, Copy, Debug)]
pub struct Range {
    pub from: i32,
    pub to: i32,
}

/// A mouse event: position relative to the upper-left corner of the view,
/// and the modifier keys held.
#[derive(PartialEq, Eq, Structural, Clone, Copy, Debug)]
pub struct MouseEvent {
    pub x: i32,
    pub y: i32,
    pub modifiers: u32,
}

/// Mouse button types.
#[derive(PartialEq, Eq, Structural, Clone, Copy, Debug)]
pub enum MouseButtonType {
    Left,
    Middle,
    Right,
}

/// Drag operations, which the foreign side takes as a bit mask.
#[derive(PartialEq, Eq, Structural, Clone, Copy, Debug)]
pub enum DragOperation {
    Copy,
    Link,
    Generic,
    Private,
    Move,
    Delete,
}

/// The bit of a drag operation in the foreign mask.
pub open spec fn drag_bit(op: DragOperation) -> u32 {
    match op {
        DragOperation::Copy => 1,
        DragOperation::Link => 2,
        DragOperation::Generic => 4,
        DragOperation::Private => 8,
        DragOperation::Move => 16,
        DragOperation::Delete => 32,
    }
}

/// The mask of a list of drag operations: the union of their bits.
pub open spec fn drag_mask(ops: Seq<DragOperation>) -> u32
    decreases ops.len(),
{
    if ops.len() == 0 {
        0
    } else {
        drag_mask(ops.drop_last()) | drag_bit(ops.last())
    }
}

/// The mask that stands for `ops` on the foreign side.
pub fn drag_operations_mask(ops: &[DragOperation]) -> (m: u32)
    ensures
        m == drag_mask(ops@),
{
    let mut m: u32 = 0;
    let mut i: usize = 0;
    while i < ops.len()
        invariant
            i <= ops@.len(),
            m == drag_mask(ops@.take(i as int)),
        decreases ops@.len() - i,
    {
        let bit: u32 = match ops[i] {
            DragOperation::Copy => 1,
            DragOperation::Link => 2,
            DragOperation::Generic => 4,
            DragOperation::Private => 8,
            DragOperation::Move => 16,
            DragOperation::Delete => 32,
        };
        proof {
            assert(ops@.take(i + 1).drop_last() =~= ops@.take(i as int));
        }
        m = m | bit;
        i = i + 1;
    }
    proof {
        assert(ops@.take(i as int) =~= ops@);
    }
    m
}

/// Kinds of key events.
#[derive(PartialEq, Eq, Structural, Clone, Copy, Debug)]
pub enum KeyEventType {
    RawKeyDown,
    KeyDown,
    KeyUp,
    Char,
}

/// A keyboard event.
#[derive(PartialEq, Eq, Structural, Clone, Copy, Debug)]
pub struct KeyEvent {
    pub kind: KeyEventType,
    pub modifiers: u32,
    pub windows_key_code: i32,
    pub native_key_code: i32,
    pub is_system_key: bool,
    pub character: u16,
    pub unmodified_character: u16,
    pub focus_on_editable_field: bool,
}

/// A range of composition text to underline, with its colors and style.
#[derive(PartialEq, Eq, Structural, Clone, Copy, Debug)]
pub struct CompositionUnderline {
    pub range: Range,
    pub color: u32,
    pub background_color: u32,
    pub thick: bool,
}

/// Drag data of the foreign side: an owning handle on its record.
pub struct DragData {
    ptr: RefCountedPtr,
}

impl DragData {
    /// The address of the foreign record.
    pub closed spec fn addr(&self) -> usize {
        self.ptr@
    }

    /// Drag data over the handle `ptr`.
    pub fn new(ptr: RefCountedPtr) -> (d: DragData)
        ensures
            d.addr() == ptr@,
    {
        DragData { ptr }
    }

    /// The address of the foreign record.
    pub fn as_ptr(&self) -> (p: usize)
        ensures
            p == self.addr(),
            p != 0,
    {
        self.ptr.as_ptr()
    }
}

/// The function slots of the foreign browser-host record.
#[derive(PartialEq, Eq, Structural, Clone, Copy, Debug)]
pub enum HostFn {
    CloseBrowser,
    TryCloseBrowser,
    SetFocus,
    HasView,
    StartDownload,
    DownloadImage,
    GetNavigationEntries,
    RunFileDialog,
    Print,
    Find,
    StopFinding,
    CloseDevTools,
    HasDevTools,
    SetMouseCursorChangeDisabled,
    IsMouseCursorChangeDisabled,
    ReplaceMisspelling,
    AddWordToDictionary,
    IsWindowRenderingDisabled,
    WasResized,
    WasHidden,
    NotifyScreenInfoChanged,
    Invalidate,
    SendExternalBeginFrame,
    SendFocusEvent,
    SendCaptureLostEvent,
    NotifyMoveOrResizeStarted,
    GetWindowlessFrameRate,
    SetWindowlessFrameRate,
    ImeCommitText,
    ImeFinishComposingText,
    ImeCancelComposition,
    DragTargetDragLeave,
    DragSourceSystemDragEnded,
    SetAccessibilityState,
    SetAutoResizeEnabled,
    GetExtension,
    IsBackgroundHost,
    SetAudioMuted,
    IsAudioMuted,
    GetWindowHandle,
    GetOpenerWindowHandle,
    SendMouseClickEvent,
    SendMouseMoveEvent,
    SendMouseWheelEvent,
    DragTargetDragOver,
    DragTargetDrop,
    DragSourceEndedAt,
    SendKeyEvent,
    ImeSetComposition,
    DragTargetDragEnter,
}

/// A call into the foreign browser-host record, its arguments marshaled.
pub enum HostCall {
    CloseBrowser { force_close: bool },
    TryCloseBrowser,
    SetFocus { focus: bool },
    HasView,
    StartDownload { url: String },
    DownloadImage {
        image_url: String,
        is_favicon: bool,
        max_image_size: u32,
        bypass_cache: bool,
        callback: usize,
    },
    GetNavigationEntries { visitor: usize, current_only: bool },
    RunFileDialog {
        mode: FileDialogMode,
        title: Option<String>,
        default_file_path: Option<String>,
        accept_filters: Vec<String>,
        selected_accept_filter: i32,
        callback: usize,
    },
    Print,
    Find { identifier: i32, search_text: String, forward: bool, match_case: bool, find_next: bool },
    StopFinding { clear_selection: bool },
    CloseDevTools,
    HasDevTools,
    SetMouseCursorChangeDisabled { disabled: bool },
    IsMouseCursorChangeDisabled,
    ReplaceMisspelling { word: String },
    AddWordToDictionary { word: String },
    IsWindowRenderingDisabled,
    WasResized,
    WasHidden { hidden: bool },
    NotifyScreenInfoChanged,
    Invalidate { element_type: PaintElementType },
    SendExternalBeginFrame,
    SendFocusEvent { set_focus: bool },
    SendCaptureLostEvent,
    NotifyMoveOrResizeStarted,
    GetWindowlessFrameRate,
    SetWindowlessFrameRate { frame_rate: i32 },
    ImeCommitText {
        text: Option<String>,
        replacement_range: Option<Range>,
        relative_cursor_pos: i32,
    },
    ImeFinishComposingText { keep_selection: bool },
    ImeCancelComposition,
    DragTargetDragLeave,
    DragSourceSystemDragEnded,
    SetAccessibilityState { accessibility_state: State },
    SetAutoResizeEnabled { enabled: bool, min_size: Size, max_size: Size },
    GetExtension,
    IsBackgroundHost,
    SetAudioMuted { mute: bool },
    IsAudioMuted,
    GetWindowHandle,
    GetOpenerWindowHandle,
    SendMouseClickEvent {
        event: MouseEvent,
        button_type: MouseButtonType,
        mouse_up: bool,
        click_count: i32,
    },
    SendMouseMoveEvent { event: MouseEvent, mouse_leave: bool },
    SendMouseWheelEvent { event: MouseEvent, delta_x: i32, delta_y: i32 },
    DragTargetDragOver { event: MouseEvent, allowed_ops: u32 },
    DragTargetDrop { event: MouseEvent },
    DragSourceEndedAt { x: i32, y: i32, op: u32 },
    SendKeyEvent { event: KeyEvent },
    ImeSetComposition {
        text: String,
        underlines_count: usize,
        underlines: CompositionUnderline,
        replacement_range: Range,
        selection_range: Range,
    },
    DragTargetDragEnter { drag_data: usize, event: MouseEvent, allowed_ops: u32 },
}

impl HostCall {
    /// The slot a call goes through.
    pub open spec fn function(self) -> HostFn {
        match self {
            HostCall::CloseBrowser { .. } => HostFn::CloseBrowser,
            HostCall::TryCloseBrowser => HostFn::TryCloseBrowser,
            HostCall::SetFocus { .. } => HostFn::SetFocus,
            HostCall::HasView => HostFn::HasView,
            HostCall::StartDownload { .. } => HostFn::StartDownload,
            HostCall::DownloadImage { .. } => HostFn::DownloadImage,
            HostCall::GetNavigationEntries { .. } => HostFn::GetNavigationEntries,
            HostCall::RunFileDialog { .. } => HostFn::RunFileDialog,
            HostCall::Print => HostFn::Print,
            HostCall::Find { .. } => HostFn::Find,
            HostCall::StopFinding { .. } => HostFn::StopFinding,
            HostCall::CloseDevTools => HostFn::CloseDevTools,
            HostCall::HasDevTools => HostFn::HasDevTools,
            HostCall::SetMouseCursorChangeDisabled { .. } => HostFn::SetMouseCursorChangeDisabled,
            HostCall::IsMouseCursorChangeDisabled => HostFn::IsMouseCursorChangeDisabled,
            HostCall::ReplaceMisspelling { .. } => HostFn::ReplaceMisspelling,
            HostCall::AddWordToDictionary { .. } => HostFn::AddWordToDictionary,
            HostCall::IsWindowRenderingDisabled => HostFn::IsWindowRenderingDisabled,
            HostCall::WasResized => HostFn::WasResized,
            HostCall::WasHidden { .. } => HostFn::WasHidden,
            HostCall::NotifyScreenInfoChanged => HostFn::NotifyScreenInfoChanged,
            HostCall::Invalidate { .. } => HostFn::Invalidate,
            HostCall::SendExternalBeginFrame => HostFn::SendExternalBeginFrame,
            HostCall::SendFocusEvent { .. } => HostFn::SendFocusEvent,
            HostCall::SendCaptureLostEvent => HostFn::SendCaptureLostEvent,
            HostCall::NotifyMoveOrResizeStarted => HostFn::NotifyMoveOrResizeStarted,
            HostCall::GetWindowlessFrameRate => HostFn::GetWindowlessFrameRate,
            HostCall::SetWindowlessFrameRate { .. } => HostFn::SetWindowlessFrameRate,
            HostCall::ImeCommitText { .. } => HostFn::ImeCommitText,
            HostCall::ImeFinishComposingText { .. } => HostFn::ImeFinishComposingText,
            HostCall::ImeCancelComposition => HostFn::ImeCancelComposition,
            HostCall::DragTargetDragLeave => HostFn::DragTargetDragLeave,
            HostCall::DragSourceSystemDragEnded => HostFn::DragSourceSystemDragEnded,
            HostCall::SetAccessibilityState { .. } => HostFn::SetAccessibilityState,
            HostCall::SetAutoResizeEnabled { .. } => HostFn::SetAutoResizeEnabled,
            HostCall::GetExtension => HostFn::GetExtension,
            HostCall::IsBackgroundHost => HostFn::IsBackgroundHost,
            HostCall::SetAudioMuted { .. } => HostFn::SetAudioMuted,
            HostCall::IsAudioMuted => HostFn::IsAudioMuted,
            HostCall::GetWindowHandle => HostFn::GetWindowHandle,
            HostCall::GetOpenerWindowHandle => HostFn::GetOpenerWindowHandle,
            HostCall::SendMouseClickEvent { .. } => HostFn::SendMouseClickEvent,
            HostCall::SendMouseMoveEvent { .. } => HostFn::SendMouseMoveEvent,
            HostCall::SendMouseWheelEvent { .. } => HostFn::SendMouseWheelEvent,
            HostCall::DragTargetDragOver { .. } => HostFn::DragTargetDragOver,
            HostCall::DragTargetDrop { .. } => HostFn::DragTargetDrop,
            HostCall::DragSourceEndedAt { .. } => HostFn::DragSourceEndedAt,
            HostCall::SendKeyEvent { .. } => HostFn::SendKeyEvent,
            HostCall::ImeSetComposition { .. } => HostFn::ImeSetComposition,
            HostCall::DragTargetDragEnter { .. } => HostFn::DragTargetDragEnter,
        }
    }
}

/// The slots that a foreign browser-host record fills; an empty slot means the
/// operation is not offered by that build of the foreign component.
pub struct HostTable {
    slots: Vec<HostFn>,
}

impl HostTable {
    /// The slot of `f` is filled.
    pub closed spec fn supports(&self, f: HostFn) -> bool {
        self.slots@.contains(f)
    }

    /// A table with exactly the slots `slots` filled.
    pub fn new(slots: Vec<HostFn>) -> (t: HostTable)
        ensures
            forall|f: HostFn| t.supports(f) == slots@.contains(f),
    {
        HostTable { slots }
    }

    /// Whether the slot of `f` is filled.
    pub fn has(&self, f: HostFn) -> (r: bool)
        ensures
            r == self.supports(f),
    {
        let mut i: usize = 0;
        while i < self.slots.len()
            invariant
                i <= self.slots@.len(),
                forall|j: int| 0 <= j < i ==> self.slots@[j] != f,
            decreases self.slots@.len() - i,
        {
            if self.slots[i] == f {
                return true;
            }
            i = i + 1;
        }
        false
    }
}

/// Structure used to represent the browser process aspects of a browser
/// window: an owning handle on the foreign record and the slots it fills.
pub struct BrowserHost {
    ptr: RefCountedPtr,
    table: HostTable,
}

impl BrowserHost {
    /// The address of the foreign record.
    pub closed spec fn addr(&self) -> usize {
        self.ptr@
    }

    /// The slot of `f` is filled in the foreign record.
    pub closed spec fn supports(&self, f: HostFn) -> bool {
        self.table.supports(f)
    }

    /// `call` if its slot is filled, else nothing: an empty slot makes the
    /// operation a no-op.
    pub open spec fn issued(&self, call: HostCall) -> Option<HostCall> {
        if self.supports(call.function()) {
            Some(call)
        } else {
            None
        }
    }

    /// A browser host over the handle `ptr`, whose record fills `table`.
    pub fn new(ptr: RefCountedPtr, table: HostTable) -> (h: BrowserHost)
        ensures
            h.addr() == ptr@,
            forall|f: HostFn| h.supports(f) == table.supports(f),
    {
        BrowserHost { ptr, table }
    }

    /// The address of the foreign record.
    pub fn as_ptr(&self) -> (p: usize)
        ensures
            p == self.addr(),
            p != 0,
    {
        self.ptr.as_ptr()
    }

    /// Gives up the browser host and hands its owner over with the address.
    pub fn into_raw(self) -> (p: usize)
        ensures
            p == self.addr(),
            p != 0,
    {
        self.ptr.into_raw()
    }

    /// Request that the browser close; with `force_close` no prompt is shown.
    /// Returns the call to make, or nothing where the slot is empty.
    pub fn close_browser(&mut self, force_close: bool) -> (r: Option<HostCall>)
        ensures
            r == old(self).issued(HostCall::CloseBrowser { force_close }),
            *final(self) == *old(self),
    {
        self.issue(HostCall::CloseBrowser { force_close })
    }

    /// Helper for closing a browser from the top-level window close handler.
    /// Returns the call to make, or nothing where the slot is empty.
    pub fn try_close_browser(&mut self) -> (r: Option<HostCall>)
        ensures
            r == old(self).issued(HostCall::TryCloseBrowser),
            *final(self) == *old(self),
    {
        self.issue(HostCall::TryCloseBrowser)
    }

    /// Set whether the browser is focused.
    /// Returns the call to make, or nothing where the slot is empty.
    pub fn set_focus(&mut self, focus: bool) -> (r: Option<HostCall>)
        ensures
            r == old(self).issued(HostCall::SetFocus { focus }),
            *final(self) == *old(self),
    {
        self.issue(HostCall::SetFocus { focus })
    }

    /// Asks whether this browser is wrapped in a browser view.
    /// Returns the call to make, or nothing where the slot is empty.
    pub fn has_view(&self) -> (r: Option<HostCall>)
        ensures
            r == self.issued(HostCall::HasView),
    {
        self.issue(HostCall::HasView)
    }

    /// Download the file at `url`.
    /// Returns the call to make, or nothing where the slot is empty.
    pub fn start_download(&mut self, url: &str) -> (r: Option<HostCall>)
        ensures
            r is Some <==> old(self).supports(HostFn::StartDownload),
            r is Some ==> (r->0 matches HostCall::StartDownload { url: x_url } && x_url@ == url@),
            *final(self) == *old(self),
    {
        self.issue(HostCall::StartDownload { url: url.to_owned() })
    }

    /// Download `image_url` and have `callback` run on completion. Where the
    /// slot is filled, `callback` is wrapped into a new completion composite
    /// whose owner travels with the returned call; where it is empty nothing
    /// is wrapped and nothing returned.
    pub fn download_image<F: FnOnce(String, u16, Option<usize>)>(
        &self,
        heap: &mut DownloadImageHeap<F>,
        image_url: &str,
        is_favicon: bool,
        max_image_size: u32,
        bypass_cache: bool,
        callback: F,
    ) -> (r: Option<HostCall>)
        requires
            old(heap).wf(),
            old(heap)@.len() + 1 < usize::MAX,
        ensures
            final(heap).wf(),
            r is Some <==> self.supports(HostFn::DownloadImage),
            r is None ==> final(heap)@ == old(heap)@,
            r is Some ==> (r->0 matches HostCall::DownloadImage {
                image_url: x_url,
                is_favicon: x_favicon,
                max_image_size: x_max,
                bypass_cache: x_bypass,
                callback: x_callback,
            } && x_url@ == image_url@ && x_favicon == is_favicon && x_max == max_image_size
                && x_bypass == bypass_cache && x_callback == old(heap)@.len() + 1
                && final(heap)@.len() == x_callback && final(heap)@.drop_last() == old(heap)@
                && final(heap)@.last().payload == Some(Some(callback))
                && final(heap)@.last().count == 1
                && final(heap)@.last().record->0.on_download_image_finished),
    {
        if self.table.has(HostFn::DownloadImage) {
            let p = DownloadImageCallbackWrapper::new(heap, callback);
            Some(
                HostCall::DownloadImage {
                    image_url: image_url.to_owned(),
                    is_favicon,
                    max_image_size,
                    bypass_cache,
                    callback: p,
                },
            )
        } else {
            None
        }
    }

    /// Retrieve a snapshot of the navigation entries, sent one by one to
    /// `visitor`; with `current_only` only the current entry is sent. Where the
    /// slot is filled, `visitor` is wrapped into a new visitor composite whose
    /// owner travels with the returned call; where it is empty nothing is
    /// wrapped and nothing returned.
    pub fn get_navigation_entries<F: Fn(usize, bool, usize, usize) -> bool>(
        &self,
        heap: &mut NavigationVisitorHeap<F>,
        visitor: F,
        current_only: bool,
    ) -> (r: Option<HostCall>)
        requires
            old(heap).wf(),
            old(heap)@.len() + 1 < usize::MAX,
        ensures
            final(heap).wf(),
            r is Some <==> self.supports(HostFn::GetNavigationEntries),
            r is None ==> final(heap)@ == old(heap)@,
            r is Some ==> {
                &&& r == Some(
                    HostCall::GetNavigationEntries {
                        visitor: (old(heap)@.len() + 1) as usize,
                        current_only,
                    },
                )
                &&& final(heap)@.len() == old(heap)@.len() + 1
                &&& final(heap)@.drop_last() == old(heap)@
                &&& final(heap)@.last().payload == Some(Some(visitor))
                &&& final(heap)@.last().count == 1
                &&& final(heap)@.last().record->0.visit
            },
    {
        if self.table.has(HostFn::GetNavigationEntries) {
            let p = NavigationEntryVisitorWrapper::new(heap, visitor);
            Some(HostCall::GetNavigationEntries { visitor: p, current_only })
        } else {
            None
        }
    }

    /// Run a file chooser dialog of kind `mode`, with an optional `title` and
    /// initial `default_file_path`, offering `accept_filters` with the one at
    /// `selected_accept_filter` chosen first; `callback` runs once the dialog
    /// is dismissed. Where the slot is filled, `callback` is wrapped into a new
    /// completion composite whose owner travels with the returned call; where
    /// it is empty nothing is wrapped and nothing returned.
    pub fn run_file_dialog<F: FnOnce(usize, Option<Vec<String>>)>(
        &self,
        heap: &mut FileDialogHeap<F>,
        mode: FileDialogMode,
        title: Option<&str>,
        default_file_path: Option<&str>,
        accept_filters: &[&str],
        selected_accept_filter: i32,
        callback: F,
    ) -> (r: Option<HostCall>)
        requires
            old(heap).wf(),
            old(heap)@.len() + 1 < usize::MAX,
        ensures
            final(heap).wf(),
            r is Some <==> self.supports(HostFn::RunFileDialog),
            r is None ==> final(heap)@ == old(heap)@,
            r is Some ==> (r->0 matches HostCall::RunFileDialog {
                mode: x_mode,
                title: x_title,
                default_file_path: x_path,
                accept_filters: x_filters,
                selected_accept_filter: x_selected,
                callback: x_callback,
            } && x_mode == mode && (x_title is Some <==> title is Some) && (title is Some
                ==> x_title->0@ == title->0@) && (x_path is Some <==> default_file_path is Some)
                && (default_file_path is Some ==> x_path->0@ == default_file_path->0@)
                && x_filters@.len() == accept_filters@.len() && (forall|i: int|
                0 <= i < accept_filters@.len() ==> #[trigger] x_filters@[i]@ == accept_filters@[i]@)
                && x_selected == selected_accept_filter && x_callback == old(heap)@.len() + 1
                && final(heap)@.len() == x_callback && final(heap)@.drop_last() == old(heap)@
                && final(heap)@.last().payload == Some(Some(callback))
                && final(heap)@.last().count == 1
                && final(heap)@.last().record->0.on_file_dialog_dismissed),
    {
        if self.table.has(HostFn::RunFileDialog) {
            let p = RunFileDialogCallbackWrapper::new(heap, callback);
            let title = match title {
                Some(t) => Some(t.to_owned()),
                None => None,
            };
            let default_file_path = match default_file_path {
                Some(t) => Some(t.to_owned()),
                None => None,
            };
            Some(
                HostCall::RunFileDialog {
                    mode,
                    title,
                    default_file_path,
                    accept_filters: strings_of(accept_filters),
                    selected_accept_filter,
                    callback: p,
                },
            )
        } else {
            None
        }
    }

    /// Print the current browser contents.
    /// Returns the call to make, or nothing where the slot is empty.
    pub fn print(&self) -> (r: Option<HostCall>)
        ensures
            r == self.issued(HostCall::Print),
    {
        self.issue(HostCall::Print)
    }

    /// Search for `search_text`.
    /// Returns the call to make, or nothing where the slot is empty.
    pub fn find(
        &self,
        identifier: i32,
        search_text: &str,
        forward: bool,
        match_case: bool,
        find_next: bool,
    ) -> (r: Option<HostCall>)
        ensures
            r is Some <==> self.supports(HostFn::Find),
            r is Some ==> (r->0 matches HostCall::Find {
                identifier: x_identifier,
                search_text: x_search_text,
                forward: x_forward,
                match_case: x_match_case,
                find_next: x_find_next,
            } && x_identifier == identifier
                && x_search_text@ == search_text@
                && x_forward == forward
                && x_match_case == match_case
                && x_find_next == find_next),
    {
        self.issue(HostCall::Find {
            identifier,
            search_text: search_text.to_owned(),
            forward,
            match_case,
            find_next,
        })
    }

    /// Cancel all searches that are currently going on.
    /// Returns the call to make, or nothing where the slot is empty.
    pub fn stop_finding(&self, clear_selection: bool) -> (r: Option<HostCall>)
        ensures
            r == self.issued(HostCall::StopFinding { clear_selection }),
    {
        self.issue(HostCall::StopFinding { clear_selection })
    }

    /// Explicitly close the associated DevTools browser, if any.
    /// Returns the call to make, or nothing where the slot is empty.
    pub fn close_dev_tools(&self) -> (r: Option<HostCall>)
        ensures
            r == self.issued(HostCall::CloseDevTools),
    {
        self.issue(HostCall::CloseDevTools)
    }

    /// Asks whether this browser currently has an associated DevTools browser.
    /// Returns the call to make, or nothing where the slot is empty.
    pub fn has_dev_tools(&self) -> (r: Option<HostCall>)
        ensures
            r == self.issued(HostCall::HasDevTools),
    {
        self.issue(HostCall::HasDevTools)
    }

    /// Set whether mouse cursor change is disabled.
    /// Returns the call to make, or nothing where the slot is empty.
    pub fn set_mouse_cursor_change_disabled(&mut self, disabled: bool) -> (r: Option<HostCall>)
        ensures
            r == old(self).issued(HostCall::SetMouseCursorChangeDisabled { disabled }),
            *final(self) == *old(self),
    {
        self.issue(HostCall::SetMouseCursorChangeDisabled { disabled })
    }

    /// Asks whether mouse cursor change is disabled.
    /// Returns the call to make, or nothing where the slot is empty.
    pub fn is_mouse_cursor_change_disabled(&self) -> (r: Option<HostCall>)
        ensures
            r == self.issued(HostCall::IsMouseCursorChangeDisabled),
    {
        self.issue(HostCall::IsMouseCursorChangeDisabled)
    }

    /// Replace the selected misspelled word with `word`.
    /// Returns the call to make, or nothing where the slot is empty.
    pub fn replace_misspelling(&mut self, word: &str) -> (r: Option<HostCall>)
        ensures
            r is Some <==> old(self).supports(HostFn::ReplaceMisspelling),
            r is Some ==> (r->0 matches HostCall::ReplaceMisspelling {
                word: x_word,
            } && x_word@ == word@),
            *final(self) == *old(self),
    {
        self.issue(HostCall::ReplaceMisspelling { word: word.to_owned() })
    }

    /// Add `word` to the spelling dictionary.
    /// Returns the call to make, or nothing where the slot is empty.
    pub fn add_word_to_dictionary(&mut self, word: &str) -> (r: Option<HostCall>)
        ensures
            r is Some <==> old(self).supports(HostFn::AddWordToDictionary),
            r is Some ==> (r->0 matches HostCall::AddWordToDictionary {
                word: x_word,
            } && x_word@ == word@),
            *final(self) == *old(self),
    {
        self.issue(HostCall::AddWordToDictionary { word: word.to_owned() })
    }

    /// Asks whether window rendering is disabled.
    /// Returns the call to make, or nothing where the slot is empty.
    pub fn is_window_rendering_disabled(&self) -> (r: Option<HostCall>)
        ensures
            r == self.issued(HostCall::IsWindowRenderingDisabled),
    {
        self.issue(HostCall::IsWindowRenderingDisabled)
    }

    /// Notify the browser that the widget has been resized.
    /// Returns the call to make, or nothing where the slot is empty.
    pub fn was_resized(&self) -> (r: Option<HostCall>)
        ensures
            r == self.issued(HostCall::WasResized),
    {
        self.issue(HostCall::WasResized)
    }

    /// Notify the browser that it has been hidden or shown.
    /// Returns the call to make, or nothing where the slot is empty.
    pub fn was_hidden(&self, hidden: bool) -> (r: Option<HostCall>)
        ensures
            r == self.issued(HostCall::WasHidden { hidden }),
    {
        self.issue(HostCall::WasHidden { hidden })
    }

    /// Notify the browser that the screen info has changed.
    /// Returns the call to make, or nothing where the slot is empty.
    pub fn notify_screen_info_changed(&self) -> (r: Option<HostCall>)
        ensures
            r == self.issued(HostCall::NotifyScreenInfoChanged),
    {
        self.issue(HostCall::NotifyScreenInfoChanged)
    }

    /// Invalidate the view.
    /// Returns the call to make, or nothing where the slot is empty.
    pub fn invalidate(&mut self, element_type: PaintElementType) -> (r: Option<HostCall>)
        ensures
            r == old(self).issued(HostCall::Invalidate { element_type }),
            *final(self) == *old(self),
    {
        self.issue(HostCall::Invalidate { element_type })
    }

    /// Issue a BeginFrame request.
    /// Returns the call to make, or nothing where the slot is empty.
    pub fn send_external_begin_frame(&mut self) -> (r: Option<HostCall>)
        ensures
            r == old(self).issued(HostCall::SendExternalBeginFrame),
            *final(self) == *old(self),
    {
        self.issue(HostCall::SendExternalBeginFrame)
    }

    /// Send a focus event to the browser.
    /// Returns the call to make, or nothing where the slot is empty.
    pub fn send_focus_event(&mut self, set_focus: bool) -> (r: Option<HostCall>)
        ensures
            r == old(self).issued(HostCall::SendFocusEvent { set_focus }),
            *final(self) == *old(self),
    {
        self.issue(HostCall::SendFocusEvent { set_focus })
    }

    /// Send a capture lost event to the browser.
    /// Returns the call to make, or nothing where the slot is empty.
    pub fn send_capture_lost_event(&mut self) -> (r: Option<HostCall>)
        ensures
            r == old(self).issued(HostCall::SendCaptureLostEvent),
            *final(self) == *old(self),
    {
        self.issue(HostCall::SendCaptureLostEvent)
    }

    /// Notify the browser that the window hosting it is about to be moved or resized.
    /// Returns the call to make, or nothing where the slot is empty.
    pub fn notify_move_or_resize_started(&self) -> (r: Option<HostCall>)
        ensures
            r == self.issued(HostCall::NotifyMoveOrResizeStarted),
    {
        self.issue(HostCall::NotifyMoveOrResizeStarted)
    }

    /// Asks for the maximum frame rate of a windowless browser; the answer is
    /// read with `frame_rate_from_reply`.
    /// Returns the call to make, or nothing where the slot is empty.
    pub fn get_windowless_frame_rate(&self) -> (r: Option<HostCall>)
        ensures
            r == self.issued(HostCall::GetWindowlessFrameRate),
    {
        self.issue(HostCall::GetWindowlessFrameRate)
    }

    /// Set the maximum frame rate of a windowless browser.
    /// Returns the call to make, or nothing where the slot is empty.
    pub fn set_windowless_frame_rate(&mut self, frame_rate: i32) -> (r: Option<HostCall>)
        ensures
            r == old(self).issued(HostCall::SetWindowlessFrameRate { frame_rate }),
            *final(self) == *old(self),
    {
        self.issue(HostCall::SetWindowlessFrameRate { frame_rate })
    }

    /// Completes the existing composition, optionally inserting `text`.
    /// Returns the call to make, or nothing where the slot is empty.
    pub fn ime_commit_text(
        &mut self,
        text: Option<&str>,
        replacement_range: Option<Range>,
        relative_cursor_pos: i32,
    ) -> (r: Option<HostCall>)
        ensures
            r is Some <==> old(self).supports(HostFn::ImeCommitText),
            r is Some ==> (r->0 matches HostCall::ImeCommitText {
                text: x_text,
                replacement_range: x_replacement_range,
                relative_cursor_pos: x_relative_cursor_pos,
            } && (x_text is Some <==> text is Some)
                && (text is Some ==> x_text->0@ == text->0@)
                && x_replacement_range == replacement_range
                && x_relative_cursor_pos == relative_cursor_pos),
            *final(self) == *old(self),
    {
        let text = match text {
            Some(t) => Some(t.to_owned()),
            None => None,
        };
        self.issue(HostCall::ImeCommitText { text, replacement_range, relative_cursor_pos })
    }

    /// Completes the existing composition by applying the composition node contents.
    /// Returns the call to make, or nothing where the slot is empty.
    pub fn ime_finish_composing_text(&mut self, keep_selection: bool) -> (r: Option<HostCall>)
        ensures
            r == old(self).issued(HostCall::ImeFinishComposingText { keep_selection }),
            *final(self) == *old(self),
    {
        self.issue(HostCall::ImeFinishComposingText { keep_selection })
    }

    /// Cancels the existing composition.
    /// Returns the call to make, or nothing where the slot is empty.
    pub fn ime_cancel_composition(&mut self) -> (r: Option<HostCall>)
        ensures
            r == old(self).issued(HostCall::ImeCancelComposition),
            *final(self) == *old(self),
    {
        self.issue(HostCall::ImeCancelComposition)
    }

    /// The user dragged the mouse out of the web view.
    /// Returns the call to make, or nothing where the slot is empty.
    pub fn drag_target_drag_leave(&mut self) -> (r: Option<HostCall>)
        ensures
            r == old(self).issued(HostCall::DragTargetDragLeave),
            *final(self) == *old(self),
    {
        self.issue(HostCall::DragTargetDragLeave)
    }

    /// The drag operation started by the browser has completed.
    /// Returns the call to make, or nothing where the slot is empty.
    pub fn drag_source_system_drag_ended(&mut self) -> (r: Option<HostCall>)
        ensures
            r == old(self).issued(HostCall::DragSourceSystemDragEnded),
            *final(self) == *old(self),
    {
        self.issue(HostCall::DragSourceSystemDragEnded)
    }

    /// Set accessibility state for all frames.
    /// Returns the call to make, or nothing where the slot is empty.
    pub fn set_accessibility_state(&mut self, accessibility_state: State) -> (r: Option<HostCall>)
        ensures
            r == old(self).issued(HostCall::SetAccessibilityState { accessibility_state }),
            *final(self) == *old(self),
    {
        self.issue(HostCall::SetAccessibilityState { accessibility_state })
    }

    /// Enable notifications of auto resize within `min_size` and `max_size`.
    /// Returns the call to make, or nothing where the slot is empty.
    pub fn set_auto_resize_enabled(
        &mut self,
        enabled: bool,
        min_size: &Size,
        max_size: &Size,
    ) -> (r: Option<HostCall>)
        ensures
            r == old(self).issued(HostCall::SetAutoResizeEnabled {
                enabled,
                min_size: *min_size,
                max_size: *max_size,
            }),
            *final(self) == *old(self),
    {
        self.issue(HostCall::SetAutoResizeEnabled {
            enabled,
            min_size: *min_size,
            max_size: *max_size,
        })
    }

    /// Asks for the extension hosted in this browser.
    /// Returns the call to make, or nothing where the slot is empty.
    pub fn get_extension(&self) -> (r: Option<HostCall>)
        ensures
            r == self.issued(HostCall::GetExtension),
    {
        self.issue(HostCall::GetExtension)
    }

    /// Asks whether this browser hosts an extension background script.
    /// Returns the call to make, or nothing where the slot is empty.
    pub fn is_background_host(&self) -> (r: Option<HostCall>)
        ensures
            r == self.issued(HostCall::IsBackgroundHost),
    {
        self.issue(HostCall::IsBackgroundHost)
    }

    /// Set whether the browser's audio is muted.
    /// Returns the call to make, or nothing where the slot is empty.
    pub fn set_audio_muted(&mut self, mute: bool) -> (r: Option<HostCall>)
        ensures
            r == old(self).issued(HostCall::SetAudioMuted { mute }),
            *final(self) == *old(self),
    {
        self.issue(HostCall::SetAudioMuted { mute })
    }

    /// Asks whether the browser's audio is muted.
    /// Returns the call to make, or nothing where the slot is empty.
    pub fn is_audio_muted(&self) -> (r: Option<HostCall>)
        ensures
            r == self.issued(HostCall::IsAudioMuted),
    {
        self.issue(HostCall::IsAudioMuted)
    }


    /// Asks for the window handle of this browser.
    /// Returns the call to make, or nothing where the slot is empty.
    pub fn get_window_handle(&self) -> (r: Option<HostCall>)
        ensures
            r == self.issued(HostCall::GetWindowHandle),
    {
        self.issue(HostCall::GetWindowHandle)
    }

    /// Asks for the window handle of the browser that opened this one.
    /// Returns the call to make, or nothing where the slot is empty.
    pub fn get_opener_window_handle(&self) -> (r: Option<HostCall>)
        ensures
            r == self.issued(HostCall::GetOpenerWindowHandle),
    {
        self.issue(HostCall::GetOpenerWindowHandle)
    }

    /// Send a mouse click event to the browser.
    /// Returns the call to make, or nothing where the slot is empty.
    pub fn send_mouse_click_event(
        &mut self,
        event: &MouseEvent,
        button_type: MouseButtonType,
        mouse_up: bool,
        click_count: i32,
    ) -> (r: Option<HostCall>)
        ensures
            r == old(self).issued(HostCall::SendMouseClickEvent {
                event: *event,
                button_type,
                mouse_up,
                click_count,
            }),
            *final(self) == *old(self),
    {
        self.issue(HostCall::SendMouseClickEvent {
            event: *event,
            button_type,
            mouse_up,
            click_count,
        })
    }

    /// Send a mouse move event to the browser.
    /// Returns the call to make, or nothing where the slot is empty.
    pub fn send_mouse_move_event(
        &mut self,
        event: &MouseEvent,
        mouse_leave: bool,
    ) -> (r: Option<HostCall>)
        ensures
            r == old(self).issued(HostCall::SendMouseMoveEvent { event: *event, mouse_leave }),
            *final(self) == *old(self),
    {
        self.issue(HostCall::SendMouseMoveEvent { event: *event, mouse_leave })
    }

    /// Send a mouse wheel event to the browser.
    /// Returns the call to make, or nothing where the slot is empty.
    pub fn send_mouse_wheel_event(
        &mut self,
        event: &MouseEvent,
        delta_x: i32,
        delta_y: i32,
    ) -> (r: Option<HostCall>)
        ensures
            r == old(self).issued(HostCall::SendMouseWheelEvent {
                event: *event,
                delta_x,
                delta_y,
            }),
            *final(self) == *old(self),
    {
        self.issue(HostCall::SendMouseWheelEvent { event: *event, delta_x, delta_y })
    }

    /// The mouse moved across the web view during a drag; `allowed_ops` travel as a mask.
    /// Returns the call to make, or nothing where the slot is empty.
    pub fn drag_target_drag_over(
        &mut self,
        event: &MouseEvent,
        allowed_ops: &[DragOperation],
    ) -> (r: Option<HostCall>)
        ensures
            r == old(self).issued(HostCall::DragTargetDragOver {
                event: *event,
                allowed_ops: drag_mask(allowed_ops@),
            }),
            *final(self) == *old(self),
    {
        self.issue(HostCall::DragTargetDragOver {
            event: *event,
            allowed_ops: drag_operations_mask(allowed_ops),
        })
    }

    /// The user dropped the dragged object onto the web view.
    /// Returns the call to make, or nothing where the slot is empty.
    pub fn drag_target_drop(&mut self, event: &MouseEvent) -> (r: Option<HostCall>)
        ensures
            r == old(self).issued(HostCall::DragTargetDrop { event: *event }),
            *final(self) == *old(self),
    {
        self.issue(HostCall::DragTargetDrop { event: *event })
    }

    /// The drag started by the browser ended at `x`, `y`; `op` travels as a mask.
    /// Returns the call to make, or nothing where the slot is empty.
    pub fn drag_source_ended_at(
        &mut self,
        x: i32,
        y: i32,
        op: &[DragOperation],
    ) -> (r: Option<HostCall>)
        ensures
            r == old(self).issued(HostCall::DragSourceEndedAt { x, y, op: drag_mask(op@) }),
            *final(self) == *old(self),
    {
        self.issue(HostCall::DragSourceEndedAt { x, y, op: drag_operations_mask(op) })
    }

    /// Send a key event to the browser.
    /// Returns the call to make, or nothing where the slot is empty.
    pub fn send_key_event(&mut self, event: &KeyEvent) -> (r: Option<HostCall>)
        ensures
            r == old(self).issued(HostCall::SendKeyEvent { event: *event }),
            *final(self) == *old(self),
    {
        self.issue(HostCall::SendKeyEvent { event: *event })
    }

    /// Begins a new composition or updates the existing one.
    /// Returns the call to make, or nothing where the slot is empty.
    pub fn ime_set_composition(
        &mut self,
        text: &str,
        underlines_count: usize,
        underlines: &CompositionUnderline,
        replacement_range: Range,
        selection_range: Range,
    ) -> (r: Option<HostCall>)
        ensures
            r is Some <==> old(self).supports(HostFn::ImeSetComposition),
            r is Some ==> (r->0 matches HostCall::ImeSetComposition {
                text: x_text,
                underlines_count: x_underlines_count,
                underlines: x_underlines,
                replacement_range: x_replacement_range,
                selection_range: x_selection_range,
            } && x_text@ == text@
                && x_underlines_count == underlines_count
                && x_underlines == *underlines
                && x_replacement_range == replacement_range
                && x_selection_range == selection_range),
            *final(self) == *old(self),
    {
        self.issue(HostCall::ImeSetComposition {
            text: text.to_owned(),
            underlines_count,
            underlines: *underlines,
            replacement_range,
            selection_range,
        })
    }

    /// The user dragged the mouse into the web view; the drag data travels as
    /// its address and `allowed_ops` as a mask.
    /// Returns the call to make, or nothing where the slot is empty.
    pub fn drag_target_drag_enter(
        &mut self,
        drag_data: &DragData,
        event: &MouseEvent,
        allowed_ops: &[DragOperation],
    ) -> (r: Option<HostCall>)
        ensures
            r == old(self).issued(HostCall::DragTargetDragEnter {
                drag_data: drag_data.addr(),
                event: *event,
                allowed_ops: drag_mask(allowed_ops@),
            }),
            *final(self) == *old(self),
    {
        self.issue(HostCall::DragTargetDragEnter {
            drag_data: drag_data.as_ptr(),
            event: *event,
            allowed_ops: drag_operations_mask(allowed_ops),
        })
    }

    fn issue(&self, call: HostCall) -> (r: Option<HostCall>)
        ensures
            r == self.issued(call),
    {
        let f = match &call {
            HostCall::CloseBrowser { .. } => HostFn::CloseBrowser,
            HostCall::TryCloseBrowser => HostFn::TryCloseBrowser,
            HostCall::SetFocus { .. } => HostFn::SetFocus,
            HostCall::HasView => HostFn::HasView,
            HostCall::StartDownload { .. } => HostFn::StartDownload,
            HostCall::DownloadImage { .. } => HostFn::DownloadImage,
            HostCall::GetNavigationEntries { .. } => HostFn::GetNavigationEntries,
            HostCall::RunFileDialog { .. } => HostFn::RunFileDialog,
            HostCall::Print => HostFn::Print,
            HostCall::Find { .. } => HostFn::Find,
            HostCall::StopFinding { .. } => HostFn::StopFinding,
            HostCall::CloseDevTools => HostFn::CloseDevTools,
            HostCall::HasDevTools => HostFn::HasDevTools,
            HostCall::SetMouseCursorChangeDisabled { .. } => HostFn::SetMouseCursorChangeDisabled,
            HostCall::IsMouseCursorChangeDisabled => HostFn::IsMouseCursorChangeDisabled,
            HostCall::ReplaceMisspelling { .. } => HostFn::ReplaceMisspelling,
            HostCall::AddWordToDictionary { .. } => HostFn::AddWordToDictionary,
            HostCall::IsWindowRenderingDisabled => HostFn::IsWindowRenderingDisabled,
            HostCall::WasResized => HostFn::WasResized,
            HostCall::WasHidden { .. } => HostFn::WasHidden,
            HostCall::NotifyScreenInfoChanged => HostFn::NotifyScreenInfoChanged,
            HostCall::Invalidate { .. } => HostFn::Invalidate,
            HostCall::SendExternalBeginFrame => HostFn::SendExternalBeginFrame,
            HostCall::SendFocusEvent { .. } => HostFn::SendFocusEvent,
            HostCall::SendCaptureLostEvent => HostFn::SendCaptureLostEvent,
            HostCall::NotifyMoveOrResizeStarted => HostFn::NotifyMoveOrResizeStarted,
            HostCall::GetWindowlessFrameRate => HostFn::GetWindowlessFrameRate,
            HostCall::SetWindowlessFrameRate { .. } => HostFn::SetWindowlessFrameRate,
            HostCall::ImeCommitText { .. } => HostFn::ImeCommitText,
            HostCall::ImeFinishComposingText { .. } => HostFn::ImeFinishComposingText,
            HostCall::ImeCancelComposition => HostFn::ImeCancelComposition,
            HostCall::DragTargetDragLeave => HostFn::DragTargetDragLeave,
            HostCall::DragSourceSystemDragEnded => HostFn::DragSourceSystemDragEnded,
            HostCall::SetAccessibilityState { .. } => HostFn::SetAccessibilityState,
            HostCall::SetAutoResizeEnabled { .. } => HostFn::SetAutoResizeEnabled,
            HostCall::GetExtension => HostFn::GetExtension,
            HostCall::IsBackgroundHost => HostFn::IsBackgroundHost,
            HostCall::SetAudioMuted { .. } => HostFn::SetAudioMuted,
            HostCall::IsAudioMuted => HostFn::IsAudioMuted,
            HostCall::GetWindowHandle => HostFn::GetWindowHandle,
            HostCall::GetOpenerWindowHandle => HostFn::GetOpenerWindowHandle,
            HostCall::SendMouseClickEvent { .. } => HostFn::SendMouseClickEvent,
            HostCall::SendMouseMoveEvent { .. } => HostFn::SendMouseMoveEvent,
            HostCall::SendMouseWheelEvent { .. } => HostFn::SendMouseWheelEvent,
            HostCall::DragTargetDragOver { .. } => HostFn::DragTargetDragOver,
            HostCall::DragTargetDrop { .. } => HostFn::DragTargetDrop,
            HostCall::DragSourceEndedAt { .. } => HostFn::DragSourceEndedAt,
            HostCall::SendKeyEvent { .. } => HostFn::SendKeyEvent,
            HostCall::ImeSetComposition { .. } => HostFn::ImeSetComposition,
            HostCall::DragTargetDragEnter { .. } => HostFn::DragTargetDragEnter,
        };
        if self.table.has(f) {
            Some(call)
        } else {
            None
        }
    }
}

/// The extension a browser host answered with: none where no call was made
/// or the answer is null, else one that takes over the owner the answer
/// carries.
pub fn extension_from_reply(reply: Option<usize>, table: ExtensionTable) -> (r: Option<Extension>)
    ensures
        (reply is None || reply == Some(0usize)) ==> r is None,
        (reply is Some && reply->0 != 0) ==> r is Some && r->0.addr() == reply->0 && forall|
            f: ExtensionFn,
        | r->0.supports(f) == table.supports(f),
{
    match reply {
        Some(p) => Extension::from_ptr(p, table),
        None => None,
    }
}

} // verus!
