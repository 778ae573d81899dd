use std::cell::RefCell;
use std::rc::Rc;

use cef_refcount::{
    drag_operations_mask, extension_from_reply, flag_from_reply, frame_rate_from_reply,
    handle_from_reply,
    int_from_reply, opener_from_reply, text_from_reply, BrowserHost, CompositionUnderline,
    DownloadImageCallbackWrapper, DownloadImageHeap, DragData, DragOperation, Extension,
    ExtensionFn, ExtensionTable, HostCall, HostFn, HostTable, KeyEvent, KeyEventType,
    MouseButtonType, MouseEvent, PaintElementType, Range, RefCountedPtr, Size, State,
};

fn ignore(_: String, _: u16, _: Option<usize>) {}

fn host(slots: Vec<HostFn>) -> BrowserHost {
    BrowserHost::new(RefCountedPtr::from_ptr_unchecked(77), HostTable::new(slots))
}

#[test]
fn filled_slot_gives_the_call() {
    let h = host(vec![HostFn::Print, HostFn::IsAudioMuted]);
    assert_eq!(h.as_ptr(), 77);
    assert!(matches!(h.print(), Some(HostCall::Print)));
    assert!(matches!(h.is_audio_muted(), Some(HostCall::IsAudioMuted)));
}

#[test]
fn empty_slot_is_a_no_op() {
    let mut h = host(vec![HostFn::Print]);
    assert!(h.has_dev_tools().is_none());
    assert!(h.set_audio_muted(true).is_none());
    assert!(h.close_browser(true).is_none());
    assert!(h.get_extension().is_none());
    assert!(h.find(1, "x", true, false, false).is_none());
}

#[test]
fn arguments_are_marshaled() {
    let mut h = host(vec![
        HostFn::Find,
        HostFn::SetWindowlessFrameRate,
        HostFn::Invalidate,
        HostFn::SetAccessibilityState,
        HostFn::SetAutoResizeEnabled,
        HostFn::ImeCommitText,
        HostFn::ReplaceMisspelling,
    ]);
    match h.find(5, "needle", true, false, true) {
        Some(HostCall::Find { identifier, search_text, forward, match_case, find_next }) => {
            assert_eq!(identifier, 5);
            assert_eq!(search_text, "needle");
            assert!(forward && !match_case && find_next);
        },
        _ => panic!("find was not issued"),
    }
    assert!(matches!(
        h.set_windowless_frame_rate(24),
        Some(HostCall::SetWindowlessFrameRate { frame_rate: 24 })
    ));
    assert!(matches!(
        h.invalidate(PaintElementType::Popup),
        Some(HostCall::Invalidate { element_type: PaintElementType::Popup })
    ));
    assert!(matches!(
        h.set_accessibility_state(State::Enabled),
        Some(HostCall::SetAccessibilityState { accessibility_state: State::Enabled })
    ));
    let lo = Size { width: 10, height: 20 };
    let hi = Size { width: 300, height: 400 };
    match h.set_auto_resize_enabled(true, &lo, &hi) {
        Some(HostCall::SetAutoResizeEnabled { enabled, min_size, max_size }) => {
            assert!(enabled);
            assert_eq!(min_size, lo);
            assert_eq!(max_size, hi);
        },
        _ => panic!("auto resize was not issued"),
    }
    match h.ime_commit_text(Some("ab"), Some(Range { from: 1, to: 3 }), -2) {
        Some(HostCall::ImeCommitText { text, replacement_range, relative_cursor_pos }) => {
            assert_eq!(text.as_deref(), Some("ab"));
            assert_eq!(replacement_range, Some(Range { from: 1, to: 3 }));
            assert_eq!(relative_cursor_pos, -2);
        },
        _ => panic!("commit was not issued"),
    }
    match h.replace_misspelling("word") {
        Some(HostCall::ReplaceMisspelling { word }) => assert_eq!(word, "word"),
        _ => panic!("replace was not issued"),
    }
}

#[test]
fn replies_fall_back_to_defaults() {
    assert!(flag_from_reply(Some(1)));
    assert!(flag_from_reply(Some(-3)));
    assert!(!flag_from_reply(Some(0)));
    assert!(!flag_from_reply(None));
    assert_eq!(int_from_reply(Some(30)), 30);
    assert_eq!(int_from_reply(None), 0);
    assert_eq!(text_from_reply(Some("abc".to_string())), "abc");
    assert_eq!(text_from_reply(None), "");
}

#[test]
fn extension_reply_null_is_none() {
    assert!(extension_from_reply(None, ExtensionTable::new(vec![])).is_none());
    assert!(extension_from_reply(Some(0), ExtensionTable::new(vec![])).is_none());
    let e = extension_from_reply(Some(9), ExtensionTable::new(vec![ExtensionFn::IsLoaded])).unwrap();
    assert_eq!(e.as_ptr(), 9);
    assert_eq!(e.is_loaded(), Some(ExtensionFn::IsLoaded));
    assert_eq!(e.get_path(), None);
}

#[test]
fn extension_calls_follow_slots() {
    let mut e = Extension::new(
        RefCountedPtr::from_ptr_unchecked(3),
        ExtensionTable::new(vec![ExtensionFn::GetIdentifier, ExtensionFn::Unload]),
    );
    assert_eq!(e.get_identifier(), Some(ExtensionFn::GetIdentifier));
    assert_eq!(e.unload(), Some(ExtensionFn::Unload));
    assert_eq!(e.is_loaded(), None);
    assert!(Extension::from_ptr(0, ExtensionTable::new(vec![])).is_none());
    assert_eq!(e.into_raw(), 3);
}

type Seen = Rc<RefCell<Vec<(String, u16, Option<usize>)>>>;

#[test]
fn download_image_completion_calls_once_and_frees() {
    let seen: Seen = Rc::new(RefCell::new(Vec::new()));
    let mut heap: DownloadImageHeap<Box<dyn FnOnce(String, u16, Option<usize>)>> =
        DownloadImageHeap::new();
    let h = host(vec![HostFn::DownloadImage]);
    let s = seen.clone();
    let cb: Box<dyn FnOnce(String, u16, Option<usize>)> =
        Box::new(move |u, c, i| s.borrow_mut().push((u, c, i)));
    let call = h.download_image(&mut heap, "http://a/b.png", true, 64, false, cb);
    let p = match call {
        Some(HostCall::DownloadImage { image_url, is_favicon, max_image_size, bypass_cache, callback }) => {
            assert_eq!(image_url, "http://a/b.png");
            assert!(is_favicon && !bypass_cache);
            assert_eq!(max_image_size, 64);
            callback
        },
        _ => panic!("download was not issued"),
    };
    assert!(heap.has_one_ref(p));
    let called = DownloadImageCallbackWrapper::download_image_finished(
        &mut heap,
        p,
        Some("http://a/b.png".to_string()),
        65736,
        0,
    );
    assert!(called);
    assert_eq!(*seen.borrow(), vec![("http://a/b.png".to_string(), 200u16, None)]);
    assert!(!heap.has_at_least_one_ref(p));
}

#[test]
fn download_image_with_empty_slot_wraps_nothing() {
    let mut heap: DownloadImageHeap<fn(String, u16, Option<usize>)> = DownloadImageHeap::new();
    let h = host(vec![]);
    let f: fn(String, u16, Option<usize>) = ignore;
    assert!(h.download_image(&mut heap, "u", false, 0, true, f).is_none());
    assert_eq!(heap.len(), 0);
}

#[test]
fn download_image_completion_passes_image_address() {
    let seen: Seen = Rc::new(RefCell::new(Vec::new()));
    let mut heap: DownloadImageHeap<Box<dyn FnOnce(String, u16, Option<usize>)>> =
        DownloadImageHeap::new();
    let s = seen.clone();
    let p = DownloadImageCallbackWrapper::new(
        &mut heap,
        Box::new(move |u, c, i| s.borrow_mut().push((u, c, i))),
    );
    heap.add_ref(p);
    assert!(DownloadImageCallbackWrapper::download_image_finished(&mut heap, p, None, 404, 55));
    assert_eq!(*seen.borrow(), vec![(String::new(), 404u16, Some(55))]);
    assert!(heap.has_one_ref(p));
    assert!(!DownloadImageCallbackWrapper::download_image_finished(&mut heap, p, None, 0, 0));
    assert!(!heap.has_at_least_one_ref(p));
}

#[test]
fn drag_operations_become_a_mask() {
    assert_eq!(drag_operations_mask(&[]), 0);
    assert_eq!(drag_operations_mask(&[DragOperation::Copy, DragOperation::Move]), 17);
    assert_eq!(
        drag_operations_mask(&[DragOperation::Link, DragOperation::Link, DragOperation::Delete]),
        34
    );
    assert_eq!(
        drag_operations_mask(&[
            DragOperation::Copy,
            DragOperation::Link,
            DragOperation::Generic,
            DragOperation::Private,
            DragOperation::Move,
            DragOperation::Delete,
        ]),
        63
    );
}

#[test]
fn mouse_and_drag_calls_carry_their_arguments() {
    let mut h = host(vec![
        HostFn::SendMouseClickEvent,
        HostFn::DragSourceEndedAt,
        HostFn::DragTargetDragEnter,
    ]);
    let ev = MouseEvent { x: 3, y: 4, modifiers: 2 };
    assert!(matches!(
        h.send_mouse_click_event(&ev, MouseButtonType::Right, true, 2),
        Some(HostCall::SendMouseClickEvent {
            event: MouseEvent { x: 3, y: 4, modifiers: 2 },
            button_type: MouseButtonType::Right,
            mouse_up: true,
            click_count: 2,
        })
    ));
    assert!(matches!(
        h.drag_source_ended_at(8, 9, &[DragOperation::Copy, DragOperation::Generic]),
        Some(HostCall::DragSourceEndedAt { x: 8, y: 9, op: 5 })
    ));
    let data = DragData::new(RefCountedPtr::from_ptr_unchecked(41));
    assert!(matches!(
        h.drag_target_drag_enter(&data, &ev, &[DragOperation::Move]),
        Some(HostCall::DragTargetDragEnter { drag_data: 41, allowed_ops: 16, .. })
    ));
    assert!(h.send_mouse_move_event(&ev, false).is_none());
    assert!(h.drag_target_drop(&ev).is_none());
}

#[test]
fn key_and_composition_calls_carry_their_arguments() {
    let mut h = host(vec![HostFn::SendKeyEvent, HostFn::ImeSetComposition]);
    let key = KeyEvent {
        kind: KeyEventType::Char,
        modifiers: 0,
        windows_key_code: 65,
        native_key_code: 30,
        is_system_key: false,
        character: 97,
        unmodified_character: 97,
        focus_on_editable_field: true,
    };
    match h.send_key_event(&key) {
        Some(HostCall::SendKeyEvent { event }) => assert_eq!(event, key),
        _ => panic!("key event was not issued"),
    }
    let u = CompositionUnderline {
        range: Range { from: 0, to: 2 },
        color: 0xff000000,
        background_color: 0,
        thick: true,
    };
    match h.ime_set_composition("ka", 1, &u, Range { from: 0, to: 0 }, Range { from: 2, to: 2 }) {
        Some(HostCall::ImeSetComposition {
            text,
            underlines_count,
            underlines,
            replacement_range,
            selection_range,
        }) => {
            assert_eq!(text, "ka");
            assert_eq!(underlines_count, 1);
            assert_eq!(underlines, u);
            assert_eq!(replacement_range, Range { from: 0, to: 0 });
            assert_eq!(selection_range, Range { from: 2, to: 2 });
        },
        _ => panic!("composition was not issued"),
    }
}

#[test]
fn window_handle_replies() {
    let h = host(vec![HostFn::GetWindowHandle]);
    assert!(matches!(h.get_window_handle(), Some(HostCall::GetWindowHandle)));
    assert!(h.get_opener_window_handle().is_none());
    assert_eq!(handle_from_reply(Some(12)), 12);
    assert_eq!(handle_from_reply(None), 0);
    assert_eq!(opener_from_reply(Some(12)), Some(12));
    assert_eq!(opener_from_reply(Some(0)), None);
    assert_eq!(opener_from_reply(None), None);
}

#[test]
fn frame_rate_reply_stays_in_range() {
    assert_eq!(frame_rate_from_reply(None), 30);
    assert_eq!(frame_rate_from_reply(Some(24)), 24);
    assert_eq!(frame_rate_from_reply(Some(1)), 1);
    assert_eq!(frame_rate_from_reply(Some(60)), 60);
    assert_eq!(frame_rate_from_reply(Some(0)), 1);
    assert_eq!(frame_rate_from_reply(Some(144)), 60);
}
