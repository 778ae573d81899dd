use std::cell::RefCell;
use std::rc::Rc;

use cef_refcount::{
    strings_of, BrowserHost, FileDialogHeap, FileDialogMode, HostCall, HostFn, HostTable,
    NavigationEntryVisitorWrapper, NavigationVisitorHeap, RefCountedPtr,
    RunFileDialogCallbackWrapper,
};

type Visits = Rc<RefCell<Vec<(usize, bool, usize, usize)>>>;
type Chosen = Rc<RefCell<Vec<(usize, Option<Vec<String>>)>>>;

fn host(slots: Vec<HostFn>) -> BrowserHost {
    BrowserHost::new(RefCountedPtr::from_ptr_unchecked(5), HostTable::new(slots))
}

#[test]
fn navigation_visitor_is_called_per_entry_and_stops_on_false() {
    let seen: Visits = Rc::new(RefCell::new(Vec::new()));
    let s = seen.clone();
    let mut heap: NavigationVisitorHeap<Box<dyn Fn(usize, bool, usize, usize) -> bool>> =
        NavigationVisitorHeap::new();
    let h = host(vec![HostFn::GetNavigationEntries]);
    let visitor: Box<dyn Fn(usize, bool, usize, usize) -> bool> = Box::new(move |e, c, i, t| {
        s.borrow_mut().push((e, c, i, t));
        i + 1 < 2
    });
    let p = match h.get_navigation_entries(&mut heap, visitor, false) {
        Some(HostCall::GetNavigationEntries { visitor, current_only }) => {
            assert!(!current_only);
            visitor
        },
        _ => panic!("navigation entries were not asked for"),
    };
    assert_eq!(NavigationEntryVisitorWrapper::visit(&mut heap, p, 100, 0, 0, 3), 1);
    assert_eq!(NavigationEntryVisitorWrapper::visit(&mut heap, p, 101, 1, 1, 3), 0);
    assert_eq!(NavigationEntryVisitorWrapper::visit(&mut heap, p, 102, 0, 2, 3), 0);
    assert_eq!(*seen.borrow(), vec![(100, false, 0, 3), (101, true, 1, 3)]);
    assert!(heap.has_one_ref(p));
    assert!(!heap.release(p));
}

#[test]
fn navigation_visit_out_of_range_makes_no_call() {
    let seen: Visits = Rc::new(RefCell::new(Vec::new()));
    let s = seen.clone();
    let mut heap: NavigationVisitorHeap<Box<dyn Fn(usize, bool, usize, usize) -> bool>> =
        NavigationVisitorHeap::new();
    let p = NavigationEntryVisitorWrapper::new(
        &mut heap,
        Box::new(move |e, c, i, t| {
            s.borrow_mut().push((e, c, i, t));
            true
        }),
    );
    assert_eq!(NavigationEntryVisitorWrapper::visit(&mut heap, p, 1, 0, -1, 3), 0);
    assert_eq!(NavigationEntryVisitorWrapper::visit(&mut heap, p, 1, 0, 3, 3), 0);
    assert_eq!(NavigationEntryVisitorWrapper::visit(&mut heap, p, 1, 0, 0, 0), 0);
    assert!(seen.borrow().is_empty());
    assert_eq!(NavigationEntryVisitorWrapper::visit(&mut heap, p, 1, 1, 2, 3), 1);
    assert_eq!(*seen.borrow(), vec![(1, true, 2, 3)]);
}

#[test]
fn navigation_entries_with_empty_slot_wrap_nothing() {
    let mut heap: NavigationVisitorHeap<fn(usize, bool, usize, usize) -> bool> =
        NavigationVisitorHeap::new();
    let h = host(vec![]);
    let v: fn(usize, bool, usize, usize) -> bool = keep_going;
    assert!(h.get_navigation_entries(&mut heap, v, true).is_none());
    assert_eq!(heap.len(), 0);
    let p = NavigationEntryVisitorWrapper::new(&mut heap, v);
    assert_eq!(NavigationEntryVisitorWrapper::visit(&mut heap, p, 1, 1, 0, 1), 1);
}

fn keep_going(_: usize, _: bool, _: usize, _: usize) -> bool {
    true
}

#[test]
fn file_dialog_marshals_and_completes_once() {
    let chosen: Chosen = Rc::new(RefCell::new(Vec::new()));
    let c = chosen.clone();
    let mut heap: FileDialogHeap<Box<dyn FnOnce(usize, Option<Vec<String>>)>> =
        FileDialogHeap::new();
    let h = host(vec![HostFn::RunFileDialog]);
    let cb: Box<dyn FnOnce(usize, Option<Vec<String>>)> =
        Box::new(move |i, paths| c.borrow_mut().push((i, paths)));
    let call = h.run_file_dialog(
        &mut heap,
        FileDialogMode::OpenMultiple,
        Some("Pick"),
        None,
        &["image/*", ".txt"],
        1,
        cb,
    );
    let p = match call {
        Some(HostCall::RunFileDialog {
            mode,
            title,
            default_file_path,
            accept_filters,
            selected_accept_filter,
            callback,
        }) => {
            assert_eq!(mode, FileDialogMode::OpenMultiple);
            assert_eq!(title.as_deref(), Some("Pick"));
            assert_eq!(default_file_path, None);
            assert_eq!(accept_filters, vec!["image/*".to_string(), ".txt".to_string()]);
            assert_eq!(selected_accept_filter, 1);
            callback
        },
        _ => panic!("file dialog was not run"),
    };
    let paths = Some(vec!["/a.png".to_string()]);
    assert!(RunFileDialogCallbackWrapper::on_file_dialog_dismissed(&mut heap, p, 1, paths));
    assert_eq!(*chosen.borrow(), vec![(1, Some(vec!["/a.png".to_string()]))]);
    assert!(!heap.has_at_least_one_ref(p));
}

#[test]
fn file_dialog_negative_filter_index_reads_as_first() {
    let chosen: Chosen = Rc::new(RefCell::new(Vec::new()));
    let c = chosen.clone();
    let mut heap: FileDialogHeap<Box<dyn FnOnce(usize, Option<Vec<String>>)>> =
        FileDialogHeap::new();
    let p = RunFileDialogCallbackWrapper::new(
        &mut heap,
        Box::new(move |i, paths| c.borrow_mut().push((i, paths))),
    );
    heap.add_ref(p);
    assert!(RunFileDialogCallbackWrapper::on_file_dialog_dismissed(&mut heap, p, -1, None));
    assert_eq!(*chosen.borrow(), vec![(0, None)]);
    assert!(heap.has_one_ref(p));
    assert!(!RunFileDialogCallbackWrapper::on_file_dialog_dismissed(&mut heap, p, 0, None));
    assert_eq!(chosen.borrow().len(), 1);
}

#[test]
fn strings_are_copied_in_order() {
    assert_eq!(strings_of(&[]), Vec::<String>::new());
    assert_eq!(strings_of(&["a", "bc"]), vec!["a".to_string(), "bc".to_string()]);
}
