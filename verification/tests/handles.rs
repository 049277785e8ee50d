use winsafe::handles::{Handle, HBRUSH, HGDIOBJ, HTREEITEM, HWND};
use winsafe::ole::ComPtr;

#[test]
fn handle_from_zero_is_null() {
    let h = HWND::from_ptr(0);
    assert!(h.is_null());
    assert_eq!(h.as_ptr(), 0);
}

#[test]
fn handle_from_nonzero_is_not_null_and_keeps_value() {
    let h = HWND::from_ptr(0x1000);
    assert!(!h.is_null());
    assert_eq!(h.as_ptr(), 0x1000);
}

#[test]
fn default_handle_is_null_for_every_kind() {
    assert!(HWND::default().is_null());
    assert!(HTREEITEM::default().is_null());
    assert!(HGDIOBJ::default().is_null());
    assert!(HBRUSH::default().is_null());
    assert!(ComPtr::null().is_null());
    assert_eq!(HWND::default().as_ptr(), 0);
    assert_eq!(HTREEITEM::default().as_ptr(), 0);
}

#[test]
fn nonzero_handle_is_not_null_for_every_kind() {
    assert!(!HTREEITEM::from_ptr(1).is_null());
    assert!(!HGDIOBJ::from_ptr(usize::MAX).is_null());
    assert!(!HBRUSH::from_ptr(0x20).is_null());
    assert!(!ComPtr::from_ptr(0xdead_beef).is_null());
    assert_eq!(HGDIOBJ::from_ptr(usize::MAX).as_ptr(), usize::MAX);
}

#[test]
fn handles_are_equal_when_their_values_are() {
    assert_eq!(HWND::from_ptr(7), HWND::from_ptr(7));
    assert_ne!(HWND::from_ptr(7), HWND::from_ptr(8));
    assert_eq!(HWND::from_ptr(0), HWND::default());
    let h = HTREEITEM::from_ptr(42);
    let copy = h;
    assert_eq!(h, copy);
}

#[test]
fn brush_converts_to_gdi_object_and_back() {
    let brush = HBRUSH::from_ptr(0x55);
    let obj = HGDIOBJ::from(brush);
    assert_eq!(obj.as_ptr(), 0x55);
    assert_eq!(HBRUSH::from(obj), brush);
    let into: HGDIOBJ = brush.into();
    assert_eq!(into, obj);
    assert!(HGDIOBJ::from(HBRUSH::default()).is_null());
    assert!(HBRUSH::from(HGDIOBJ::default()).is_null());
    assert_eq!(HGDIOBJ::from(HBRUSH::from(HGDIOBJ::from_ptr(9))), HGDIOBJ::from_ptr(9));
}

fn shared_between_threads<T: Send + Sync + Copy>(_: T) {}

#[test]
fn handles_may_be_shared_between_threads() {
    shared_between_threads(HWND::from_ptr(1));
    shared_between_threads(HTREEITEM::from_ptr(1));
    shared_between_threads(HGDIOBJ::from_ptr(1));
    shared_between_threads(HBRUSH::from_ptr(1));
    shared_between_threads(ComPtr::from_ptr(1));
}
