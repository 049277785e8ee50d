use winsafe::co::{
    ERROR_BAD_ARGUMENTS, TVE_COLLAPSE, TVE_EXPAND, TVGN_CHILD, TVGN_NEXT, TVIS_EXPANDED,
    TVM_DELETEITEM, TVM_EDITLABEL, TVM_ENSUREVISIBLE, TVM_EXPAND, TVM_GETITEM, TVM_GETITEMSTATE,
    TVM_GETNEXTITEM, TVM_INSERTITEM, TVM_SETITEM,
};
use winsafe::handles::{Handle, HTREEITEM, HWND};
use winsafe::msg::{
    dword_to_signed, handle_from_word, handle_to_word, low_dword, to_signed, to_unsigned,
    zero_as_err, zero_as_none, MsgSend, WndMsg, ERROR,
};
use winsafe::structs::{TVINSERTSTRUCT, TVITEMEX};
use winsafe::tvm::{
    DeleteItem, EditLabel, EnsureVisible, Expand, GetItem, GetItemState, GetNextItem, InsertItem,
    SetItem,
};

#[test]
fn words_keep_their_bits_between_the_two_readings() {
    assert_eq!(to_signed(0), 0);
    assert_eq!(to_signed(5), 5);
    assert_eq!(to_signed(usize::MAX), -1);
    assert_eq!(to_signed(isize::MAX as usize), isize::MAX);
    assert_eq!(to_signed(isize::MAX as usize + 1), isize::MIN);
    assert_eq!(to_unsigned(0), 0);
    assert_eq!(to_unsigned(5), 5);
    assert_eq!(to_unsigned(-1), usize::MAX);
    assert_eq!(to_unsigned(isize::MIN), isize::MAX as usize + 1);
    assert_eq!(to_unsigned(isize::MAX), isize::MAX as usize);
    for p in [0usize, 1, 0x1000, isize::MAX as usize, isize::MAX as usize + 1, usize::MAX] {
        assert_eq!(to_signed(p), p as isize);
        assert_eq!(to_unsigned(to_signed(p)), p);
    }
    for v in [0isize, 1, -1, -65536, isize::MIN, isize::MAX] {
        assert_eq!(to_unsigned(v), v as usize);
        assert_eq!(to_signed(to_unsigned(v)), v);
    }
}

#[test]
fn low_dword_takes_the_low_32_bits() {
    assert_eq!(low_dword(0), 0);
    assert_eq!(low_dword(0x20), 0x20);
    assert_eq!(low_dword(-1), 0xFFFF_FFFF);
    assert_eq!(low_dword(0x7FFF_FFFF), 0x7FFF_FFFF);
    for v in [0isize, 1, -1, -2, 0x1234_5678, isize::MIN, isize::MAX] {
        assert_eq!(low_dword(v), v as u32);
    }
}

#[test]
fn dword_to_signed_keeps_the_bits() {
    assert_eq!(dword_to_signed(0), 0);
    assert_eq!(dword_to_signed(7), 7);
    assert_eq!(dword_to_signed(0x7FFF_FFFF), i32::MAX);
    assert_eq!(dword_to_signed(0x8000_0000), i32::MIN);
    assert_eq!(dword_to_signed(0xFFFF_FFFF), -1);
}

#[test]
fn handle_goes_into_a_word_and_comes_back() {
    let h = HTREEITEM::from_ptr(0x1234);
    assert_eq!(handle_to_word(&h), 0x1234);
    assert_eq!(handle_from_word::<HTREEITEM>(0x1234), h);
    let top = HTREEITEM::from_ptr(usize::MAX);
    assert_eq!(handle_to_word(&top), -1);
    assert_eq!(handle_from_word::<HTREEITEM>(-1), top);
    assert_eq!(handle_to_word(&HWND::default()), 0);
    assert!(handle_from_word::<HWND>(0).is_null());
}

#[test]
fn zero_reply_is_an_error_or_nothing() {
    assert_eq!(zero_as_err(0, 160), Err(ERROR { code: 160 }));
    assert_eq!(zero_as_err(1, 160), Ok(1));
    assert_eq!(zero_as_err(-1, 5), Ok(-1));
    assert_eq!(zero_as_none(0), None);
    assert_eq!(zero_as_none(9), Some(9));
    assert_eq!(zero_as_none(-9), Some(-9));
}

#[test]
fn wnd_msg_new_keeps_its_parts() {
    let m = WndMsg::new(0x0110, 3, -4);
    assert_eq!(m.msg_id, 0x0110);
    assert_eq!(m.wparam, 3);
    assert_eq!(m.lparam, -4);
    assert_eq!(m, WndMsg { msg_id: 0x0110, wparam: 3, lparam: -4 });
}

#[test]
fn delete_item_message() {
    let m = DeleteItem { hitem: HTREEITEM::from_ptr(0x40) };
    assert_eq!(m.as_generic_wm(), WndMsg { msg_id: TVM_DELETEITEM, wparam: 0, lparam: 0x40 });
    assert_eq!(m.as_generic_wm().msg_id, 0x1101);
    assert_eq!(m.convert_ret(1), Ok(()));
    assert_eq!(m.convert_ret(0), Err(ERROR { code: ERROR_BAD_ARGUMENTS }));
}

#[test]
fn edit_label_message() {
    let m = EditLabel { hitem: HTREEITEM::from_ptr(0x40) };
    assert_eq!(m.as_generic_wm(), WndMsg { msg_id: TVM_EDITLABEL, wparam: 0, lparam: 0x40 });
    assert_eq!(m.as_generic_wm().msg_id, 0x1141);
    assert_eq!(m.convert_ret(0x9000), Ok(HWND::from_ptr(0x9000)));
    assert_eq!(m.convert_ret(0), Err(ERROR { code: 160 }));
}

#[test]
fn ensure_visible_message() {
    let m = EnsureVisible { hitem: HTREEITEM::from_ptr(0x40) };
    assert_eq!(m.as_generic_wm(), WndMsg { msg_id: TVM_ENSUREVISIBLE, wparam: 0, lparam: 0x40 });
    assert_eq!(m.as_generic_wm().msg_id, 0x1114);
    assert_eq!(m.convert_ret(0), 0);
    assert_eq!(m.convert_ret(1), 1);
}

#[test]
fn expand_message() {
    let m = Expand { hitem: HTREEITEM::from_ptr(0x40), action: TVE_EXPAND };
    assert_eq!(m.as_generic_wm(), WndMsg { msg_id: TVM_EXPAND, wparam: 2, lparam: 0x40 });
    let m = Expand { hitem: HTREEITEM::from_ptr(0x40), action: TVE_COLLAPSE };
    assert_eq!(m.as_generic_wm(), WndMsg { msg_id: 0x1102, wparam: 1, lparam: 0x40 });
    assert_eq!(m.convert_ret(1), Ok(()));
    assert_eq!(m.convert_ret(0), Err(ERROR { code: 160 }));
}

#[test]
fn get_item_state_message() {
    let m = GetItemState { hitem: HTREEITEM::from_ptr(0x40), mask: TVIS_EXPANDED };
    assert_eq!(m.as_generic_wm(), WndMsg { msg_id: TVM_GETITEMSTATE, wparam: 0x40, lparam: 0x20 });
    assert_eq!(m.as_generic_wm().msg_id, 0x1127);
    assert_eq!(m.convert_ret(0x62), 0x62);
    let all = GetItemState { hitem: HTREEITEM::from_ptr(1), mask: 0xFFFF_FFFF };
    assert_eq!(all.as_generic_wm().lparam, 0xFFFF_FFFFusize as isize);
}

#[test]
fn get_next_item_message() {
    let m = GetNextItem { relationship: TVGN_CHILD, hitem: Some(HTREEITEM::from_ptr(0x40)) };
    assert_eq!(m.as_generic_wm(), WndMsg { msg_id: TVM_GETNEXTITEM, wparam: 4, lparam: 0x40 });
    assert_eq!(m.as_generic_wm().msg_id, 0x110A);
    let m = GetNextItem { relationship: TVGN_NEXT, hitem: None };
    assert_eq!(m.as_generic_wm(), WndMsg { msg_id: 0x110A, wparam: 1, lparam: 0 });
    assert_eq!(m.convert_ret(0), None);
    assert_eq!(m.convert_ret(0x88), Some(HTREEITEM::from_ptr(0x88)));
}

#[test]
fn messages_that_carry_a_structure() {
    let m = InsertItem { tvinsertstruct: TVINSERTSTRUCT::default() };
    assert_eq!(m.msg_id(), TVM_INSERTITEM);
    assert_eq!(m.msg_id(), 0x1132);
    assert_eq!(m.convert_ret(0x77), Ok(HTREEITEM::from_ptr(0x77)));
    assert_eq!(m.convert_ret(0), Err(ERROR { code: 160 }));
    let m = SetItem { tvitem: TVITEMEX::default() };
    assert_eq!(m.msg_id(), TVM_SETITEM);
    assert_eq!(m.msg_id(), 0x113F);
    assert_eq!(m.convert_ret(1), Ok(()));
    assert_eq!(m.convert_ret(0), Err(ERROR { code: 160 }));
    let m = GetItem { tvitem: TVITEMEX::default() };
    assert_eq!(m.msg_id(), TVM_GETITEM);
    assert_eq!(m.msg_id(), 0x113E);
    assert_eq!(m.convert_ret(1), Ok(()));
    assert_eq!(m.convert_ret(0), Err(ERROR { code: 160 }));
}
