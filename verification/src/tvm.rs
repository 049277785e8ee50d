//! The messages of a tree-view control.
use vstd::prelude::*;

use crate::co::{
    ERROR_BAD_ARGUMENTS, TVM_DELETEITEM, TVM_EDITLABEL, TVM_ENSUREVISIBLE, TVM_EXPAND, TVM_GETITEM,
    TVM_GETITEMSTATE, TVM_GETNEXTITEM, TVM_INSERTITEM, TVM_SETITEM,
};
use crate::handles::{Handle, HTREEITEM, HWND};
use crate::msg::{
    handle_from_word, handle_of_reply, handle_to_word, low_dword, low_dword_of, signed_of,
    to_signed, word_of_handle, zero_as_err, zero_as_none, MsgSend, SysResult, WndMsg, ERROR,
};
use crate::structs::{TVINSERTSTRUCT, TVITEMEX};

verus! {

/// What a reply means to a message that answers zero when it failed and
/// has nothing else to say.
pub open spec fn unit_or_err(v: isize) -> SysResult<()> {
    if v == 0 {
        Err(ERROR { code: ERROR_BAD_ARGUMENTS })
    } else {
        Ok(())
    }
}

/// What a reply means to a message that answers with a handle, or with zero
/// when it failed.
pub open spec fn handle_or_err<H: Handle>(v: isize) -> SysResult<H> {
    if v == 0 {
        Err(ERROR { code: ERROR_BAD_ARGUMENTS })
    } else {
        Ok(handle_of_reply::<H>(v))
    }
}

/// What a reply means to a message that answers with a handle, or with zero
/// when there is none.
pub open spec fn handle_or_none<H: Handle>(v: isize) -> Option<H> {
    if v == 0 {
        None
    } else {
        Some(handle_of_reply::<H>(v))
    }
}

pub(crate) fn read_unit_or_err(v: isize) -> (r: SysResult<()>)
    ensures
        r == unit_or_err(v),
{
    match zero_as_err(v, ERROR_BAD_ARGUMENTS) {
        Ok(_) => Ok(()),
        Err(e) => Err(e),
    }
}

pub(crate) fn read_handle_or_err<H: Handle>(v: isize) -> (r: SysResult<H>)
    ensures
        r == handle_or_err::<H>(v),
{
    match zero_as_err(v, ERROR_BAD_ARGUMENTS) {
        Ok(word) => Ok(handle_from_word::<H>(word)),
        Err(e) => Err(e),
    }
}

pub(crate) fn read_handle_or_none<H: Handle>(v: isize) -> (r: Option<H>)
    ensures
        r == handle_or_none::<H>(v),
{
    match zero_as_none(v) {
        Some(word) => Some(handle_from_word::<H>(word)),
        None => None,
    }
}

/// Deletes an item and all its children.
#[derive(Clone, Copy, PartialEq, Eq, Structural, Debug)]
pub struct DeleteItem {
    pub hitem: HTREEITEM,
}

impl MsgSend for DeleteItem {
    type RetType = SysResult<()>;

    open spec fn generic_wm(&self) -> WndMsg {
        WndMsg { msg_id: TVM_DELETEITEM, wparam: 0, lparam: word_of_handle(self.hitem) }
    }

    open spec fn ret_of(&self, v: isize) -> SysResult<()> {
        unit_or_err(v)
    }

    fn convert_ret(&self, v: isize) -> (r: SysResult<()>) {
        read_unit_or_err(v)
    }

    fn as_generic_wm(&self) -> (m: WndMsg) {
        WndMsg { msg_id: TVM_DELETEITEM, wparam: 0, lparam: handle_to_word(&self.hitem) }
    }
}

/// Begins editing the text of an item in place. The reply is the handle of
/// the edit control.
#[derive(Clone, Copy, PartialEq, Eq, Structural, Debug)]
pub struct EditLabel {
    pub hitem: HTREEITEM,
}

impl MsgSend for EditLabel {
    type RetType = SysResult<HWND>;

    open spec fn generic_wm(&self) -> WndMsg {
        WndMsg { msg_id: TVM_EDITLABEL, wparam: 0, lparam: word_of_handle(self.hitem) }
    }

    open spec fn ret_of(&self, v: isize) -> SysResult<HWND> {
        handle_or_err::<HWND>(v)
    }

    fn convert_ret(&self, v: isize) -> (r: SysResult<HWND>) {
        read_handle_or_err::<HWND>(v)
    }

    fn as_generic_wm(&self) -> (m: WndMsg) {
        WndMsg { msg_id: TVM_EDITLABEL, wparam: 0, lparam: handle_to_word(&self.hitem) }
    }
}

/// Makes an item visible, expanding its parent or scrolling the control
/// where that is needed. The reply is not zero where the control scrolled
/// and expanded nothing.
#[derive(Clone, Copy, PartialEq, Eq, Structural, Debug)]
pub struct EnsureVisible {
    pub hitem: HTREEITEM,
}

impl MsgSend for EnsureVisible {
    type RetType = u32;

    open spec fn generic_wm(&self) -> WndMsg {
        WndMsg { msg_id: TVM_ENSUREVISIBLE, wparam: 0, lparam: word_of_handle(self.hitem) }
    }

    open spec fn ret_of(&self, v: isize) -> u32 {
        low_dword_of(v)
    }

    fn convert_ret(&self, v: isize) -> (r: u32) {
        low_dword(v)
    }

    fn as_generic_wm(&self) -> (m: WndMsg) {
        WndMsg { msg_id: TVM_ENSUREVISIBLE, wparam: 0, lparam: handle_to_word(&self.hitem) }
    }
}

/// Expands or collapses the list of children of an item, as `action` says.
#[derive(Clone, Copy, PartialEq, Eq, Structural, Debug)]
pub struct Expand {
    pub hitem: HTREEITEM,
    pub action: u32,
}

impl MsgSend for Expand {
    type RetType = SysResult<()>;

    open spec fn generic_wm(&self) -> WndMsg {
        WndMsg {
            msg_id: TVM_EXPAND,
            wparam: self.action as usize,
            lparam: word_of_handle(self.hitem),
        }
    }

    open spec fn ret_of(&self, v: isize) -> SysResult<()> {
        unit_or_err(v)
    }

    fn convert_ret(&self, v: isize) -> (r: SysResult<()>) {
        read_unit_or_err(v)
    }

    fn as_generic_wm(&self) -> (m: WndMsg) {
        WndMsg {
            msg_id: TVM_EXPAND,
            wparam: self.action as usize,
            lparam: handle_to_word(&self.hitem),
        }
    }
}

/// Retrieves those states of an item that `mask` names. The reply holds
/// the states that are set.
#[derive(Clone, Copy, PartialEq, Eq, Structural, Debug)]
pub struct GetItemState {
    pub hitem: HTREEITEM,
    pub mask: u32,
}

impl MsgSend for GetItemState {
    type RetType = u32;

    open spec fn generic_wm(&self) -> WndMsg {
        WndMsg {
            msg_id: TVM_GETITEMSTATE,
            wparam: self.hitem.raw(),
            lparam: signed_of(self.mask as usize) as isize,
        }
    }

    open spec fn ret_of(&self, v: isize) -> u32 {
        low_dword_of(v)
    }

    fn convert_ret(&self, v: isize) -> (r: u32) {
        low_dword(v)
    }

    fn as_generic_wm(&self) -> (m: WndMsg) {
        WndMsg {
            msg_id: TVM_GETITEMSTATE,
            wparam: self.hitem.as_ptr(),
            lparam: to_signed(self.mask as usize),
        }
    }
}

/// Retrieves the item that stands in the given relationship to `hitem`.
/// The reply is that item, or zero where there is none.
#[derive(Clone, Copy, PartialEq, Eq, Structural, Debug)]
pub struct GetNextItem {
    pub relationship: u32,
    pub hitem: Option<HTREEITEM>,
}

impl MsgSend for GetNextItem {
    type RetType = Option<HTREEITEM>;

    open spec fn generic_wm(&self) -> WndMsg {
        WndMsg {
            msg_id: TVM_GETNEXTITEM,
            wparam: self.relationship as usize,
            lparam: match self.hitem {
                Some(h) => word_of_handle(h),
                None => 0,
            },
        }
    }

    open spec fn ret_of(&self, v: isize) -> Option<HTREEITEM> {
        handle_or_none::<HTREEITEM>(v)
    }

    fn convert_ret(&self, v: isize) -> (r: Option<HTREEITEM>) {
        read_handle_or_none::<HTREEITEM>(v)
    }

    fn as_generic_wm(&self) -> (m: WndMsg) {
        WndMsg {
            msg_id: TVM_GETNEXTITEM,
            wparam: self.relationship as usize,
            lparam: match &self.hitem {
                Some(h) => handle_to_word(h),
                None => 0,
            },
        }
    }
}

/// Inserts an item. The second parameter of the message is the address of
/// the structure, which only the sender knows. The reply is the new item.
#[derive(Debug)]
pub struct InsertItem {
    pub tvinsertstruct: TVINSERTSTRUCT,
}

impl InsertItem {
    /// The identifier of the message.
    pub fn msg_id(&self) -> (id: u32)
        ensures
            id == TVM_INSERTITEM,
    {
        TVM_INSERTITEM
    }

    /// Reads the reply word.
    pub fn convert_ret(&self, v: isize) -> (r: SysResult<HTREEITEM>)
        ensures
            r == handle_or_err::<HTREEITEM>(v),
    {
        read_handle_or_err::<HTREEITEM>(v)
    }
}

/// Sets those attributes of an item that the mask of the structure names.
/// The second parameter of the message is the address of the structure.
#[derive(Debug)]
pub struct SetItem {
    pub tvitem: TVITEMEX,
}

impl SetItem {
    /// The identifier of the message.
    pub fn msg_id(&self) -> (id: u32)
        ensures
            id == TVM_SETITEM,
    {
        TVM_SETITEM
    }

    /// Reads the reply word.
    pub fn convert_ret(&self, v: isize) -> (r: SysResult<()>)
        ensures
            r == unit_or_err(v),
    {
        read_unit_or_err(v)
    }
}

/// Retrieves those attributes of an item that the mask of the structure
/// names; the window writes them into the structure. The second parameter
/// of the message is the address of the structure.
#[derive(Debug)]
pub struct GetItem {
    pub tvitem: TVITEMEX,
}

impl GetItem {
    /// The identifier of the message.
    pub fn msg_id(&self) -> (id: u32)
        ensures
            id == TVM_GETITEM,
    {
        TVM_GETITEM
    }

    /// Reads the reply word.
    pub fn convert_ret(&self, v: isize) -> (r: SysResult<()>)
        ensures
            r == unit_or_err(v),
    {
        read_unit_or_err(v)
    }
}

} // verus!
