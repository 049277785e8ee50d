//! A single item of a tree-view control.
//!
//! Every operation on an item is a message to the window of the control.
//! The item builds the message; where the reply needs more reading than the
//! message itself gives it, the item has a second method for that, named
//! after the first.
use vstd::prelude::*;

use crate::co::{
    MAX_PATH, TVE_COLLAPSE, TVE_EXPAND, TVGN_NEXT, TVGN_PARENT, TVGN_PREVIOUS, TVIF_IMAGE,
    TVIF_TEXT, TVIS_EXPANDED, TVI_LAST,
};
use crate::gui::tree_view::TreeView;
use crate::gui::tree_view_items::{TreeViewChildItemIter, TreeViewItemIter};
use crate::handles::{Handle, HTREEITEM};
use crate::msg::{dword_as_signed, dword_to_signed, low_dword_of, MsgSend, SysResult, ERROR};
use crate::structs::{cch_of, TreeitemTvi, TVINSERTSTRUCT, TVITEMEX};
use crate::tvm::{
    handle_or_err, handle_or_none, read_handle_or_err, read_unit_or_err, unit_or_err, DeleteItem, EditLabel, EnsureVisible, Expand,
    GetItem, GetItemState, GetNextItem, InsertItem, SetItem,
};
use crate::wstring::{text_of, wide_of, WString};

verus! {

/// The number of units of the buffer that the text of an item is read
/// into.
pub const TEXT_BUFFER_LEN: usize = MAX_PATH + 1;

/// A single item of a tree-view control: the control it belongs to and the
/// handle that the control knows it by.
#[derive(Debug)]
pub struct TreeViewItem<'a> {
    owner: &'a TreeView,
    hitem: HTREEITEM,
}

impl<'a> TreeViewItem<'a> {
    /// The control that the item belongs to.
    pub closed spec fn spec_owner(&self) -> &'a TreeView {
        self.owner
    }

    /// The handle of the item.
    pub closed spec fn spec_hitem(&self) -> HTREEITEM {
        self.hitem
    }

    /// The item of `owner` with the handle `hitem`.
    pub fn new(owner: &'a TreeView, hitem: HTREEITEM) -> (item: Self)
        ensures
            item.spec_owner() == owner,
            item.spec_hitem() == hitem,
    {
        Self { owner, hitem }
    }

    /// Another value for the same item.
    pub fn raw_clone(&self) -> (item: Self)
        ensures
            item == *self,
    {
        Self { owner: self.owner, hitem: self.hitem }
    }

    /// The control that the item belongs to, to whose window its messages
    /// go.
    pub fn owner(&self) -> (tv: &'a TreeView)
        ensures
            tv == self.spec_owner(),
    {
        self.owner
    }

    /// Returns the underlying handle of the item.
    pub fn htreeitem(&self) -> (h: &HTREEITEM)
        ensures
            *h == self.spec_hitem(),
    {
        &self.hitem
    }

    /// The message that adds a new child item with the given text, and the
    /// given image if any, after the children that are there.
    pub fn add_child(&self, text: &str, icon_index: Option<u32>) -> (m: InsertItem)
        ensures
            m.tvinsertstruct.hParent == self.spec_hitem(),
            m.tvinsertstruct.hInsertAfter == TVI_LAST,
            m.tvinsertstruct.itemex.mask == (match icon_index {
                Some(_) => TVIF_TEXT | TVIF_IMAGE,
                None => TVIF_TEXT,
            }),
            m.tvinsertstruct.itemex.iImage == (match icon_index {
                Some(i) => dword_as_signed(i),
                None => 0i32,
            }),
            m.tvinsertstruct.itemex.pszText matches Some(buf) && buf@ == wide_of(text@),
            m.tvinsertstruct.itemex.cchTextMax == cch_of(wide_of(text@).len()),
            m.tvinsertstruct.itemex.hItem == HTREEITEM::spec_from_ptr(0),
            m.tvinsertstruct.itemex.state == 0,
            m.tvinsertstruct.itemex.stateMask == 0,
            m.tvinsertstruct.itemex.iSelectedImage == 0,
            m.tvinsertstruct.itemex.cChildren == 0,
            m.tvinsertstruct.itemex.lParam == 0,
    {
        let buf = WString::from_str(text);

        let mut tvix = TVITEMEX::default();
        tvix.mask = TVIF_TEXT;
        if let Some(icon_index) = icon_index {
            tvix.mask = tvix.mask | TVIF_IMAGE;
            tvix.iImage = dword_to_signed(icon_index);
        }
        tvix.set_pszText(Some(buf));

        let mut tvis = TVINSERTSTRUCT::default();
        tvis.hParent = self.hitem;
        tvis.set_hInsertAfter(TreeitemTvi::Tvi(TVI_LAST));
        tvis.itemex = tvix;

        InsertItem { tvinsertstruct: tvis }
    }

    /// Reads the reply to the message of `add_child`: the newly added item,
    /// or the failure.
    pub fn add_child_reply(&self, v: isize) -> (r: SysResult<TreeViewItem<'a>>)
        ensures
            r is Ok <==> handle_or_err::<HTREEITEM>(v) is Ok,
            r matches Err(e) ==> handle_or_err::<HTREEITEM>(v) == Err::<HTREEITEM, ERROR>(e),
            r matches Ok(item) ==> handle_or_err::<HTREEITEM>(v) == Ok::<HTREEITEM, ERROR>(
                item.spec_hitem(),
            ) && item.spec_owner() == self.spec_owner(),
    {
        match read_handle_or_err::<HTREEITEM>(v) {
            Ok(hitem) => Ok(Self::new(self.owner, hitem)),
            Err(e) => Err(e),
        }
    }

    /// The message that deletes the item.
    pub fn delete(&self) -> (m: DeleteItem)
        ensures
            m == (DeleteItem { hitem: self.spec_hitem() }),
    {
        DeleteItem { hitem: self.hitem }
    }

    /// The message that begins in-place editing of the item's text. Its
    /// reply is the handle of the edit control.
    pub fn edit_label(&self) -> (m: EditLabel)
        ensures
            m == (EditLabel { hitem: self.spec_hitem() }),
    {
        EditLabel { hitem: self.hitem }
    }

    /// The message that makes the item visible, expanding the parent item
    /// or scrolling the control where that is needed.
    pub fn ensure_visible(&self) -> (m: EnsureVisible)
        ensures
            m == (EnsureVisible { hitem: self.spec_hitem() }),
    {
        EnsureVisible { hitem: self.hitem }
    }

    /// Reads the reply to the message of `ensure_visible`: whether the
    /// control scrolled and no items were expanded.
    pub fn ensure_visible_reply(&self, v: isize) -> (b: bool)
        ensures
            b == (low_dword_of(v) != 0),
    {
        self.ensure_visible().convert_ret(v) != 0
    }

    /// The message that expands the item, or collapses it.
    pub fn expand(&self, expand: bool) -> (m: Expand)
        ensures
            m == (Expand {
                hitem: self.spec_hitem(),
                action: if expand {
                    TVE_EXPAND
                } else {
                    TVE_COLLAPSE
                },
            }),
    {
        Expand { hitem: self.hitem, action: if expand { TVE_EXPAND } else { TVE_COLLAPSE } }
    }

    /// The message that asks whether the item is expanded.
    pub fn is_expanded(&self) -> (m: GetItemState)
        ensures
            m == (GetItemState { hitem: self.spec_hitem(), mask: TVIS_EXPANDED }),
    {
        GetItemState { hitem: self.hitem, mask: TVIS_EXPANDED }
    }

    /// Reads the reply to the message of `is_expanded`: whether the item is
    /// expanded.
    pub fn is_expanded_reply(&self, v: isize) -> (b: bool)
        ensures
            b == (low_dword_of(v) & TVIS_EXPANDED != 0),
    {
        self.is_expanded().convert_ret(v) & TVIS_EXPANDED != 0
    }

    /// The message that asks for the parent of the item; an item is a root
    /// when it has none.
    pub fn is_root(&self) -> (m: GetNextItem)
        ensures
            m == (GetNextItem { relationship: TVGN_PARENT, hitem: Some(self.spec_hitem()) }),
    {
        self.parent()
    }

    /// Reads the reply to the message of `is_root`: whether the item is a
    /// root.
    pub fn is_root_reply(&self, v: isize) -> (b: bool)
        ensures
            b == (handle_or_none::<HTREEITEM>(v) is None),
            b == (v == 0),
    {
        self.parent_reply(v).is_none()
    }

    /// A cursor over the child items, from the first on.
    pub fn iter_children(&self) -> (it: TreeViewChildItemIter<'a>)
        ensures
            it.spec_owner() == self.spec_owner(),
            it.current() == Some(self.spec_hitem()),
            it.first_call(),
    {
        TreeViewChildItemIter::new(self.owner, Some(self.raw_clone()))
    }

    /// A cursor over the sibling items that follow this one.
    pub fn iter_next_siblings(&self) -> (it: TreeViewItemIter<'a>)
        ensures
            it.spec_owner() == self.spec_owner(),
            it.current() == Some(self.spec_hitem()),
            it.relationship() == TVGN_NEXT,
    {
        TreeViewItemIter::new(self.owner, Some(self.raw_clone()), TVGN_NEXT)
    }

    /// A cursor over the sibling items that precede this one, the nearest
    /// first.
    pub fn iter_prev_siblings(&self) -> (it: TreeViewItemIter<'a>)
        ensures
            it.spec_owner() == self.spec_owner(),
            it.current() == Some(self.spec_hitem()),
            it.relationship() == TVGN_PREVIOUS,
    {
        TreeViewItemIter::new(self.owner, Some(self.raw_clone()), TVGN_PREVIOUS)
    }

    /// The message that asks for the parent of the item.
    pub fn parent(&self) -> (m: GetNextItem)
        ensures
            m == (GetNextItem { relationship: TVGN_PARENT, hitem: Some(self.spec_hitem()) }),
    {
        GetNextItem { relationship: TVGN_PARENT, hitem: Some(self.hitem) }
    }

    /// Reads the reply to the message of `parent`: the parent, or nothing
    /// for a root.
    pub fn parent_reply(&self, v: isize) -> (r: Option<TreeViewItem<'a>>)
        ensures
            handle_or_none::<HTREEITEM>(v) is None <==> r is None,
            v == 0 <==> r is None,
            r matches Some(item) ==> Some(item.spec_hitem()) == handle_or_none::<HTREEITEM>(v)
                && item.spec_owner() == self.spec_owner(),
    {
        match self.parent().convert_ret(v) {
            Some(hitem) => Some(Self::new(self.owner, hitem)),
            None => None,
        }
    }

    /// The message that sets the text of the item.
    pub fn set_text(&self, text: &str) -> (m: SetItem)
        ensures
            m.tvitem.hItem == self.spec_hitem(),
            m.tvitem.mask == TVIF_TEXT,
            m.tvitem.pszText matches Some(buf) && buf@ == wide_of(text@),
            m.tvitem.cchTextMax == cch_of(wide_of(text@).len()),
            m.tvitem.state == 0,
            m.tvitem.stateMask == 0,
            m.tvitem.iImage == 0,
            m.tvitem.iSelectedImage == 0,
            m.tvitem.cChildren == 0,
            m.tvitem.lParam == 0,
    {
        let buf = WString::from_str(text);

        let mut tvi = TVITEMEX::default();
        tvi.hItem = self.hitem;
        tvi.mask = TVIF_TEXT;
        tvi.set_pszText(Some(buf));

        SetItem { tvitem: tvi }
    }

    /// The message that retrieves the text of the item, with an empty
    /// buffer for the window to write the text into.
    pub fn text(&self) -> (m: GetItem)
        ensures
            m.tvitem.hItem == self.spec_hitem(),
            m.tvitem.mask == TVIF_TEXT,
            m.tvitem.pszText matches Some(buf) && buf@ == Seq::new(
                TEXT_BUFFER_LEN as nat,
                |i: int| 0u16,
            ),
            m.tvitem.cchTextMax == TEXT_BUFFER_LEN,
            m.tvitem.state == 0,
            m.tvitem.stateMask == 0,
            m.tvitem.iImage == 0,
            m.tvitem.iSelectedImage == 0,
            m.tvitem.cChildren == 0,
            m.tvitem.lParam == 0,
    {
        let mut tvi = TVITEMEX::default();
        tvi.hItem = self.hitem;
        tvi.mask = TVIF_TEXT;

        let buf = WString::new_alloc_buf(MAX_PATH + 1);
        assert(buf@ =~= Seq::new(TEXT_BUFFER_LEN as nat, |i: int| 0u16));
        tvi.set_pszText(Some(buf));

        GetItem { tvitem: tvi }
    }

    /// Reads the reply to the message of `text`, where `filled` is the
    /// structure of that message after the window has written to it: the
    /// text that the buffer holds, or the failure.
    pub fn text_reply(&self, v: isize, filled: &TVITEMEX) -> (r: SysResult<String>)
        ensures
            r is Ok <==> unit_or_err(v) is Ok,
            r matches Err(e) ==> unit_or_err(v) == Err::<(), ERROR>(e),
            r matches Ok(s) ==> s@ == (match filled.pszText {
                Some(buf) => text_of(buf@),
                None => Seq::<char>::empty(),
            }),
    {
        match read_unit_or_err(v) {
            Ok(_) => match &filled.pszText {
                Some(buf) => Ok(buf.to_string()),
                None => Ok(String::new()),
            },
            Err(e) => Err(e),
        }
    }
}

} // verus!
