//! Structures that are handed to the foreign side.
use vstd::prelude::*;

use crate::co::{TVI_FIRST, TVI_LAST, TVI_ROOT, TVI_SORT};
use crate::handles::{Handle, HTREEITEM};
use crate::msg::{handle_from_word, handle_of_reply, handle_to_word, word_of_handle};
use crate::wstring::{text_of, WString};

verus! {

/// A point, in pixels.
#[derive(Clone, Copy, PartialEq, Eq, Structural, Debug)]
pub struct POINT {
    pub x: i32,
    pub y: i32,
}

impl POINT {
    /// The point with the given coordinates.
    pub fn new(x: i32, y: i32) -> (p: POINT)
        ensures
            p == (POINT { x, y }),
    {
        POINT { x, y }
    }
}

impl Default for POINT {
    /// The origin.
    fn default() -> (p: Self)
        ensures
            p == (POINT { x: 0, y: 0 }),
    {
        POINT { x: 0, y: 0 }
    }
}

/// The extent of a rectangle, in pixels.
#[derive(Clone, Copy, PartialEq, Eq, Structural, Debug)]
pub struct SIZE {
    pub cx: i32,
    pub cy: i32,
}

impl SIZE {
    /// The extent with the given width and height.
    pub fn new(cx: i32, cy: i32) -> (s: SIZE)
        ensures
            s == (SIZE { cx, cy }),
    {
        SIZE { cx, cy }
    }
}

impl Default for SIZE {
    /// The empty extent.
    fn default() -> (s: Self)
        ensures
            s == (SIZE { cx: 0, cy: 0 }),
    {
        SIZE { cx: 0, cy: 0 }
    }
}

/// The word that stands for the resource with the identifier `id` where a
/// pointer to the name of a resource is expected: the identifier itself.
pub open spec fn resource_word_of(id: u16) -> usize {
    id as usize
}

/// The identifier that a word names, where the word stands for a resource:
/// its low 16 bits.
pub open spec fn resource_id_of(word: usize) -> u16 {
    (word % 0x1_0000) as u16
}

/// Puts the identifier of a resource into the word of a pointer field.
pub fn resource_id_to_word(id: u16) -> (word: usize)
    ensures
        word == resource_word_of(id),
{
    id as usize
}

/// Reads the identifier of a resource from the word of a pointer field.
pub fn resource_id_from_word(word: usize) -> (id: u16)
    ensures
        id == resource_id_of(word),
{
    (word % 0x1_0000) as u16
}

/// The identifier of a resource that was put into a pointer field is the
/// one that is read from it.
pub proof fn lemma_resource_id_roundtrip(id: u16)
    ensures
        resource_id_of(resource_word_of(id)) == id,
{
}

/// The length that is reported for a text buffer of `n` units: `n`, or the
/// greatest length that the field for it can hold.
pub open spec fn cch_of(n: nat) -> i32 {
    if n <= i32::MAX {
        n as i32
    } else {
        i32::MAX
    }
}

/// Attributes of an item of a tree-view control.
///
/// `mask` says which of the other fields are valid. The text is held in a
/// buffer of its own, whose length is kept in `cchTextMax`.
#[derive(Debug)]
pub struct TVITEMEX {
    pub mask: u32,
    pub hItem: HTREEITEM,
    pub state: u32,
    pub stateMask: u32,
    pub pszText: Option<WString>,
    pub cchTextMax: i32,
    pub iImage: i32,
    pub iSelectedImage: i32,
    pub cChildren: i32,
    pub lParam: isize,
}

impl Default for TVITEMEX {
    /// The structure with every field zero: no attribute valid, no item, no
    /// text.
    fn default() -> (t: Self)
        ensures
            t.mask == 0,
            t.hItem == HTREEITEM::spec_from_ptr(0),
            t.state == 0,
            t.stateMask == 0,
            t.pszText is None,
            t.cchTextMax == 0,
            t.iImage == 0,
            t.iSelectedImage == 0,
            t.cChildren == 0,
            t.lParam == 0,
    {
        TVITEMEX {
            mask: 0,
            hItem: HTREEITEM::default(),
            state: 0,
            stateMask: 0,
            pszText: None,
            cchTextMax: 0,
            iImage: 0,
            iSelectedImage: 0,
            cChildren: 0,
            lParam: 0,
        }
    }
}

impl TVITEMEX {
    /// Returns the text field, if any: what its buffer holds.
    pub fn pszText(&self) -> (r: Option<String>)
        ensures
            self.pszText is None ==> r is None,
            self.pszText matches Some(buf) ==> r matches Some(s) && s@ == text_of(buf@),
    {
        match &self.pszText {
            Some(buf) => Some(buf.to_string()),
            None => None,
        }
    }

    /// Sets the text field to the buffer `buf` and the length field to the
    /// length of that buffer, or both to nothing.
    pub fn set_pszText(&mut self, buf: Option<WString>)
        ensures
            final(self).pszText == buf,
            final(self).cchTextMax == (match buf {
                Some(b) => cch_of(b@.len()),
                None => 0i32,
            }),
            final(self).mask == old(self).mask,
            final(self).hItem == old(self).hItem,
            final(self).state == old(self).state,
            final(self).stateMask == old(self).stateMask,
            final(self).iImage == old(self).iImage,
            final(self).iSelectedImage == old(self).iSelectedImage,
            final(self).cChildren == old(self).cChildren,
            final(self).lParam == old(self).lParam,
    {
        let cch: i32 = match &buf {
            Some(b) => {
                let n = b.buffer_size();
                if n <= 0x7FFF_FFFF {
                    n as i32
                } else {
                    0x7FFF_FFFF
                }
            },
            None => 0,
        };
        self.pszText = buf;
        self.cchTextMax = cch;
    }
}

/// Where a new item is put among the children of its parent: after a given
/// item, or at a place that a constant names.
#[derive(Clone, Copy, PartialEq, Eq, Structural, Debug)]
pub enum TreeitemTvi {
    /// After this item.
    Treeitem(HTREEITEM),
    /// At the place named: as a root, first, last, or in alphabetical order.
    Tvi(isize),
}

/// Whether `v` is one of the constants that name a place of insertion.
pub open spec fn is_tvi(v: isize) -> bool {
    v == TVI_ROOT || v == TVI_FIRST || v == TVI_LAST || v == TVI_SORT
}

/// The word that stands for a place of insertion.
pub open spec fn insert_after_word(place: TreeitemTvi) -> isize {
    match place {
        TreeitemTvi::Treeitem(h) => word_of_handle(h),
        TreeitemTvi::Tvi(v) => v,
    }
}

/// The place of insertion that a word stands for.
pub open spec fn insert_after_of(v: isize) -> TreeitemTvi {
    if is_tvi(v) {
        TreeitemTvi::Tvi(v)
    } else {
        TreeitemTvi::Treeitem(handle_of_reply::<HTREEITEM>(v))
    }
}

/// What is needed to insert an item into a tree-view control: the parent,
/// the place among its children, and the attributes of the new item.
#[derive(Debug)]
pub struct TVINSERTSTRUCT {
    pub hParent: HTREEITEM,
    pub hInsertAfter: isize,
    pub itemex: TVITEMEX,
}

impl Default for TVINSERTSTRUCT {
    /// The structure with every field zero.
    fn default() -> (t: Self)
        ensures
            t.hParent == HTREEITEM::spec_from_ptr(0),
            t.hInsertAfter == 0,
            t.itemex.mask == 0,
            t.itemex.hItem == HTREEITEM::spec_from_ptr(0),
            t.itemex.pszText is None,
            t.itemex.cchTextMax == 0,
            t.itemex.iImage == 0,
    {
        TVINSERTSTRUCT { hParent: HTREEITEM::default(), hInsertAfter: 0, itemex: TVITEMEX::default() }
    }
}

impl TVINSERTSTRUCT {
    /// Returns the place of insertion.
    pub fn hInsertAfter(&self) -> (place: TreeitemTvi)
        ensures
            place == insert_after_of(self.hInsertAfter),
    {
        let v = self.hInsertAfter;
        if v == TVI_ROOT || v == TVI_FIRST || v == TVI_LAST || v == TVI_SORT {
            TreeitemTvi::Tvi(v)
        } else {
            TreeitemTvi::Treeitem(handle_from_word::<HTREEITEM>(v))
        }
    }

    /// Sets the place of insertion.
    pub fn set_hInsertAfter(&mut self, place: TreeitemTvi)
        ensures
            final(self).hInsertAfter == insert_after_word(place),
            final(self).hParent == old(self).hParent,
            final(self).itemex == old(self).itemex,
    {
        self.hInsertAfter = match place {
            TreeitemTvi::Treeitem(h) => handle_to_word(&h),
            TreeitemTvi::Tvi(v) => v,
        };
    }
}

/// A place of insertion that was set is the one that is read back, unless
/// it is an item whose handle is the same word as a constant, or a value
/// that is none of the constants.
pub proof fn lemma_insert_after_roundtrip(place: TreeitemTvi)
    requires
        place matches TreeitemTvi::Tvi(v) ==> is_tvi(v),
        place matches TreeitemTvi::Treeitem(h) ==> !is_tvi(word_of_handle(h)),
    ensures
        insert_after_of(insert_after_word(place)) == place,
{
    if let TreeitemTvi::Treeitem(h) = place {
        crate::msg::lemma_handle_word_roundtrip(h);
    }
}

} // verus!
