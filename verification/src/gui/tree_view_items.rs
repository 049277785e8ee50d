//! Cursors over the items of a tree-view control.
//!
//! A cursor walks a chain of items by asking the window, at each step, for
//! the item that follows the one it stands on. It says which message is to
//! be sent next, and moves on when it is told the reply.
use vstd::prelude::*;

use crate::co::{TVGN_CHILD, TVGN_NEXT};
use crate::gui::tree_view::TreeView;
use crate::gui::tree_view_item::TreeViewItem;
use crate::handles::HTREEITEM;
use crate::tvm::{handle_or_none, read_handle_or_none, GetNextItem};

verus! {

/// A cursor that follows one relationship from item to item: to the next
/// sibling, or to the previous one.
#[derive(Debug)]
pub struct TreeViewItemIter<'a> {
    owner: &'a TreeView,
    current: Option<HTREEITEM>,
    relationship: u32,
}

impl<'a> TreeViewItemIter<'a> {
    /// The control whose items the cursor walks.
    pub closed spec fn spec_owner(&self) -> &'a TreeView {
        self.owner
    }

    /// The item that the cursor stands on; `None` when the chain has ended.
    pub closed spec fn current(&self) -> Option<HTREEITEM> {
        self.current
    }

    /// The relationship that the cursor follows.
    pub closed spec fn relationship(&self) -> u32 {
        self.relationship
    }

    /// A cursor that stands on `current` and follows `relationship`.
    pub fn new(owner: &'a TreeView, current: Option<TreeViewItem<'a>>, relationship: u32) -> (it:
        Self)
        ensures
            it.spec_owner() == owner,
            it.relationship() == relationship,
            it.current() == (match current {
                Some(item) => Some(item.spec_hitem()),
                None => None,
            }),
    {
        let current = match current {
            Some(item) => Some(*item.htreeitem()),
            None => None,
        };
        Self { owner, current, relationship }
    }

    /// The message that asks for the item after the one the cursor stands
    /// on; `None` when the chain has ended and there is nothing to ask.
    pub fn next_msg(&self) -> (m: Option<GetNextItem>)
        ensures
            m == (match self.current() {
                Some(h) => Some(GetNextItem { relationship: self.relationship(), hitem: Some(h) }),
                None => None,
            }),
    {
        match self.current {
            Some(h) => Some(GetNextItem { relationship: self.relationship, hitem: Some(h) }),
            None => None,
        }
    }

    /// Moves on, given the reply `v` to the message of `next_msg`: the
    /// cursor then stands on the item that the reply names, which is
    /// returned, or, if the reply names none, the chain has ended. A cursor
    /// whose chain has ended stays so, whatever it is told.
    pub fn next(&mut self, v: isize) -> (r: Option<TreeViewItem<'a>>)
        ensures
            final(self).spec_owner() == old(self).spec_owner(),
            final(self).relationship() == old(self).relationship(),
            final(self).current() == (match old(self).current() {
                Some(_) => handle_or_none::<HTREEITEM>(v),
                None => None,
            }),
            r is Some <==> final(self).current() is Some,
            r matches Some(item) ==> Some(item.spec_hitem()) == final(self).current()
                && item.spec_owner() == old(self).spec_owner(),
    {
        self.current = match self.current {
            Some(_) => read_handle_or_none::<HTREEITEM>(v),
            None => None,
        };
        match self.current {
            Some(h) => Some(TreeViewItem::new(self.owner, h)),
            None => None,
        }
    }
}

/// A cursor over the children of an item: it first asks for the first
/// child of the item it was made for, then for the next sibling of the
/// child it stands on.
#[derive(Debug)]
pub struct TreeViewChildItemIter<'a> {
    owner: &'a TreeView,
    current: Option<HTREEITEM>,
    first_call: bool,
}

impl<'a> TreeViewChildItemIter<'a> {
    /// The control whose items the cursor walks.
    pub closed spec fn spec_owner(&self) -> &'a TreeView {
        self.owner
    }

    /// The item that the cursor stands on: the parent before the first
    /// step, then a child; `None` when the children have ended.
    pub closed spec fn current(&self) -> Option<HTREEITEM> {
        self.current
    }

    /// Whether the cursor has not moved yet.
    pub closed spec fn first_call(&self) -> bool {
        self.first_call
    }

    /// The relationship that the next message asks for.
    pub open spec fn relationship(&self) -> u32 {
        if self.first_call() {
            TVGN_CHILD
        } else {
            TVGN_NEXT
        }
    }

    /// A cursor over the children of `current`.
    pub fn new(owner: &'a TreeView, current: Option<TreeViewItem<'a>>) -> (it: Self)
        ensures
            it.spec_owner() == owner,
            it.first_call(),
            it.current() == (match current {
                Some(item) => Some(item.spec_hitem()),
                None => None,
            }),
    {
        let current = match current {
            Some(item) => Some(*item.htreeitem()),
            None => None,
        };
        Self { owner, current, first_call: true }
    }

    /// The message that asks for the next child; `None` when the children
    /// have ended and there is nothing to ask.
    pub fn next_msg(&self) -> (m: Option<GetNextItem>)
        ensures
            m == (match self.current() {
                Some(h) => Some(GetNextItem { relationship: self.relationship(), hitem: Some(h) }),
                None => None,
            }),
    {
        match self.current {
            Some(h) => Some(
                GetNextItem {
                    relationship: if self.first_call {
                        TVGN_CHILD
                    } else {
                        TVGN_NEXT
                    },
                    hitem: Some(h),
                },
            ),
            None => None,
        }
    }

    /// Moves on, given the reply `v` to the message of `next_msg`: the
    /// cursor then stands on the child that the reply names, which is
    /// returned, or, if the reply names none, the children have ended. A
    /// cursor whose children have ended stays so, whatever it is told.
    pub fn next(&mut self, v: isize) -> (r: Option<TreeViewItem<'a>>)
        ensures
            final(self).spec_owner() == old(self).spec_owner(),
            !final(self).first_call(),
            final(self).current() == (match old(self).current() {
                Some(_) => handle_or_none::<HTREEITEM>(v),
                None => None,
            }),
            r is Some <==> final(self).current() is Some,
            r matches Some(item) ==> Some(item.spec_hitem()) == final(self).current()
                && item.spec_owner() == old(self).spec_owner(),
    {
        self.first_call = false;
        self.current = match self.current {
            Some(_) => read_handle_or_none::<HTREEITEM>(v),
            None => None,
        };
        match self.current {
            Some(h) => Some(TreeViewItem::new(self.owner, h)),
            None => None,
        }
    }
}

} // verus!
