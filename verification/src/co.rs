//! Constants of the foreign interfaces, grouped by the prefix of their family.
use vstd::prelude::*;

verus! {

/// Status code of a call that succeeded.
pub const S_OK: u32 = 0;

/// Status code: unspecified failure.
pub const E_FAIL: u32 = 0x8000_4005;

/// Status code: the interface is not supported.
pub const E_NOINTERFACE: u32 = 0x8000_4002;

/// Status code: a pointer that was handed over is not valid.
pub const E_POINTER: u32 = 0x8000_4003;

/// Status code: a filter with the name asked for was not found.
pub const VFW_E_NOT_FOUND: u32 = 0x8004_0216;

/// System error code: the arguments of a call were not accepted.
pub const ERROR_BAD_ARGUMENTS: u32 = 160;

/// Window message: a window is being created.
pub const WM_CREATE: u32 = 0x0001;

/// Window message: the frame of a window has to be painted.
pub const WM_NCPAINT: u32 = 0x0085;

/// Window message: a dialog is being created.
pub const WM_INITDIALOG: u32 = 0x0110;

/// Window message: the first of those that an application defines for
/// itself.
pub const WM_APP: u32 = 0x8000;

/// Tree-view message: delete an item.
pub const TVM_DELETEITEM: u32 = 0x1101;

/// Tree-view message: expand or collapse an item.
pub const TVM_EXPAND: u32 = 0x1102;

/// Tree-view message: retrieve the item that stands in a relationship to
/// another.
pub const TVM_GETNEXTITEM: u32 = 0x110A;

/// Tree-view message: make an item visible.
pub const TVM_ENSUREVISIBLE: u32 = 0x1114;

/// Tree-view message: retrieve the state of an item.
pub const TVM_GETITEMSTATE: u32 = 0x1127;

/// Tree-view message: insert an item.
pub const TVM_INSERTITEM: u32 = 0x1132;

/// Tree-view message: retrieve attributes of an item.
pub const TVM_GETITEM: u32 = 0x113E;

/// Tree-view message: set attributes of an item.
pub const TVM_SETITEM: u32 = 0x113F;

/// Tree-view message: begin editing the text of an item in place.
pub const TVM_EDITLABEL: u32 = 0x1141;

/// Item attribute mask: the text is valid.
pub const TVIF_TEXT: u32 = 0x0001;

/// Item attribute mask: the image index is valid.
pub const TVIF_IMAGE: u32 = 0x0002;

/// Expansion action: collapse the item.
pub const TVE_COLLAPSE: u32 = 0x0001;

/// Expansion action: expand the item.
pub const TVE_EXPAND: u32 = 0x0002;

/// Relationship: the item that follows, on the same level.
pub const TVGN_NEXT: u32 = 0x0001;

/// Relationship: the item that precedes, on the same level.
pub const TVGN_PREVIOUS: u32 = 0x0002;

/// Relationship: the item one level up.
pub const TVGN_PARENT: u32 = 0x0003;

/// Relationship: the first item one level down.
pub const TVGN_CHILD: u32 = 0x0004;

/// Item state: the item is expanded.
pub const TVIS_EXPANDED: u32 = 0x0020;

/// Insertion place: as a root of the tree.
pub const TVI_ROOT: isize = -0x1_0000;

/// Insertion place: at the start of the list of children.
pub const TVI_FIRST: isize = -0xFFFF;

/// Insertion place: at the end of the list of children.
pub const TVI_LAST: isize = -0xFFFE;

/// Insertion place: in alphabetical order among the children.
pub const TVI_SORT: isize = -0xFFFD;

/// Positioning flag: keep the current size.
pub const SWP_NOSIZE: u32 = 0x0001;

/// Positioning flag: keep the current place in the stacking order.
pub const SWP_NOZORDER: u32 = 0x0004;

/// Index of the window attribute that holds the identifier of a control.
pub const GWLP_ID: i32 = -12;

/// Greatest length of a path, in characters.
pub const MAX_PATH: usize = 260;

} // verus!
