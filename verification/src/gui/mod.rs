//! Windows and controls: what a control asks of its window, and how it comes
//! to life under its parent.

pub mod base;
pub mod dlg_control;
pub mod msg_error;
pub mod privs;
pub mod tree_view;
pub mod tree_view_item;
pub mod tree_view_items;
