//! A control made from a dialog resource, and how it comes to life under its
//! parent.
//!
//! The window of such a control is not created when the control is
//! described, but when the parent is: the parent's creation message sets off
//! a fixed sequence of calls to the operating system. The control decides
//! what is to be done next; the embedding program does it and reports back.
use vstd::prelude::*;

use crate::co::{GWLP_ID, SWP_NOSIZE, SWP_NOZORDER, WM_NCPAINT};
use crate::gui::base::{creation_wm_of, is_ui_thread_msg, Base, ErrResult, UiThreadCall};
use crate::gui::privs::{count_after, multiply_dpi, multiply_dpi_spec, next_ctrl_id, CtrlIds};
use crate::handles::{Handle, HWND};
use crate::msg::{WndMsg, ERROR};
use crate::structs::{POINT, SIZE};

verus! {

/// How far a control has come on its way to a working window.
#[derive(Clone, Copy, PartialEq, Eq, Structural, Debug)]
pub enum Stage {
    /// The control is described; it has no window.
    Unattached,
    /// The parent is being created, and the creation of the control's window
    /// was asked for.
    Creating,
    /// The window exists, and its position was handed to it.
    Positioned,
    /// The identifier of the control was handed to the window.
    Identified,
    /// The parent's creation message was answered: the control is ready to
    /// exchange messages with its window.
    Live,
    /// A step failed. The control has no working window and never will.
    Failed,
}

/// Where a window is placed in the stacking order when it is positioned.
#[derive(Clone, Copy, PartialEq, Eq, Structural, Debug)]
pub enum HwndPlace {
    /// Behind the given window.
    Hwnd(HWND),
    /// At the place that the given constant names.
    Place(isize),
    /// Nowhere: the order is not changed.
    Unchanged,
}

/// What happened outside, as far as a control cares.
#[derive(Clone, Copy, PartialEq, Eq, Structural, Debug)]
pub enum Event {
    /// A message arrived at the parent, whose window is `hwnd`.
    ParentMessage { hwnd: HWND, msg: WndMsg },
    /// A message arrived at the control's own window.
    OwnMessage { msg: WndMsg },
    /// The creation that was asked for came back with the window `hwnd`,
    /// null if there is none, on a screen of the resolution `dpi`.
    Created { hwnd: HWND, dpi: POINT },
    /// The call that was asked for last succeeded.
    Done,
    /// The call that was asked for last failed with the system error `code`.
    Failed { code: u32 },
}

/// What is to be done outside next.
#[derive(Clone, Copy, PartialEq, Eq, Structural, Debug)]
pub enum Action {
    /// Nothing: the event was none of the control's business.
    Nothing,
    /// Create the window of the control from the dialog resource
    /// `dialog_id`, as a child of `parent`.
    CreateDialogParam { parent: HWND, dialog_id: u16 },
    /// Move the window `hwnd`.
    SetWindowPos { hwnd: HWND, place: HwndPlace, pos: POINT, size: SIZE, flags: u32 },
    /// Set the attribute `index` of the window `hwnd` to `value`.
    SetWindowLongPtr { hwnd: HWND, index: i32, value: isize },
    /// Answer the parent's creation message with `value`.
    Return { value: isize },
    /// Paint the borders of the window `hwnd` in the style of the current
    /// theme, in answer to `msg`.
    PaintBorders { hwnd: HWND, msg: WndMsg },
    /// Call the work that `msg` carries.
    RunUiThread { msg: WndMsg },
}

/// Why a control did not come to life.
#[derive(Clone, Copy, PartialEq, Eq, Structural, Debug)]
pub enum AttachError {
    /// The window of the control could not be created, or no identifier was
    /// left for it. Nothing can be done with the control.
    Construction,
    /// A call to the operating system failed with the given error.
    Foreign(ERROR),
}

/// What a control is, seen from outside.
pub struct DlgControlView {
    /// How far the control has come.
    pub stage: Stage,
    /// The control's window; null while there is none.
    pub hwnd: HWND,
    /// The dialog resource that the window is made from.
    pub dialog_id: u16,
    /// The message of the parent that sets off the creation.
    pub creation_wm: u32,
    /// Where the window is put within the parent, at the base resolution.
    pub position: POINT,
    /// The identifier that the control was described with, if any.
    pub explicit_id: Option<u16>,
    /// The identifier that the window was given, once it was given one.
    pub assigned_id: Option<u16>,
}

impl DlgControlView {
    /// What holds of a control at every moment.
    pub open spec fn wf(self) -> bool {
        &&& (self.stage == Stage::Unattached || self.stage == Stage::Creating)
            ==> self.hwnd.spec_is_null()
        &&& (self.stage == Stage::Positioned || self.stage == Stage::Identified || self.stage
            == Stage::Live) ==> !self.hwnd.spec_is_null()
        &&& (self.stage == Stage::Identified || self.stage == Stage::Live)
            <==> self.assigned_id is Some
        &&& self.assigned_id is Some && self.explicit_id is Some ==> self.assigned_id
            == self.explicit_id
    }
}

/// The position of a stage in the sequence that every control runs through,
/// from 0 for a control without window to 4 for a live one; a failed
/// control stands past the end.
pub open spec fn stage_rank(s: Stage) -> nat {
    match s {
        Stage::Unattached => 0,
        Stage::Creating => 1,
        Stage::Positioned => 2,
        Stage::Identified => 3,
        Stage::Live => 4,
        Stage::Failed => 5,
    }
}

/// The flags with which a control is positioned: neither its size nor its
/// place in the stacking order change.
pub open spec fn position_flags() -> u32 {
    SWP_NOZORDER | SWP_NOSIZE
}

/// The transition of a control: from what it is, an event, and the number
/// of identifiers handed out so far, to what it becomes, that number
/// afterwards, and what is to be done next or why the control failed.
pub open spec fn step(c: DlgControlView, ev: Event, count: nat) -> (
    DlgControlView,
    nat,
    Result<Action, AttachError>,
) {
    match (c.stage, ev) {
        (Stage::Unattached, Event::ParentMessage { hwnd, msg }) => {
            if msg.msg_id == c.creation_wm {
                (
                    DlgControlView { stage: Stage::Creating, ..c },
                    count,
                    Ok(Action::CreateDialogParam { parent: hwnd, dialog_id: c.dialog_id }),
                )
            } else {
                (c, count, Ok(Action::Nothing))
            }
        },
        (Stage::Creating, Event::Created { hwnd, dpi }) => {
            if hwnd.spec_is_null() {
                (
                    DlgControlView { stage: Stage::Failed, ..c },
                    count,
                    Err(AttachError::Construction),
                )
            } else {
                (
                    DlgControlView { stage: Stage::Positioned, hwnd, ..c },
                    count,
                    Ok(
                        Action::SetWindowPos {
                            hwnd,
                            place: HwndPlace::Unchanged,
                            pos: multiply_dpi_spec(c.position, dpi),
                            size: SIZE { cx: 0, cy: 0 },
                            flags: position_flags(),
                        },
                    ),
                )
            }
        },
        (Stage::Creating, Event::Failed { code }) => (
            DlgControlView { stage: Stage::Failed, ..c },
            count,
            Err(AttachError::Construction),
        ),
        (Stage::Positioned, Event::Done) => {
            let id = match c.explicit_id {
                Some(id) => Some(id),
                None => next_ctrl_id(count),
            };
            let count2 = match c.explicit_id {
                Some(_) => count,
                None => count_after(count),
            };
            match id {
                Some(id) => (
                    DlgControlView { stage: Stage::Identified, assigned_id: Some(id), ..c },
                    count2,
                    Ok(
                        Action::SetWindowLongPtr {
                            hwnd: c.hwnd,
                            index: GWLP_ID,
                            value: id as isize,
                        },
                    ),
                ),
                None => (
                    DlgControlView { stage: Stage::Failed, ..c },
                    count2,
                    Err(AttachError::Construction),
                ),
            }
        },
        (Stage::Positioned, Event::Failed { code }) => (
            DlgControlView { stage: Stage::Failed, ..c },
            count,
            Err(AttachError::Foreign(ERROR { code })),
        ),
        (Stage::Identified, Event::Done) => (
            DlgControlView { stage: Stage::Live, ..c },
            count,
            Ok(Action::Return { value: 0 }),
        ),
        (Stage::Identified, Event::Failed { code }) => (
            DlgControlView { stage: Stage::Live, ..c },
            count,
            Ok(Action::Return { value: 0 }),
        ),
        (_, Event::OwnMessage { msg }) => (c, count, Ok(own_message_action(c, msg))),
        _ => (c, count, Ok(Action::Nothing)),
    }
}

/// What a control does about a message that arrived at its own window,
/// once the window exists: it has its borders painted when the frame is to
/// be painted, and runs the work that was handed to its thread. Every
/// other message is left to the window.
pub open spec fn own_message_action(c: DlgControlView, msg: WndMsg) -> Action {
    if c.hwnd.spec_is_null() {
        Action::Nothing
    } else if is_ui_thread_msg(msg) {
        Action::RunUiThread { msg }
    } else if msg.msg_id == WM_NCPAINT {
        Action::PaintBorders { hwnd: c.hwnd, msg }
    } else {
        Action::Nothing
    }
}

/// Every step keeps a control well formed, leaves what it was described
/// with untouched, and moves it at most one stage forward or to failure;
/// no step leads back.
pub proof fn lemma_step_sequential(c: DlgControlView, ev: Event, count: nat)
    requires
        c.wf(),
    ensures
        ({
            let (n, count2, r) = step(c, ev, count);
            &&& n.wf()
            &&& n.dialog_id == c.dialog_id
            &&& n.creation_wm == c.creation_wm
            &&& n.position == c.position
            &&& n.explicit_id == c.explicit_id
            &&& (n.stage == c.stage || n.stage == Stage::Failed || stage_rank(n.stage)
                == stage_rank(c.stage) + 1)
            &&& c.stage == Stage::Failed ==> n.stage == Stage::Failed
            &&& c.stage == Stage::Live ==> n == c
            &&& r is Err <==> n.stage == Stage::Failed && c.stage != Stage::Failed
            &&& count <= count2 <= count + 1
        }),
{
    lemma_null_hwnd();
}

/// The window is created once: only a control without window asks for the
/// creation, and it does so on the parent's creation message and no other.
pub proof fn lemma_created_once(c: DlgControlView, ev: Event, count: nat)
    ensures
        (step(c, ev, count).2 matches Ok(Action::CreateDialogParam { .. })) <==> (c.stage
            == Stage::Unattached && ev is ParentMessage && ev->ParentMessage_msg.msg_id
            == c.creation_wm),
{
}

/// A live control that was described with an identifier reports that
/// identifier.
pub proof fn lemma_live_reports_explicit_id(c: DlgControlView, id: u16)
    requires
        c.wf(),
        c.stage == Stage::Live,
        c.explicit_id == Some(id),
    ensures
        c.assigned_id == Some(id),
{
}

/// A control that was described without identifier is given one that no
/// control was given before from the same source, and that none will be
/// given after.
pub proof fn lemma_generated_id_fresh(c: DlgControlView, count: nat, later: nat)
    requires
        c.wf(),
        c.stage == Stage::Positioned,
        c.explicit_id is None,
    ensures
        ({
            let (n, count2, r) = step(c, Event::Done, count);
            n.assigned_id matches Some(id) ==> {
                &&& n.assigned_id == next_ctrl_id(count)
                &&& count2 == count + 1
                &&& forall|earlier: nat| earlier < count ==> next_ctrl_id(earlier) != Some(id)
                &&& later >= count2 ==> next_ctrl_id(later) != Some(id)
            }
        }),
{
}

/// Two controls without identifier of their own, brought to life one after
/// the other under one parent, report different identifiers.
pub proof fn lemma_generated_ids_distinct(a: DlgControlView, b: DlgControlView, count: nat)
    requires
        a.wf(),
        b.wf(),
        a.stage == Stage::Positioned,
        b.stage == Stage::Positioned,
        a.explicit_id is None,
        b.explicit_id is None,
    ensures
        ({
            let (a2, count2, _) = step(a, Event::Done, count);
            let (b2, _, _) = step(b, Event::Done, count2);
            a2.assigned_id is Some && b2.assigned_id is Some ==> a2.assigned_id != b2.assigned_id
        }),
{
}

proof fn lemma_null_hwnd()
    ensures
        forall|h: HWND| h.spec_is_null() <==> h == HWND::spec_from_ptr(0),
{
    assert forall|h: HWND| h.spec_is_null() <==> h == HWND::spec_from_ptr(0) by {
        h.lemma_raw_determines();
        HWND::lemma_from_ptr(h.raw());
        HWND::lemma_from_ptr(0);
    }
}

/// A control made from a dialog resource.
#[derive(Debug)]
pub struct DlgControl {
    base: Base,
    dialog_id: u16,
    creation_wm: u32,
    position: POINT,
    ctrl_id: Option<u16>,
    stage: Stage,
    assigned_id: Option<u16>,
}

impl View for DlgControl {
    type V = DlgControlView;

    closed spec fn view(&self) -> DlgControlView {
        DlgControlView {
            stage: self.stage,
            hwnd: self.base.hwnd(),
            dialog_id: self.dialog_id,
            creation_wm: self.creation_wm,
            position: self.position,
            explicit_id: self.ctrl_id,
            assigned_id: self.assigned_id,
        }
    }
}

impl DlgControl {
    #[verifier::type_invariant]
    spec fn inv(self) -> bool {
        self.view().wf() && self.base.is_dialog()
    }

    /// Describes a control under the parent `parent_base_ref`, to be made
    /// from the dialog resource `dialog_id` and put at `position`, with the
    /// identifier `ctrl_id` or, if that is `None`, one that is chosen for
    /// it. The control has no window yet.
    pub fn new(
        parent_base_ref: &Base,
        dialog_id: u16,
        position: POINT,
        ctrl_id: Option<u16>,
    ) -> (dlg: DlgControl)
        ensures
            dlg@.wf(),
            dlg@ == (DlgControlView {
                stage: Stage::Unattached,
                hwnd: HWND::spec_from_ptr(0),
                dialog_id,
                creation_wm: creation_wm_of(parent_base_ref.is_dialog()),
                position,
                explicit_id: ctrl_id,
                assigned_id: None,
            }),
    {
        proof {
            lemma_null_hwnd();
        }
        DlgControl {
            base: Base::new(true),
            dialog_id,
            creation_wm: parent_base_ref.creation_wm(),
            position,
            ctrl_id,
            stage: Stage::Unattached,
            assigned_id: None,
        }
    }

    /// The base of the control's own window.
    pub fn base_ref(&self) -> (b: &Base)
        ensures
            b.hwnd() == self@.hwnd,
            b.is_dialog(),
            self@.wf(),
    {
        proof {
            use_type_invariant(self);
        }
        &self.base
    }

    /// Wraps `func` for the thread that owns the control's window.
    pub fn run_ui_thread<F>(&self, func: F) -> (call: UiThreadCall<F>) where
        F: FnOnce() -> ErrResult<()>,

        ensures
            call.hwnd == self@.hwnd,
            is_ui_thread_msg(call.msg),
            call.msg.lparam == 0,
            call.func == func,
    {
        self.base.run_ui_thread(func)
    }

    /// How far the control has come.
    pub fn stage(&self) -> (s: Stage)
        ensures
            s == self@.stage,
            self@.wf(),
    {
        proof {
            use_type_invariant(self);
        }
        self.stage
    }

    /// The identifier under which the parent knows the control: the one it
    /// was described with, else the one that was chosen for it. `None`
    /// until the window was given it.
    pub fn ctrl_id(&self) -> (id: Option<u16>)
        ensures
            id == self@.assigned_id,
            self@.wf(),
            self@.stage == Stage::Live ==> id is Some,
            self@.stage == Stage::Live && self@.explicit_id is Some ==> id == self@.explicit_id,
    {
        proof {
            use_type_invariant(self);
        }
        self.assigned_id
    }

    /// Takes note of what happened outside and says what is to be done
    /// next.
    ///
    /// Identifiers for controls that were described without one are taken
    /// from `ids`, which the controls under one parent share.
    pub fn default_message_handlers(&mut self, ev: Event, ids: &mut CtrlIds) -> (r: Result<
        Action,
        AttachError,
    >)
        ensures
            old(self)@.wf(),
            final(self)@.wf(),
            (final(self)@, final(ids).count(), r) == step(old(self)@, ev, old(ids).count()),
            final(self)@.assigned_id is Some && old(self)@.assigned_id is None && old(
                self,
            )@.explicit_id is None ==> !old(ids).issued().contains(final(self)@.assigned_id->0)
                && final(ids).issued().contains(final(self)@.assigned_id->0),
    {
        proof {
            use_type_invariant(&*self);
            lemma_null_hwnd();
        }
        match (self.stage, ev) {
            (Stage::Unattached, Event::ParentMessage { hwnd, msg }) => {
                if msg.msg_id == self.creation_wm {
                    self.stage = Stage::Creating;
                    Ok(Action::CreateDialogParam { parent: hwnd, dialog_id: self.dialog_id })
                } else {
                    Ok(Action::Nothing)
                }
            },
            (Stage::Creating, Event::Created { hwnd, dpi }) => {
                if hwnd.is_null() {
                    self.stage = Stage::Failed;
                    Err(AttachError::Construction)
                } else {
                    let pos = multiply_dpi(self.position, dpi);
                    *self = DlgControl {
                        base: Base::with_hwnd(hwnd, true),
                        dialog_id: self.dialog_id,
                        creation_wm: self.creation_wm,
                        position: self.position,
                        ctrl_id: self.ctrl_id,
                        stage: Stage::Positioned,
                        assigned_id: None,
                    };
                    Ok(
                        Action::SetWindowPos {
                            hwnd,
                            place: HwndPlace::Unchanged,
                            pos,
                            size: SIZE::default(),
                            flags: SWP_NOZORDER | SWP_NOSIZE,
                        },
                    )
                }
            },
            (Stage::Creating, Event::Failed { code }) => {
                self.stage = Stage::Failed;
                Err(AttachError::Construction)
            },
            (Stage::Positioned, Event::Done) => {
                let id = match self.ctrl_id {
                    Some(id) => Some(id),
                    None => ids.auto_ctrl_id(),
                };
                match id {
                    Some(id) => {
                        *self = DlgControl {
                            base: self.base,
                            dialog_id: self.dialog_id,
                            creation_wm: self.creation_wm,
                            position: self.position,
                            ctrl_id: self.ctrl_id,
                            stage: Stage::Identified,
                            assigned_id: Some(id),
                        };
                        Ok(
                            Action::SetWindowLongPtr {
                                hwnd: *self.base.hwnd_ref(),
                                index: GWLP_ID,
                                value: id as isize,
                            },
                        )
                    },
                    None => {
                        self.stage = Stage::Failed;
                        Err(AttachError::Construction)
                    },
                }
            },
            (Stage::Positioned, Event::Failed { code }) => {
                self.stage = Stage::Failed;
                Err(AttachError::Foreign(ERROR { code }))
            },
            (Stage::Identified, Event::Done) => {
                self.stage = Stage::Live;
                Ok(Action::Return { value: 0 })
            },
            (Stage::Identified, Event::Failed { code }) => {
                self.stage = Stage::Live;
                Ok(Action::Return { value: 0 })
            },
            (_, Event::OwnMessage { msg }) => {
                if self.base.hwnd_ref().is_null() {
                    Ok(Action::Nothing)
                } else if self.base.ui_thread_message_handler(msg) {
                    Ok(Action::RunUiThread { msg })
                } else if msg.msg_id == WM_NCPAINT {
                    Ok(Action::PaintBorders { hwnd: *self.base.hwnd_ref(), msg })
                } else {
                    Ok(Action::Nothing)
                }
            },
            _ => Ok(Action::Nothing),
        }
    }
}

} // verus!
