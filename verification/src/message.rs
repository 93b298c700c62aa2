//! The decisions of the window procedure and of the message loop.

use vstd::prelude::*;

verus! {

/// A window is being destroyed (`WM_DESTROY`).
pub const WM_DESTROY: u32 = 0x0002;

/// A window's size changed (`WM_SIZE`).
pub const WM_SIZE: u32 = 0x0005;

/// A window needs painting (`WM_PAINT`).
pub const WM_PAINT: u32 = 0x000F;

/// The window manager asks for a window's size limits (`WM_GETMINMAXINFO`).
pub const WM_GETMINMAXINFO: u32 = 0x0024;

/// A window is being created (`WM_NCCREATE`).
pub const WM_NCCREATE: u32 = 0x0081;

/// `WM_SIZE`: the window was resized (`SIZE_RESTORED`).
pub const SIZE_RESTORED: usize = 0;

/// `WM_SIZE`: the window was minimized (`SIZE_MINIMIZED`).
pub const SIZE_MINIMIZED: usize = 1;

/// `WM_SIZE`: the window was maximized (`SIZE_MAXIMIZED`).
pub const SIZE_MAXIMIZED: usize = 2;

/// `WM_SIZE`: another window was restored (`SIZE_MAXSHOW`).
pub const SIZE_MAXSHOW: usize = 3;

/// `WM_SIZE`: another window was maximized (`SIZE_MAXHIDE`).
pub const SIZE_MAXHIDE: usize = 4;

/// What a window was resized to.
#[derive(Debug)]
pub enum Resize {
    /// This window is restored.
    Restore(usize, usize),
    /// This window is minimized.
    Minimize,
    /// This window is maximized.
    Maximize,
    /// Hide due to another window maximizing.
    MaxHide,
    /// Show due to another window being restored/minimized.
    MaxShow(usize, usize),
}

/// The kind of resize that a `WM_SIZE` message's `w_param` reports.
pub open spec fn spec_decode_resize(w_param: usize) -> Resize {
    if w_param == SIZE_RESTORED {
        Resize::Restore(0, 0)
    } else if w_param == SIZE_MINIMIZED {
        Resize::Minimize
    } else if w_param == SIZE_MAXIMIZED {
        Resize::Maximize
    } else if w_param == SIZE_MAXSHOW {
        Resize::MaxShow(0, 0)
    } else {
        Resize::MaxHide
    }
}

/// Reads the `w_param` of a `WM_SIZE` message, which is one of the five
/// `SIZE_*` codes.
pub fn decode_resize(w_param: usize) -> (r: Resize)
    requires
        w_param <= SIZE_MAXHIDE,
    ensures
        r == spec_decode_resize(w_param),
        w_param == 0 ==> r == Resize::Restore(0, 0),
        w_param == 1 ==> r == Resize::Minimize,
        w_param == 2 ==> r == Resize::Maximize,
        w_param == 3 ==> r == Resize::MaxShow(0, 0),
        w_param == 4 ==> r == Resize::MaxHide,
{
    if w_param == SIZE_RESTORED {
        Resize::Restore(0, 0)
    } else if w_param == SIZE_MINIMIZED {
        Resize::Minimize
    } else if w_param == SIZE_MAXIMIZED {
        Resize::Maximize
    } else if w_param == SIZE_MAXSHOW {
        Resize::MaxShow(0, 0)
    } else {
        Resize::MaxHide
    }
}

/// What the window procedure does with a message.
#[derive(Debug)]
pub enum MessageAction {
    /// Hand the message to the default window procedure.
    Default,
    /// Paint the invalid part of the window, with its state when it has one.
    Paint,
    /// Resize the render target of the window's state.
    Resize(Resize),
    /// Answer 0 without doing anything.
    Handled,
    /// Post the quit message, then answer 0.
    Quit,
}

/// What the window procedure does with message `msg`, given its `w_param`
/// and whether the window has its state attached.
pub open spec fn spec_decide_message(msg: u32, w_param: usize, has_view_state: bool) -> MessageAction {
    if msg == WM_NCCREATE {
        MessageAction::Default
    } else if msg == WM_PAINT {
        MessageAction::Paint
    } else if msg == WM_SIZE {
        if has_view_state {
            MessageAction::Resize(spec_decode_resize(w_param))
        } else {
            MessageAction::Default
        }
    } else if msg == WM_GETMINMAXINFO {
        MessageAction::Handled
    } else if msg == WM_DESTROY {
        MessageAction::Quit
    } else {
        MessageAction::Default
    }
}

/// Decides what the window procedure does with a message.
pub fn decide_message(msg: u32, w_param: usize, has_view_state: bool) -> (r: MessageAction)
    requires
        msg == WM_SIZE && has_view_state ==> w_param <= SIZE_MAXHIDE,
    ensures
        r == spec_decide_message(msg, w_param, has_view_state),
        msg == 0x0081 ==> r == MessageAction::Default,
        msg == 0x000F ==> r == MessageAction::Paint,
        msg == 0x0005 && !has_view_state ==> r == MessageAction::Default,
        msg == 0x0005 && has_view_state && w_param == 0 ==> r == MessageAction::Resize(Resize::Restore(0, 0)),
        msg == 0x0005 && has_view_state && w_param == 1 ==> r == MessageAction::Resize(Resize::Minimize),
        msg == 0x0005 && has_view_state && w_param == 2 ==> r == MessageAction::Resize(Resize::Maximize),
        msg == 0x0005 && has_view_state && w_param == 3 ==> r == MessageAction::Resize(Resize::MaxShow(0, 0)),
        msg == 0x0005 && has_view_state && w_param == 4 ==> r == MessageAction::Resize(Resize::MaxHide),
        msg == 0x0024 ==> r == MessageAction::Handled,
        msg == 0x0002 ==> r == MessageAction::Quit,
        msg != 0x0081 && msg != 0x000F && msg != 0x0005 && msg != 0x0024 && msg != 0x0002 ==> r
            == MessageAction::Default,
{
    if msg == WM_NCCREATE {
        MessageAction::Default
    } else if msg == WM_PAINT {
        MessageAction::Paint
    } else if msg == WM_SIZE {
        if has_view_state {
            MessageAction::Resize(decode_resize(w_param))
        } else {
            MessageAction::Default
        }
    } else if msg == WM_GETMINMAXINFO {
        MessageAction::Handled
    } else if msg == WM_DESTROY {
        MessageAction::Quit
    } else {
        MessageAction::Default
    }
}

/// A window being created is always handed to the default window
/// procedure, which sets it up: whatever the `w_param` and whether or not a
/// state is attached, the decision for `WM_NCCREATE` (0x0081) is `Default`.
/// Answering it with 0 instead would abort the window's creation.
pub proof fn lemma_creation_goes_to_default(w_param: usize, has_view_state: bool)
    ensures
        spec_decide_message(0x0081, w_param, has_view_state) == MessageAction::Default,
{
}

/// Only the messages that the procedure handles itself are kept from the
/// default window procedure: any message other than painting, resizing a
/// window with state, the size-limit query and destruction is handed on.
pub proof fn lemma_unhandled_messages_go_to_default(msg: u32, w_param: usize, has_view_state: bool)
    requires
        msg != 0x000F,
        msg != 0x0024,
        msg != 0x0002,
        !(msg == 0x0005 && has_view_state),
    ensures
        spec_decide_message(msg, w_param, has_view_state) == MessageAction::Default,
{
}

/// The answer of the window procedure to a message that it painted or
/// resized for: 0 on success, -1 on failure.
pub fn handler_result<E>(outcome: Result<(), E>) -> (r: isize)
    ensures
        outcome is Ok ==> r == 0,
        outcome is Err ==> r == -1,
{
    match outcome {
        Ok(()) => 0,
        Err(_) => -1,
    }
}

/// What the message loop does after fetching a message.
#[derive(Debug)]
pub enum LoopStep {
    /// Translate and dispatch the message, then fetch the next one.
    Dispatch,
    /// The quit message arrived: stop.
    Stop,
    /// Fetching failed with the given code: report it and stop.
    Fail(i32),
}

/// What the message loop does after fetching a message returned `result`.
pub fn message_loop_step(result: i32) -> (r: LoopStep)
    ensures
        result > 0 ==> r is Dispatch,
        result == 0 ==> r is Stop,
        result < 0 ==> r == LoopStep::Fail(result),
{
    if result > 0 {
        LoopStep::Dispatch
    } else if result == 0 {
        LoopStep::Stop
    } else {
        LoopStep::Fail(result)
    }
}

/// Whether the code that a shell execute call returned reports a failure:
/// success is reported by codes above 32.
pub fn shell_execute_failed(code: usize) -> (r: bool)
    ensures
        r <==> code <= 32,
{
    code <= 32
}

} // verus!
