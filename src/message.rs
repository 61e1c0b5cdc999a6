//! What the window procedure receives from the host, and what it hands back.
use vstd::prelude::*;

verus! {

/// One message as the host delivers it: the window it is for, its code and its two parameters.
#[derive(Clone, Copy, Debug, PartialEq, Eq, Structural)]
pub struct Message {
    pub window: isize,
    pub message: u32,
    pub wparam: usize,
    pub lparam: isize,
}

/// What a creation message carries: the module instance and the creation parameter, which is the
/// binding token of the window's controller.
#[derive(Clone, Copy, Debug, PartialEq, Eq, Structural)]
pub struct CreateParams {
    pub instance: isize,
    pub token: usize,
}

/// A call into the host that a decision asks for.
#[derive(Clone, Copy, Debug, PartialEq, Eq, Structural)]
pub enum Action {
    /// Nothing to do.
    Nothing,
    /// Fill the invalid part of the window with the frame colour.
    Paint { window: isize },
    /// Begin the destruction of the window.
    Destroy { window: isize },
    /// Ask the message loop to end.
    Quit,
    /// Post a close request to the window.
    Close { window: isize },
    /// Register the notification icon and the context menu for the main window, and create the
    /// control center's window with `popup_token` as its creation parameter.
    SetUp { window: isize, instance: isize, popup_token: usize },
    /// Show the context menu of `window` at the given screen point.
    ShowMenu { window: isize, x: i16, y: i16 },
    /// Show the control center panel near the given screen point, keeping it on the work area.
    ShowPopup { window: isize, x: i16, y: i16, width: i32, height: i32 },
    /// Hide the control center panel without destroying it.
    HidePopup { window: isize },
}

/// What to do with the window's slot after a message.
#[derive(Clone, Copy, Debug, PartialEq, Eq, Structural)]
pub enum SlotWrite {
    /// Leave the slot as it is.
    Keep,
    /// Store this token in the slot.
    Bind { token: usize },
    /// Store the null value in the slot.
    Clear,
}

/// The decision taken on one message.
///
/// The caller writes the slot first, then performs `action`, then tears down the resources of the
/// main window `released` if there is one. Where `default` holds, the message goes on to the
/// host's default handling and its result is the procedure's result; otherwise the result is 0.
#[derive(Clone, Copy, Debug, PartialEq, Eq, Structural)]
pub struct Response {
    pub slot: SlotWrite,
    pub action: Action,
    pub released: Option<isize>,
    pub default: bool,
}

/// A message that no one handles: it goes to default handling, and nothing else happens.
pub open spec fn forwarded() -> Response {
    Response { slot: SlotWrite::Keep, action: Action::Nothing, released: None, default: true }
}

/// A message handled by one action.
pub open spec fn handled(action: Action) -> Response {
    Response { slot: SlotWrite::Keep, action, released: None, default: false }
}

} // verus!
