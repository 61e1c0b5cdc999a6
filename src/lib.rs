//! Message dispatch and controller lifetimes for a notification-area utility.
//!
//! The host windowing system calls one procedure for every message of every window, and gives
//! each window a single integer slot of storage. This library decides what that procedure does:
//! it binds each window to a controller through a token kept in the slot, routes messages to the
//! bound controller, and reclaims the token exactly once when the window is destroyed. The calls
//! into the host are left to the caller, who performs the [`message::Action`] that each decision
//! returns.
use vstd::prelude::*;

pub mod app_window;
pub mod control_center;
pub mod message;
pub mod rectangular_window;
pub mod registry;
pub mod words;
pub mod wndproc;

verus! {

/// Host message: a window is being created; the last parameter points at its creation data.
pub const WM_CREATE: u32 = 0x0001;

/// Host message: a window is being destroyed; its children still exist.
pub const WM_DESTROY: u32 = 0x0002;

/// Host message: a window is being activated or deactivated.
pub const WM_ACTIVATE: u32 = 0x0006;

/// Host message: a part of the window must be painted.
pub const WM_PAINT: u32 = 0x000F;

/// Host message: the window is asked to close.
pub const WM_CLOSE: u32 = 0x0010;

/// Host message: the last message a window receives.
pub const WM_NCDESTROY: u32 = 0x0082;

/// Host message: the user asked for a context menu.
pub const WM_CONTEXTMENU: u32 = 0x007B;

/// Host message: an item of a menu was chosen.
pub const WM_COMMAND: u32 = 0x0111;

/// Host message: the primary mouse button went up.
pub const WM_LBUTTONUP: u32 = 0x0202;

/// The first message code that the host leaves to applications.
pub const WM_USER: u32 = 0x0400;

/// The activation state that `WM_ACTIVATE` reports when the window lost activation.
pub const WA_INACTIVE: u32 = 0;

/// The message by which the notification icon reports what happened to it.
pub const WM_NIACTION: u32 = WM_USER + 1;

/// Width of the control center panel, in pixels.
pub const CONTROL_CENTER_WIDTH: i32 = 300;

/// Height of the control center panel, in pixels.
pub const CONTROL_CENTER_HEIGHT: i32 = 200;

} // verus!
