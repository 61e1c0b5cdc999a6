//! The control center: a panel near the notification area that offers ways of arranging windows.
//!
//! The panel is created hidden together with the main window, shown when the notification icon
//! is clicked with the primary button, and hidden again, never destroyed, when it loses
//! activation. Showing and hiding are requests to the host; the controller itself only records
//! its window.
use vstd::prelude::*;

use crate::app_window::AppWindow;
use crate::message::{Action, Message};
use crate::registry::Registry;
use crate::words::{
    bits32, low_word, low_word_of, wparam_bits, x_of_param, x_param, y_of_param, y_param,
};
use crate::{CONTROL_CENTER_HEIGHT, CONTROL_CENTER_WIDTH, WA_INACTIVE, WM_ACTIVATE};

verus! {

/// The controller of the control center's window.
#[derive(Clone, Copy, Debug, PartialEq, Eq, Structural)]
pub struct ControlCenter {
    /// The panel's window, or 0 until its creation message came.
    pub window_handle: isize,
}

impl ControlCenter {
    /// A controller whose window does not exist yet.
    pub open spec fn initial() -> ControlCenter {
        ControlCenter { window_handle: 0 }
    }

    /// The request that shows the panel near the point packed into `wparam`.
    pub open spec fn shown(self, wparam: usize) -> Action {
        Action::ShowPopup {
            window: self.window_handle,
            x: x_of_param(wparam),
            y: y_of_param(wparam),
            width: CONTROL_CENTER_WIDTH,
            height: CONTROL_CENTER_HEIGHT,
        }
    }

    /// The request that hides the panel.
    pub open spec fn hidden(self) -> Action {
        Action::HidePopup { window: self.window_handle }
    }

    /// What the controller does on a message other than its creation: the action, and whether
    /// the message goes on to default handling.
    pub open spec fn on_message(self, m: Message) -> (Action, bool) {
        if m.message == WM_ACTIVATE && low_word_of(bits32(m.wparam as int)) == WA_INACTIVE {
            (self.hidden(), false)
        } else {
            (Action::Nothing, true)
        }
    }

    /// Adds a control center to the registry, with its window still to be created. Returns its
    /// id, of which the caller holds one reference, and the token to pass as the window's
    /// creation parameter.
    pub fn new(registry: &mut Registry) -> (r: (usize, usize))
        requires
            old(registry)@.wf(),
            old(registry)@.has_room(),
        ensures
            (final(registry)@, r.0, r.1) == old(registry)@.created_held(
                AppWindow::ControlCenter(ControlCenter::initial()),
            ),
            final(registry)@.wf(),
    {
        registry.add_held(AppWindow::ControlCenter(ControlCenter { window_handle: 0 }))
    }

    /// Records the window that was created for the panel.
    pub fn handle_create(&mut self, window: isize)
        ensures
            *final(self) == (ControlCenter { window_handle: window }),
    {
        self.window_handle = window;
    }

    /// Handles a message other than the creation: hides the panel when it lost activation, and
    /// leaves every other message to default handling.
    pub fn process_message(&self, m: Message) -> (r: (Action, bool))
        ensures
            r == self.on_message(m),
    {
        if m.message == WM_ACTIVATE && low_word(wparam_bits(m.wparam)) as u32 == WA_INACTIVE {
            (self.hide_panel(), false)
        } else {
            (Action::Nothing, true)
        }
    }

    /// Asks for the panel to be shown near the point that `wparam` holds, which is how the
    /// notification icon reports where it was clicked.
    pub fn show(&self, wparam: usize) -> (r: Action)
        ensures
            r == self.shown(wparam),
    {
        Action::ShowPopup {
            window: self.window_handle,
            x: x_param(wparam),
            y: y_param(wparam),
            width: CONTROL_CENTER_WIDTH,
            height: CONTROL_CENTER_HEIGHT,
        }
    }

    /// Asks for the panel to be hidden. Its window stays, to be shown again.
    pub fn hide_panel(&self) -> (r: Action)
        ensures
            r == self.hidden(),
    {
        Action::HidePopup { window: self.window_handle }
    }
}

} // verus!
