//! The main window: a message-only window that owns the notification icon, its context menu and
//! a shared reference to the control center.
use vstd::prelude::*;

use crate::app_window::AppWindow;
use crate::control_center::ControlCenter;
use crate::message::{Action, Message};
use crate::registry::{Registry, RegistryView};
use crate::words::{
    bits32, low_word, low_word_of, lparam_bits, x_of_param, x_param, y_of_param, y_param,
};
use crate::{WM_COMMAND, WM_CONTEXTMENU, WM_DESTROY, WM_LBUTTONUP, WM_NIACTION};

verus! {

/// The controller of the main window.
///
/// The notification icon and the context menu are host resources; they are registered for
/// `window_handle` when the window is created and torn down when this controller is dropped.
#[derive(Clone, Copy, Debug, PartialEq, Eq, Structural)]
pub struct RectangularWindow {
    /// The main window, or 0 until its creation message came.
    pub window_handle: isize,
    /// The control center that this window shows, once the window was created.
    pub control_center: Option<usize>,
}

impl RectangularWindow {
    /// A controller whose window does not exist yet.
    pub open spec fn initial() -> RectangularWindow {
        RectangularWindow { window_handle: 0, control_center: None }
    }

    /// What the controller does on its creation message: a control center is added, hidden, with
    /// a token for its window; the new registry, the new controller and the action that sets up
    /// the notification icon, the context menu and the control center's window.
    pub open spec fn on_create(self, v: RegistryView, instance: isize, window: isize) -> (
        RegistryView,
        RectangularWindow,
        Action,
    ) {
        let (v1, p, token) = v.added(AppWindow::ControlCenter(ControlCenter::initial()));
        (
            v1,
            RectangularWindow { window_handle: window, control_center: Some(p) },
            Action::SetUp { window, instance, popup_token: token },
        )
    }

    /// What the controller does on a message other than its creation: the action, and whether
    /// the message goes on to default handling. The control center is only read.
    pub open spec fn on_message(self, v: RegistryView, m: Message) -> (Action, bool) {
        if m.message == WM_DESTROY {
            (Action::Quit, false)
        } else if m.message == WM_COMMAND {
            (Action::Close { window: self.window_handle }, false)
        } else if m.message == WM_NIACTION {
            let code = low_word_of(bits32(m.lparam as int));
            if code == WM_CONTEXTMENU {
                (
                    Action::ShowMenu {
                        window: self.window_handle,
                        x: x_of_param(m.wparam),
                        y: y_of_param(m.wparam),
                    },
                    false,
                )
            } else if code == WM_LBUTTONUP {
                match self.control_center {
                    Some(p) => if v.is_panel(p) {
                        match v.get(p) {
                            AppWindow::ControlCenter(c) => (c.shown(m.wparam), false),
                            _ => (Action::Nothing, false),
                        }
                    } else {
                        (Action::Nothing, false)
                    },
                    None => (Action::Nothing, false),
                }
            } else {
                (Action::Nothing, true)
            }
        } else {
            (Action::Nothing, true)
        }
    }

    /// Adds a main window controller to the registry, with its window still to be created.
    /// Returns its id, of which the caller holds one reference, and the token to pass as the
    /// window's creation parameter.
    pub fn new(registry: &mut Registry) -> (r: (usize, usize))
        requires
            old(registry)@.wf(),
            old(registry)@.has_room(),
        ensures
            (final(registry)@, r.0, r.1) == old(registry)@.created_held(
                AppWindow::Rectangular(RectangularWindow::initial()),
            ),
            final(registry)@.wf(),
    {
        registry.add_held(
            AppWindow::Rectangular(RectangularWindow { window_handle: 0, control_center: None }),
        )
    }

    /// Handles the creation message: records the window and adds the control center.
    pub fn handle_create(&mut self, registry: &mut Registry, instance: isize, window: isize) -> (r:
        Action)
        requires
            old(registry)@.wf(),
            old(registry)@.has_room(),
        ensures
            (final(registry)@, *final(self), r) == old(self).on_create(
                old(registry)@,
                instance,
                window,
            ),
            final(registry)@.wf(),
    {
        let (p, token) = registry.add(AppWindow::ControlCenter(ControlCenter { window_handle: 0 }));
        self.window_handle = window;
        self.control_center = Some(p);
        Action::SetUp { window, instance, popup_token: token }
    }

    /// Handles a message other than the creation: quits when destroyed, asks for its own close
    /// when a menu item was chosen, and answers the notification icon with the context menu or
    /// the control center.
    pub fn process_message(&self, registry: &Registry, m: Message) -> (r: (Action, bool))
        requires
            registry@.wf(),
        ensures
            r == self.on_message(registry@, m),
    {
        if m.message == WM_DESTROY {
            (Action::Quit, false)
        } else if m.message == WM_COMMAND {
            (Action::Close { window: self.window_handle }, false)
        } else if m.message == WM_NIACTION {
            let code = low_word(lparam_bits(m.lparam)) as u32;
            if code == WM_CONTEXTMENU {
                (
                    Action::ShowMenu {
                        window: self.window_handle,
                        x: x_param(m.wparam),
                        y: y_param(m.wparam),
                    },
                    false,
                )
            } else if code == WM_LBUTTONUP {
                match self.control_center {
                    Some(p) => match registry.window(p) {
                        Some(AppWindow::ControlCenter(c)) => (c.show(m.wparam), false),
                        _ => (Action::Nothing, false),
                    },
                    None => (Action::Nothing, false),
                }
            } else {
                (Action::Nothing, true)
            }
        } else {
            (Action::Nothing, true)
        }
    }
}

} // verus!
