//! The controllers that a window can be bound to.
use vstd::prelude::*;

use crate::control_center::ControlCenter;
use crate::rectangular_window::RectangularWindow;

verus! {

/// A controller, of one of the kinds of window that the application has.
#[derive(Clone, Copy, Debug, PartialEq, Eq, Structural)]
pub enum AppWindow {
    /// The main window.
    Rectangular(RectangularWindow),
    /// The control center panel.
    ControlCenter(ControlCenter),
}

/// Whether the controller in `w`, if any, holds a shared reference to controller `id`.
pub open spec fn holds(w: Option<AppWindow>, id: usize) -> bool {
    match w {
        Some(AppWindow::Rectangular(r)) => r.control_center == Some(id),
        _ => false,
    }
}

} // verus!
