use rectangular::app_window::AppWindow;
use rectangular::control_center::ControlCenter;
use rectangular::message::{Action, CreateParams, Message, Response, SlotWrite};
use rectangular::rectangular_window::RectangularWindow;
use rectangular::registry::Registry;
use rectangular::wndproc::wndproc;
use rectangular::{
    WA_INACTIVE, WM_ACTIVATE, WM_CLOSE, WM_COMMAND, WM_CONTEXTMENU, WM_CREATE, WM_DESTROY,
    WM_LBUTTONUP, WM_NCDESTROY, WM_NIACTION, WM_PAINT,
};

const INSTANCE: isize = 0x40_0000;
const MAIN: isize = 10;
const PANEL: isize = 20;

fn msg(window: isize, message: u32, wparam: usize, lparam: isize) -> Message {
    Message { window, message, wparam, lparam }
}

fn point(x: i16, y: i16) -> usize {
    (x as u16 as usize) | ((y as u16 as usize) << 16)
}

fn forwarded() -> Response {
    Response { slot: SlotWrite::Keep, action: Action::Nothing, released: None, default: true }
}

fn handled(action: Action) -> Response {
    Response { slot: SlotWrite::Keep, action, released: None, default: false }
}

/// Creates the main window and the control center's window as the host would: returns the
/// registry, the main window's id and token, and the control center's id and token.
fn started() -> (Registry, usize, usize, usize, usize) {
    let mut reg = Registry::new();
    let (main_id, main_token) = RectangularWindow::new(&mut reg);
    assert_eq!(reg.outside_refs(main_id), 1);
    let created = wndproc(
        &mut reg,
        0,
        msg(MAIN, WM_CREATE, 0, 0),
        Some(CreateParams { instance: INSTANCE, token: main_token }),
    );
    let panel_token = match created.action {
        Action::SetUp { window, instance, popup_token } => {
            assert_eq!(window, MAIN);
            assert_eq!(instance, INSTANCE);
            popup_token
        }
        other => panic!("unexpected action {:?}", other),
    };
    assert_eq!(created.slot, SlotWrite::Bind { token: main_token });
    let panel_id = match reg.window(main_id) {
        Some(AppWindow::Rectangular(r)) => r.control_center.unwrap(),
        other => panic!("unexpected controller {:?}", other),
    };
    let panel_created = wndproc(
        &mut reg,
        0,
        msg(PANEL, WM_CREATE, 0, 0),
        Some(CreateParams { instance: INSTANCE, token: panel_token }),
    );
    assert_eq!(
        panel_created,
        Response {
            slot: SlotWrite::Bind { token: panel_token },
            action: Action::Nothing,
            released: None,
            default: false
        }
    );
    // The creator gives up its reference once the window exists; the token keeps it alive.
    assert_eq!(reg.drop_ref(main_id), None);
    assert!(reg.window(main_id).is_some());
    (reg, main_id, main_token, panel_id, panel_token)
}

#[test]
fn creation_binds_the_main_window_and_adds_a_hidden_control_center() {
    let (reg, main_id, main_token, panel_id, panel_token) = started();
    assert!(reg.is_live(main_token));
    assert!(reg.is_live(panel_token));
    assert_ne!(main_token, panel_token);
    assert_eq!(reg.bound(main_token), main_id);
    assert_eq!(reg.bound(panel_token), panel_id);
    assert_eq!(
        reg.window(main_id),
        Some(AppWindow::Rectangular(RectangularWindow {
            window_handle: MAIN,
            control_center: Some(panel_id)
        }))
    );
    assert_eq!(
        reg.window(panel_id),
        Some(AppWindow::ControlCenter(ControlCenter { window_handle: PANEL }))
    );
}

#[test]
fn secondary_click_shows_the_context_menu_at_the_cursor() {
    let (mut reg, _, main_token, _, _) = started();
    let r = wndproc(
        &mut reg,
        main_token,
        msg(MAIN, WM_NIACTION, point(100, 200), WM_CONTEXTMENU as isize),
        None,
    );
    assert_eq!(r, handled(Action::ShowMenu { window: MAIN, x: 100, y: 200 }));
}

#[test]
fn menu_command_requests_the_main_window_close() {
    let mut reg = Registry::new();
    let (_, main_token) = RectangularWindow::new(&mut reg);
    wndproc(
        &mut reg,
        0,
        msg(MAIN, WM_CREATE, 0, 0),
        Some(CreateParams { instance: INSTANCE, token: main_token }),
    );
    let r = wndproc(&mut reg, main_token, msg(MAIN, WM_COMMAND, 1, 0), None);
    assert_eq!(r, handled(Action::Close { window: MAIN }));
}

#[test]
fn primary_click_shows_the_control_center_near_the_cursor() {
    let (mut reg, _, main_token, panel_id, _) = started();
    let r = wndproc(
        &mut reg,
        main_token,
        msg(MAIN, WM_NIACTION, point(1900, 1060), WM_LBUTTONUP as isize),
        None,
    );
    assert_eq!(
        r,
        handled(Action::ShowPopup { window: PANEL, x: 1900, y: 1060, width: 300, height: 200 })
    );
    assert_eq!(
        reg.window(panel_id),
        Some(AppWindow::ControlCenter(ControlCenter { window_handle: PANEL }))
    );
}

#[test]
fn other_notifications_go_to_default_handling() {
    let (mut reg, _, main_token, _, _) = started();
    let r = wndproc(&mut reg, main_token, msg(MAIN, WM_NIACTION, 0, 0x0200), None);
    assert_eq!(r, forwarded());
    let r = wndproc(&mut reg, main_token, msg(MAIN, 0x0100, 0, 0), None);
    assert_eq!(r, forwarded());
}

#[test]
fn deactivated_control_center_hides_and_shows_again() {
    let (mut reg, _, main_token, panel_id, panel_token) = started();
    wndproc(&mut reg, main_token, msg(MAIN, WM_NIACTION, point(5, 6), WM_LBUTTONUP as isize), None);
    let hidden = wndproc(
        &mut reg,
        panel_token,
        msg(PANEL, WM_ACTIVATE, WA_INACTIVE as usize, 0),
        None,
    );
    assert_eq!(hidden, handled(Action::HidePopup { window: PANEL }));
    assert!(reg.is_live(panel_token));
    assert_eq!(
        reg.window(panel_id),
        Some(AppWindow::ControlCenter(ControlCenter { window_handle: PANEL }))
    );
    let shown = wndproc(
        &mut reg,
        main_token,
        msg(MAIN, WM_NIACTION, point(7, 8), WM_LBUTTONUP as isize),
        None,
    );
    assert_eq!(
        shown,
        handled(Action::ShowPopup { window: PANEL, x: 7, y: 8, width: 300, height: 200 })
    );
    assert!(reg.is_live(panel_token));
}

#[test]
fn activation_goes_to_default_handling() {
    let (mut reg, _, _, panel_id, panel_token) = started();
    let r = wndproc(&mut reg, panel_token, msg(PANEL, WM_ACTIVATE, 1, 0), None);
    assert_eq!(r, forwarded());
    let r = wndproc(&mut reg, panel_token, msg(PANEL, WM_ACTIVATE, 2, 0), None);
    assert_eq!(r, forwarded());
    let r = wndproc(&mut reg, panel_token, msg(PANEL, WM_COMMAND, 1, 0), None);
    assert_eq!(r, forwarded());
    assert_eq!(
        reg.window(panel_id),
        Some(AppWindow::ControlCenter(ControlCenter { window_handle: PANEL }))
    );
}

#[test]
fn unbound_window_messages_go_to_default_handling() {
    let mut reg = Registry::new();
    let (main_id, main_token) = RectangularWindow::new(&mut reg);
    for code in [WM_COMMAND, WM_NIACTION, WM_DESTROY, WM_NCDESTROY, WM_ACTIVATE, 0x0024] {
        let r = wndproc(&mut reg, 0, msg(MAIN, code, point(1, 2), WM_CONTEXTMENU as isize), None);
        assert_eq!(r, forwarded());
    }
    assert!(reg.is_live(main_token));
    assert_eq!(
        reg.window(main_id),
        Some(AppWindow::Rectangular(RectangularWindow { window_handle: 0, control_center: None }))
    );
}

#[test]
fn paint_and_close_are_answered_by_the_procedure() {
    let mut reg = Registry::new();
    assert_eq!(wndproc(&mut reg, 0, msg(MAIN, WM_PAINT, 0, 0), None), handled(Action::Paint { window: MAIN }));
    assert_eq!(
        wndproc(&mut reg, 0, msg(MAIN, WM_CLOSE, 0, 0), None),
        handled(Action::Destroy { window: MAIN })
    );
}

#[test]
fn creation_with_no_live_token_goes_to_default_handling() {
    let mut reg = Registry::new();
    let r = wndproc(
        &mut reg,
        0,
        msg(MAIN, WM_CREATE, 0, 0),
        Some(CreateParams { instance: INSTANCE, token: 0 }),
    );
    assert_eq!(r, forwarded());
    let r = wndproc(
        &mut reg,
        0,
        msg(MAIN, WM_CREATE, 0, 0),
        Some(CreateParams { instance: INSTANCE, token: 3 }),
    );
    assert_eq!(r, forwarded());
    assert_eq!(wndproc(&mut reg, 0, msg(MAIN, WM_CREATE, 0, 0), None), forwarded());
}

#[test]
fn main_window_destroy_quits() {
    let (mut reg, _, main_token, _, _) = started();
    let r = wndproc(&mut reg, main_token, msg(MAIN, WM_DESTROY, 0, 0), None);
    assert_eq!(r, handled(Action::Quit));
}

#[test]
fn last_message_unwraps_and_drops_the_main_window() {
    let (mut reg, main_id, main_token, panel_id, panel_token) = started();
    let r = wndproc(&mut reg, main_token, msg(MAIN, WM_NCDESTROY, 0, 0), None);
    assert_eq!(
        r,
        Response { slot: SlotWrite::Clear, action: Action::Nothing, released: Some(MAIN), default: true }
    );
    assert!(!reg.is_live(main_token));
    assert_eq!(reg.window(main_id), None);
    // The control center is still bound to its own window.
    assert!(reg.is_live(panel_token));
    assert!(reg.window(panel_id).is_some());
    let r = wndproc(&mut reg, panel_token, msg(PANEL, WM_NCDESTROY, 0, 0), None);
    assert_eq!(
        r,
        Response { slot: SlotWrite::Clear, action: Action::Nothing, released: None, default: true }
    );
    assert_eq!(reg.window(panel_id), None);
}

#[test]
fn control_center_outlives_its_window_while_the_main_window_holds_it() {
    let (mut reg, _, main_token, panel_id, panel_token) = started();
    wndproc(&mut reg, panel_token, msg(PANEL, WM_NCDESTROY, 0, 0), None);
    assert!(!reg.is_live(panel_token));
    assert!(reg.window(panel_id).is_some());
    let r = wndproc(&mut reg, main_token, msg(MAIN, WM_NCDESTROY, 0, 0), None);
    assert_eq!(r.released, Some(MAIN));
    assert_eq!(reg.window(panel_id), None);
}

#[test]
fn second_destroy_goes_to_default_handling() {
    let (mut reg, main_id, main_token, _, _) = started();
    let first = wndproc(&mut reg, main_token, msg(MAIN, WM_NCDESTROY, 0, 0), None);
    assert_eq!(first.slot, SlotWrite::Clear);
    // A host that did not clear the slot, and one that did.
    let again = wndproc(&mut reg, main_token, msg(MAIN, WM_NCDESTROY, 0, 0), None);
    assert_eq!(again, forwarded());
    let again = wndproc(&mut reg, 0, msg(MAIN, WM_NCDESTROY, 0, 0), None);
    assert_eq!(again, forwarded());
    let stray = wndproc(&mut reg, main_token, msg(MAIN, WM_COMMAND, 1, 0), None);
    assert_eq!(stray, forwarded());
    assert_eq!(reg.window(main_id), None);
}

#[test]
fn wrap_then_unwrap_gives_back_the_same_controller() {
    let mut reg = Registry::new();
    let (id, first) = ControlCenter::new(&mut reg);
    let token = reg.wrap(id);
    assert_ne!(token, first);
    assert!(reg.is_live(token));
    assert_eq!(reg.unwrap(token), id);
    assert!(!reg.is_live(token));
    assert!(reg.is_live(first));
    assert_eq!(
        reg.window(id),
        Some(AppWindow::ControlCenter(ControlCenter { window_handle: 0 }))
    );
}

#[test]
fn release_keeps_a_controller_that_a_reference_still_refers_to() {
    let mut reg = Registry::new();
    let (id, first) = ControlCenter::new(&mut reg);
    let second = reg.wrap(id);
    assert_eq!(reg.unwrap(second), id);
    assert_eq!(reg.release(id), None);
    assert!(reg.window(id).is_some());
    assert_eq!(reg.unwrap(first), id);
    assert_eq!(reg.release(id), None);
    // The creator's reference is still held.
    assert!(reg.window(id).is_some());
    assert_eq!(reg.drop_ref(id), None);
    assert_eq!(reg.window(id), None);
    assert_eq!(reg.outside_refs(id), 0);
}

#[test]
fn creator_reference_keeps_the_control_center_alive() {
    let mut reg = Registry::new();
    let (id, token) = ControlCenter::new(&mut reg);
    assert_eq!(reg.outside_refs(id), 1);
    wndproc(
        &mut reg,
        0,
        msg(PANEL, WM_CREATE, 0, 0),
        Some(CreateParams { instance: INSTANCE, token }),
    );
    let last = wndproc(&mut reg, token, msg(PANEL, WM_NCDESTROY, 0, 0), None);
    assert_eq!(
        last,
        Response { slot: SlotWrite::Clear, action: Action::Nothing, released: None, default: true }
    );
    assert!(!reg.is_live(token));
    assert_eq!(reg.window(id), Some(AppWindow::ControlCenter(ControlCenter { window_handle: PANEL })));
    assert_eq!(reg.drop_ref(id), None);
    assert_eq!(reg.window(id), None);
}

#[test]
fn creator_reference_keeps_the_main_window_alive() {
    let mut reg = Registry::new();
    let (id, token) = RectangularWindow::new(&mut reg);
    wndproc(
        &mut reg,
        0,
        msg(MAIN, WM_CREATE, 0, 0),
        Some(CreateParams { instance: INSTANCE, token }),
    );
    let last = wndproc(&mut reg, token, msg(MAIN, WM_NCDESTROY, 0, 0), None);
    assert_eq!(last.released, None);
    assert!(reg.window(id).is_some());
    assert_eq!(reg.drop_ref(id), Some(MAIN));
    assert_eq!(reg.window(id), None);
}

#[test]
fn creation_on_a_bound_slot_goes_to_default_handling() {
    let (mut reg, main_id, main_token, _, _) = started();
    let other = reg.wrap(main_id);
    let r = wndproc(
        &mut reg,
        main_token,
        msg(MAIN, WM_CREATE, 0, 0),
        Some(CreateParams { instance: INSTANCE, token: other }),
    );
    assert_eq!(r, forwarded());
    assert!(reg.is_live(main_token));
    assert!(reg.is_live(other));
}

#[test]
fn second_creation_gives_up_the_previous_control_center() {
    let (mut reg, main_id, main_token, panel_id, panel_token) = started();
    wndproc(&mut reg, panel_token, msg(PANEL, WM_NCDESTROY, 0, 0), None);
    assert!(reg.window(panel_id).is_some());
    let again = wndproc(
        &mut reg,
        0,
        msg(MAIN, WM_CREATE, 0, 0),
        Some(CreateParams { instance: INSTANCE, token: main_token }),
    );
    assert_eq!(again.slot, SlotWrite::Bind { token: main_token });
    assert_eq!(reg.window(panel_id), None);
    match reg.window(main_id) {
        Some(AppWindow::Rectangular(r)) => {
            let new_panel = r.control_center.unwrap();
            assert_ne!(new_panel, panel_id);
            assert!(reg.window(new_panel).is_some());
        }
        other => panic!("unexpected controller {:?}", other),
    }
}

#[test]
fn registry_starts_empty_with_room() {
    let reg = Registry::new();
    assert!(reg.has_room());
    assert!(!reg.is_live(0));
    assert!(!reg.is_live(1));
    assert_eq!(reg.window(0), None);
}
