//! The window procedure: the one function that the host calls for every message of every window.
//!
//! A window's slot is in one of three states. Unbound: the slot holds no live token, because the
//! creation message has not come yet, or because the window was destroyed. Every message but the
//! creation then goes to default handling. Bound: the creation message stored the token from its
//! creation parameter in the slot, and every message goes to the controller that the token refers
//! to. Destroyed: the last message unwrapped the token, let the controller handle that message,
//! released the reference, and cleared the slot; the token is never live again.
use vstd::prelude::*;

use crate::app_window::{holds, AppWindow};
use crate::control_center::ControlCenter;
use crate::message::{forwarded, handled, Action, CreateParams, Message, Response, SlotWrite};
use crate::registry::{Registry, RegistryView};
use crate::words::{bits32, low_word_of, x_of_param, y_of_param};
use crate::{
    CONTROL_CENTER_HEIGHT, CONTROL_CENTER_WIDTH, WA_INACTIVE, WM_ACTIVATE, WM_CLOSE, WM_CREATE,
    WM_LBUTTONUP, WM_NCDESTROY, WM_NIACTION, WM_PAINT,
};

verus! {

/// Controller `id` after its creation message: the new registry and the action asked for. A main
/// window created a second time gives up its reference to the control center it had before.
pub open spec fn created(v: RegistryView, id: usize, instance: isize, window: isize) -> (
    RegistryView,
    Action,
) {
    match v.get(id) {
        AppWindow::Rectangular(r) => {
            let (v1, r1, a) = r.on_create(v, instance, window);
            let v2 = v1.with_window(id, Some(AppWindow::Rectangular(r1)));
            match r.control_center {
                Some(q) => (v2.released(q).0, a),
                None => (v2, a),
            }
        },
        AppWindow::ControlCenter(_) => (
            v.with_window(
                id,
                Some(AppWindow::ControlCenter(ControlCenter { window_handle: window })),
            ),
            Action::Nothing,
        ),
    }
}

/// Controller `id` on a message other than its creation: the action asked for, and whether the
/// message goes on to default handling. No controller changes.
pub open spec fn dispatched(v: RegistryView, id: usize, m: Message) -> (Action, bool) {
    match v.get(id) {
        AppWindow::Rectangular(r) => r.on_message(v, m),
        AppWindow::ControlCenter(c) => c.on_message(m),
    }
}

/// What the window procedure does with message `m`, when the window's slot holds `slot` (0 for
/// null) and a creation message carries `create`: the new registry and the response.
pub open spec fn route(v: RegistryView, slot: usize, m: Message, create: Option<CreateParams>) -> (
    RegistryView,
    Response,
) {
    if m.message == WM_CREATE {
        match create {
            Some(c) => if !v.is_live(slot) && v.is_live(c.token) {
                let (v1, a) = created(v, v.bound(c.token), c.instance, m.window);
                (
                    v1,
                    Response {
                        slot: SlotWrite::Bind { token: c.token },
                        action: a,
                        released: None,
                        default: false,
                    },
                )
            } else {
                (v, forwarded())
            },
            None => (v, forwarded()),
        }
    } else if m.message == WM_PAINT {
        (v, handled(Action::Paint { window: m.window }))
    } else if m.message == WM_CLOSE {
        (v, handled(Action::Destroy { window: m.window }))
    } else if m.message == WM_NCDESTROY {
        if v.is_live(slot) {
            let (v1, id) = v.unwrapped(slot);
            let (a, d) = dispatched(v1, id, m);
            let (v2, released) = v1.released(id);
            (v2, Response { slot: SlotWrite::Clear, action: a, released, default: d })
        } else {
            (v, forwarded())
        }
    } else if v.is_live(slot) {
        let (a, d) = dispatched(v, v.bound(slot), m);
        (v, Response { slot: SlotWrite::Keep, action: a, released: None, default: d })
    } else {
        (v, forwarded())
    }
}

/// Lets controller `id` handle its creation message.
fn create_window(registry: &mut Registry, id: usize, instance: isize, window: isize) -> (r: Action)
    requires
        old(registry)@.wf(),
        old(registry)@.has_room(),
        old(registry)@.has(id),
    ensures
        (final(registry)@, r) == created(old(registry)@, id, instance, window),
        final(registry)@.wf(),
{
    let ghost v0 = registry@;
    match registry.window(id).unwrap() {
        AppWindow::Rectangular(r) => {
            let previous = r.control_center;
            let mut w = r;
            let action = w.handle_create(registry, instance, window);
            registry.replace(id, AppWindow::Rectangular(w));
            match previous {
                Some(q) => {
                    assert(holds(v0.windows[id as int], q));
                    registry.release(q);
                },
                None => {},
            }
            action
        },
        AppWindow::ControlCenter(c) => {
            let mut w = c;
            w.handle_create(window);
            registry.replace(id, AppWindow::ControlCenter(w));
            Action::Nothing
        },
    }
}

/// Lets controller `id` handle a message other than its creation.
fn dispatch(registry: &Registry, id: usize, m: Message) -> (r: (Action, bool))
    requires
        registry@.wf(),
        registry@.has(id),
    ensures
        r == dispatched(registry@, id, m),
{
    match registry.window(id).unwrap() {
        AppWindow::Rectangular(r) => r.process_message(registry, m),
        AppWindow::ControlCenter(c) => c.process_message(m),
    }
}

/// Decides what the window procedure does with message `m`.
///
/// `slot` is what the window's slot holds, 0 for null; `create` is what a creation message
/// carries, and is not read for other messages. A creation message on an unbound slot binds its
/// token, if live, to the window; painting and close requests are answered here; the last
/// message unwraps the token in the slot and releases the controller's reference; every other
/// message goes to the bound controller. A slot with no live token sends the message to default
/// handling unchanged. Only a creation message may add a controller and a token, so only it needs
/// room for them.
pub fn wndproc(
    registry: &mut Registry,
    slot: usize,
    m: Message,
    create: Option<CreateParams>,
) -> (r: Response)
    requires
        old(registry)@.wf(),
        m.message == WM_CREATE ==> old(registry)@.has_room(),
    ensures
        (final(registry)@, r) == route(old(registry)@, slot, m, create),
        final(registry)@.wf(),
{
    if m.message == WM_CREATE {
        match create {
            Some(c) => {
                if !registry.is_live(slot) && registry.is_live(c.token) {
                    let id = registry.bound(c.token);
                    let action = create_window(registry, id, c.instance, m.window);
                    Response {
                        slot: SlotWrite::Bind { token: c.token },
                        action,
                        released: None,
                        default: false,
                    }
                } else {
                    Response {
                        slot: SlotWrite::Keep,
                        action: Action::Nothing,
                        released: None,
                        default: true,
                    }
                }
            },
            None => Response {
                slot: SlotWrite::Keep,
                action: Action::Nothing,
                released: None,
                default: true,
            },
        }
    } else if m.message == WM_PAINT {
        Response {
            slot: SlotWrite::Keep,
            action: Action::Paint { window: m.window },
            released: None,
            default: false,
        }
    } else if m.message == WM_CLOSE {
        Response {
            slot: SlotWrite::Keep,
            action: Action::Destroy { window: m.window },
            released: None,
            default: false,
        }
    } else if m.message == WM_NCDESTROY {
        if registry.is_live(slot) {
            let id = registry.unwrap(slot);
            let (action, default) = dispatch(registry, id, m);
            let released = registry.release(id);
            Response { slot: SlotWrite::Clear, action, released, default }
        } else {
            Response {
                slot: SlotWrite::Keep,
                action: Action::Nothing,
                released: None,
                default: true,
            }
        }
    } else if registry.is_live(slot) {
        let id = registry.bound(slot);
        let (action, default) = dispatch(registry, id, m);
        Response { slot: SlotWrite::Keep, action, released: None, default }
    } else {
        Response { slot: SlotWrite::Keep, action: Action::Nothing, released: None, default: true }
    }
}

/// A message for a window whose slot holds no live token, other than a creation message, calls
/// no controller and leaves the registry and the slot as they are. Unless it is a paint or close
/// request, which the procedure answers itself, it goes to default handling unchanged.
pub proof fn lemma_unbound_forwards(
    v: RegistryView,
    slot: usize,
    m: Message,
    create: Option<CreateParams>,
)
    requires
        !v.is_live(slot),
        m.message != WM_CREATE,
    ensures
        route(v, slot, m, create).0 == v,
        route(v, slot, m, create).1.slot == SlotWrite::Keep,
        route(v, slot, m, create).1.released is None,
        m.message != WM_PAINT && m.message != WM_CLOSE ==> route(v, slot, m, create).1
            == forwarded(),
{
}

/// The last message of a bound window unwraps its token and is handled by the controller that the
/// token referred to: the slot is cleared and the token is no longer live. A second last message,
/// or any other message but a creation, that comes after it with the same slot or a cleared one
/// calls no controller and goes to default handling.
pub proof fn lemma_destroyed_once(
    v: RegistryView,
    slot: usize,
    last: Message,
    later: Message,
    create: Option<CreateParams>,
)
    requires
        v.is_live(slot),
        last.message == WM_NCDESTROY,
        later.message != WM_CREATE,
        later.message != WM_PAINT,
        later.message != WM_CLOSE,
    ensures
        (route(v, slot, last, create).1.action, route(v, slot, last, create).1.default)
            == dispatched(v.unwrapped(slot).0, v.bound(slot), last),
        route(v, slot, last, create).1.slot == SlotWrite::Clear,
        !route(v, slot, last, create).0.is_live(slot),
        route(route(v, slot, last, create).0, slot, later, create) == (
            route(v, slot, last, create).0,
            forwarded(),
        ),
        route(route(v, slot, last, create).0, 0, later, create) == (
            route(v, slot, last, create).0,
            forwarded(),
        ),
{
    let (v1, id) = v.unwrapped(slot);
    let (v2, released) = v1.released(id);
    assert(v2.bindings == v1.bindings);
}

/// The tokens of a registry after a message: no more are live than before, but for the new ones
/// that a creation message wrapped.
proof fn lemma_route_bindings(
    v: RegistryView,
    slot: usize,
    m: Message,
    create: Option<CreateParams>,
)
    ensures
        ({
            let w = route(v, slot, m, create).0;
            ||| w.bindings == v.bindings
            ||| m.message == WM_CREATE && w.bindings == v.bindings.push(
                Some(v.windows.len() as usize),
            )
            ||| m.message == WM_NCDESTROY && v.is_live(slot) && w.bindings == v.bindings.update(
                slot - 1,
                None,
            )
        }),
{
    if m.message == WM_CREATE {
        match create {
            Some(c) => if !v.is_live(slot) && v.is_live(c.token) {
                let id = v.bound(c.token);
                match v.get(id) {
                    AppWindow::Rectangular(r) => {
                        let (v1, r1, a) = r.on_create(v, c.instance, m.window);
                        let v2 = v1.with_window(id, Some(AppWindow::Rectangular(r1)));
                        assert(v2.bindings == v.bindings.push(Some(v.windows.len() as usize)));
                        match r.control_center {
                            Some(q) => {
                                assert(v2.released(q).0.bindings == v2.bindings);
                            },
                            None => {},
                        }
                    },
                    AppWindow::ControlCenter(_) => {},
                }
            },
            None => {},
        }
    } else if m.message == WM_NCDESTROY {
        if v.is_live(slot) {
            let (v1, id) = v.unwrapped(slot);
            assert(v1.released(id).0.bindings == v1.bindings);
        }
    }
}

/// Whether every token of `v` that is not live is still not live in `w`, and `w` numbers at
/// least as many tokens.
pub open spec fn retires_for_good(v: RegistryView, w: RegistryView) -> bool {
    &&& w.bindings.len() >= v.bindings.len()
    &&& forall|k: int|
        0 <= k < v.bindings.len() && v.bindings[k] is None ==> #[trigger] w.bindings[k] is None
}

/// A token that was handed out and then unwrapped never becomes live again, whatever message
/// comes: no token is unwrapped twice.
pub proof fn lemma_token_retired_for_good(
    v: RegistryView,
    slot: usize,
    m: Message,
    create: Option<CreateParams>,
)
    ensures
        retires_for_good(v, route(v, slot, m, create).0),
{
    lemma_route_bindings(v, slot, m, create);
}

/// A live token stays live, and refers to the same controller, through every message but the
/// last message of the window whose slot holds it.
pub proof fn lemma_live_stays_live(
    v: RegistryView,
    slot: usize,
    m: Message,
    create: Option<CreateParams>,
    token: usize,
)
    requires
        v.is_live(token),
        !(m.message == WM_NCDESTROY && slot == token),
    ensures
        route(v, slot, m, create).0.is_live(token),
        route(v, slot, m, create).0.bound(token) == v.bound(token),
{
    lemma_route_bindings(v, slot, m, create);
    let w = route(v, slot, m, create).0;
    if m.message == WM_CREATE && w.bindings == v.bindings.push(Some(v.windows.len() as usize)) {
        assert(w.bindings[token - 1] == v.bindings[token - 1]);
    }
}

/// The registry after the messages of `steps` were delivered in order; each step is the slot that
/// the window held, the message, and what a creation message carries.
pub open spec fn run(
    v: RegistryView,
    steps: Seq<(usize, Message, Option<CreateParams>)>,
) -> RegistryView
    decreases steps.len(),
{
    if steps.len() == 0 {
        v
    } else {
        run(route(v, steps[0].0, steps[0].1, steps[0].2).0, steps.drop_first())
    }
}

/// How many of the messages of `steps` unwrap `token`: a last message delivered while the slot
/// holds `token` and `token` is live.
pub open spec fn unwraps(
    v: RegistryView,
    steps: Seq<(usize, Message, Option<CreateParams>)>,
    token: usize,
) -> nat
    decreases steps.len(),
{
    if steps.len() == 0 {
        0
    } else {
        let here: nat = if steps[0].1.message == WM_NCDESTROY && steps[0].0 == token && v.is_live(
            token,
        ) {
            1
        } else {
            0
        };
        here + unwraps(route(v, steps[0].0, steps[0].1, steps[0].2).0, steps.drop_first(), token)
    }
}

/// Delivering `a` and then `b` unwraps a token as often as the two deliveries do apart.
proof fn lemma_unwraps_split(
    v: RegistryView,
    a: Seq<(usize, Message, Option<CreateParams>)>,
    b: Seq<(usize, Message, Option<CreateParams>)>,
    token: usize,
)
    ensures
        unwraps(v, a + b, token) == unwraps(v, a, token) + unwraps(run(v, a), b, token),
        run(v, a + b) == run(run(v, a), b),
    decreases a.len(),
{
    if a.len() == 0 {
        assert(a + b =~= b);
    } else {
        let v1 = route(v, a[0].0, a[0].1, a[0].2).0;
        assert((a + b)[0] == a[0]);
        assert((a + b).drop_first() =~= a.drop_first() + b);
        lemma_unwraps_split(v1, a.drop_first(), b, token);
    }
}

/// A token that was handed out and is no longer live is unwrapped by none of the messages that
/// follow, and is still not live after them.
pub proof fn lemma_retired_over_run(
    v: RegistryView,
    steps: Seq<(usize, Message, Option<CreateParams>)>,
    token: usize,
)
    requires
        1 <= token <= v.bindings.len(),
        !v.is_live(token),
    ensures
        unwraps(v, steps, token) == 0,
        !run(v, steps).is_live(token),
    decreases steps.len(),
{
    if steps.len() > 0 {
        let v1 = route(v, steps[0].0, steps[0].1, steps[0].2).0;
        lemma_token_retired_for_good(v, steps[0].0, steps[0].1, steps[0].2);
        assert(v.bindings[token - 1] is None);
        assert(v1.bindings[token - 1] is None);
        lemma_retired_over_run(v1, steps.drop_first(), token);
    }
}

/// Over any sequence of messages, a token is unwrapped at most once: a wrap is matched by one
/// unwrap, never two.
pub proof fn lemma_unwrapped_at_most_once(
    v: RegistryView,
    steps: Seq<(usize, Message, Option<CreateParams>)>,
    token: usize,
)
    ensures
        unwraps(v, steps, token) <= 1,
    decreases steps.len(),
{
    if steps.len() > 0 {
        let (slot, m, create) = steps[0];
        let v1 = route(v, slot, m, create).0;
        if m.message == WM_NCDESTROY && slot == token && v.is_live(token) {
            lemma_destroyed_once(v, slot, m, m, create);
            lemma_token_retired_for_good(v, slot, m, create);
            lemma_retired_over_run(v1, steps.drop_first(), token);
        } else {
            lemma_unwrapped_at_most_once(v1, steps.drop_first(), token);
        }
    }
}

/// Messages none of which is the last message of the window that holds `token` leave it live and
/// unwrap it never.
proof fn lemma_bound_through(
    v: RegistryView,
    steps: Seq<(usize, Message, Option<CreateParams>)>,
    token: usize,
)
    requires
        v.is_live(token),
        forall|i: int|
            0 <= i < steps.len() ==> !((#[trigger] steps[i]).1.message == WM_NCDESTROY && steps[i].0
                == token),
    ensures
        unwraps(v, steps, token) == 0,
        run(v, steps).is_live(token),
        run(v, steps).bound(token) == v.bound(token),
    decreases steps.len(),
{
    if steps.len() > 0 {
        let (slot, m, create) = steps[0];
        lemma_live_stays_live(v, slot, m, create, token);
        let rest = steps.drop_first();
        assert forall|i: int|
            0 <= i < rest.len() implies !((#[trigger] rest[i]).1.message == WM_NCDESTROY
            && rest[i].0 == token) by {
            assert(rest[i] == steps[i + 1]);
        }
        lemma_bound_through(route(v, slot, m, create).0, rest, token);
    }
}

/// Over a window's whole life its token is unwrapped exactly once. The creation message, on an
/// unbound slot, binds the token that a wrap handed out; messages follow, none of which is this
/// window's last; then its last message comes. The token is unwrapped by that last message and
/// by no other, and is not live afterwards.
pub proof fn lemma_window_life_unwrapped_once(
    v: RegistryView,
    creation: Message,
    params: CreateParams,
    middle: Seq<(usize, Message, Option<CreateParams>)>,
    last: Message,
)
    requires
        v.is_live(params.token),
        creation.message == WM_CREATE,
        forall|i: int|
            0 <= i < middle.len() ==> !((#[trigger] middle[i]).1.message == WM_NCDESTROY
                && middle[i].0 == params.token),
        last.message == WM_NCDESTROY,
    ensures
        route(v, 0, creation, Some(params)).1.slot == (SlotWrite::Bind { token: params.token }),
        unwraps(
            v,
            seq![(0usize, creation, Some(params))] + middle + seq![
                (params.token, last, None::<CreateParams>),
            ],
            params.token,
        ) == 1,
        !run(
            v,
            seq![(0usize, creation, Some(params))] + middle + seq![
                (params.token, last, None::<CreateParams>),
            ],
        ).is_live(params.token),
{
    let t = params.token;
    let first = seq![(0usize, creation, Some(params))];
    let end = seq![(t, last, None::<CreateParams>)];
    let v1 = route(v, 0, creation, Some(params)).0;
    lemma_live_stays_live(v, 0, creation, Some(params), t);
    assert(first.drop_first() =~= Seq::<(usize, Message, Option<CreateParams>)>::empty());
    assert(first[0] == (0usize, creation, Some(params)));
    assert(run(v1, first.drop_first()) == v1);
    assert(unwraps(v1, first.drop_first(), t) == 0);
    assert(run(v, first) == v1);
    assert(unwraps(v, first, t) == 0);
    lemma_bound_through(v1, middle, t);
    let v2 = run(v1, middle);
    lemma_destroyed_once(v2, t, last, last, None);
    assert(end.drop_first() =~= Seq::<(usize, Message, Option<CreateParams>)>::empty());
    assert(end[0] == (t, last, None::<CreateParams>));
    let v3 = route(v2, t, last, None).0;
    assert(run(v3, end.drop_first()) == v3);
    assert(unwraps(v3, end.drop_first(), t) == 0);
    assert(unwraps(v2, end, t) == 1);
    assert(run(v2, end) == route(v2, t, last, None).0);
    lemma_unwraps_split(v, first, middle, t);
    lemma_unwraps_split(v, first + middle, end, t);
}

/// Releasing a controller leaves every controller that a reference outside the table holds, and
/// those references themselves, as they were.
proof fn lemma_released_keeps_held(v: RegistryView, x: usize, id: usize)
    requires
        v.outside.len() == v.windows.len(),
        v.has(id),
        v.outside[id as int] > 0,
        x < v.windows.len(),
        forall|p: usize| holds(v.windows[x as int], p) ==> p < v.windows.len(),
    ensures
        v.released(x).0.has(id),
        v.released(x).0.outside == v.outside,
        v.released(x).0.bindings == v.bindings,
{
    if !v.held(x) {
        assert(x != id);
        let w = v.with_window(x, None);
        assert(w.windows[id as int] == v.windows[id as int]);
        assert(w.has(id));
        assert(w.outside == v.outside);
        match v.windows[x as int] {
            Some(AppWindow::Rectangular(r)) => {
                match r.control_center {
                    Some(p) => {
                        assert(holds(v.windows[x as int], p));
                        assert(p < v.windows.len());
                        assert(w.held(id));
                        if !w.held(p) {
                            assert(p != id);
                            let u = w.with_window(p, None);
                            assert(u.windows[id as int] == v.windows[id as int]);
                        }
                    },
                    None => {},
                }
            },
            _ => {},
        }
    }
}

/// A controller to which its creator still holds a reference outlives every message, its
/// window's last message included: it is never dropped while that reference is held.
pub proof fn lemma_outside_reference_keeps_alive(
    v: RegistryView,
    slot: usize,
    m: Message,
    create: Option<CreateParams>,
    id: usize,
)
    requires
        v.wf(),
        v.has(id),
        v.outside[id as int] > 0,
    ensures
        route(v, slot, m, create).0.has(id),
        route(v, slot, m, create).0.outside[id as int] == v.outside[id as int],
{
    if m.message == WM_CREATE {
        match create {
            Some(c) => if !v.is_live(slot) && v.is_live(c.token) {
                let k = v.bound(c.token);
                match v.get(k) {
                    AppWindow::Rectangular(r) => {
                        let (v1, r1, a) = r.on_create(v, c.instance, m.window);
                        let v2 = v1.with_window(k, Some(AppWindow::Rectangular(r1)));
                        assert(v2.has(id));
                        assert(v2.outside[id as int] == v.outside[id as int]);
                        match r.control_center {
                            Some(q) => {
                                assert(holds(v.windows[k as int], q));
                                assert(v.is_panel(q));
                                assert(v2.windows[q as int] == v.windows[q as int]);
                                lemma_released_keeps_held(v2, q, id);
                            },
                            None => {},
                        }
                    },
                    AppWindow::ControlCenter(_) => {},
                }
            },
            None => {},
        }
    } else if m.message == WM_NCDESTROY {
        if v.is_live(slot) {
            let (v1, k) = v.unwrapped(slot);
            assert(v.bindings[slot - 1] is Some);
            assert forall|p: usize| holds(v1.windows[k as int], p) implies p < v1.windows.len() by {
                assert(holds(v.windows[k as int], p));
            }
            lemma_released_keeps_held(v1, k, id);
        }
    }
}

/// A control center that lost activation asks to be hidden and stays bound to its window, and
/// the next primary click on the notification icon asks to show that same window again, near the
/// click. Neither message changes any controller.
pub proof fn lemma_hide_then_show(
    v: RegistryView,
    main_token: usize,
    panel_token: usize,
    deactivate: Message,
    click: Message,
    create: Option<CreateParams>,
)
    requires
        v.wf(),
        v.is_live(main_token),
        v.is_live(panel_token),
        v.get(v.bound(main_token)) matches AppWindow::Rectangular(r) && r.control_center == Some(
            v.bound(panel_token),
        ),
        deactivate.message == WM_ACTIVATE,
        low_word_of(bits32(deactivate.wparam as int)) == WA_INACTIVE,
        click.message == WM_NIACTION,
        low_word_of(bits32(click.lparam as int)) == WM_LBUTTONUP,
    ensures
        ({
            let handle = v.get(v.bound(panel_token))->ControlCenter_0.window_handle;
            let (v1, r1) = route(v, panel_token, deactivate, create);
            let (v2, r2) = route(v1, main_token, click, create);
            &&& r1 == handled(Action::HidePopup { window: handle })
            &&& v1 == v
            &&& r2 == handled(
                Action::ShowPopup {
                    window: handle,
                    x: x_of_param(click.wparam),
                    y: y_of_param(click.wparam),
                    width: CONTROL_CENTER_WIDTH,
                    height: CONTROL_CENTER_HEIGHT,
                },
            )
            &&& v2 == v
        }),
{
    let p = v.bound(panel_token);
    let k = v.bound(main_token);
    assert(holds(v.windows[k as int], p));
    assert(v.is_panel(p));
}

} // verus!
