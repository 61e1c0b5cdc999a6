//! The ownership bridge between controllers and the host's window slots.
//!
//! Controllers live in a table and are named by their index there. A controller is kept alive by
//! counted references of three kinds: those held outside the table by whoever created it, those
//! that a main window holds to its control center, and binding tokens. A binding token names one
//! entry of a second table; a token is what the host keeps in a window's slot. Wrapping adds such
//! a reference and hands out a fresh token; unwrapping takes the reference back out and retires
//! the token for good. A controller is dropped when no reference to it is left.
use vstd::prelude::*;

use crate::app_window::{holds, AppWindow};

verus! {

/// The controllers, the references held outside the table, and the binding tokens.
pub struct Registry {
    windows: Vec<Option<AppWindow>>,
    outside: Vec<usize>,
    bindings: Vec<Option<usize>>,
}

/// The contents of a [`Registry`].
///
/// `windows[id]` is the controller with that id, or `None` once it was dropped; `outside[id]` is
/// the number of references to it held outside the table; `bindings[token - 1]` is the
/// controller that the token refers to, or `None` once the token was unwrapped.
pub struct RegistryView {
    pub windows: Seq<Option<AppWindow>>,
    pub outside: Seq<usize>,
    pub bindings: Seq<Option<usize>>,
}

impl View for Registry {
    type V = RegistryView;

    closed spec fn view(&self) -> RegistryView {
        RegistryView { windows: self.windows@, outside: self.outside@, bindings: self.bindings@ }
    }
}

impl RegistryView {
    /// Whether `token` was handed out by a wrap and not unwrapped since.
    pub open spec fn is_live(self, token: usize) -> bool {
        1 <= token <= self.bindings.len() && self.bindings[token - 1] is Some
    }

    /// The controller that a live token refers to.
    pub open spec fn bound(self, token: usize) -> usize {
        self.bindings[token - 1]->0
    }

    /// Whether controller `id` exists and was not dropped.
    pub open spec fn has(self, id: usize) -> bool {
        id < self.windows.len() && self.windows[id as int] is Some
    }

    /// Whether controller `id` is a control center.
    pub open spec fn is_panel(self, id: usize) -> bool {
        id < self.windows.len() && self.windows[id as int] matches Some(AppWindow::ControlCenter(_))
    }

    /// The controller `id`, where it exists.
    pub open spec fn get(self, id: usize) -> AppWindow {
        self.windows[id as int]->0
    }

    /// Every reference refers to a controller that exists, and every reference that a main
    /// window holds refers to a control center.
    pub open spec fn wf(self) -> bool {
        &&& self.outside.len() == self.windows.len()
        &&& forall|k: int|
            0 <= k < self.bindings.len() && (#[trigger] self.bindings[k]) is Some ==> self.has(
                self.bindings[k]->0,
            )
        &&& forall|k: int, p: usize|
            0 <= k < self.windows.len() && #[trigger] holds(self.windows[k], p) ==> self.is_panel(p)
        &&& forall|k: int|
            0 <= k < self.windows.len() && #[trigger] self.outside[k] > 0
                ==> self.windows[k] is Some
    }

    /// Whether one more controller and one more token can be numbered.
    pub open spec fn has_room(self) -> bool {
        self.windows.len() < usize::MAX && self.bindings.len() < usize::MAX
    }

    /// Whether a live token refers to controller `id`.
    pub open spec fn bound_to(self, id: usize) -> bool {
        exists|k: int| 0 <= k < self.bindings.len() && self.bindings[k] == Some(id)
    }

    /// Whether a main window holds a reference to controller `id`.
    pub open spec fn shared(self, id: usize) -> bool {
        exists|k: int| 0 <= k < self.windows.len() && #[trigger] holds(self.windows[k], id)
    }

    /// Whether any reference to controller `id` is left.
    pub open spec fn held(self, id: usize) -> bool {
        self.bound_to(id) || self.shared(id) || self.outside[id as int] > 0
    }

    /// The registry with entry `id` set to `w`.
    pub open spec fn with_window(self, id: usize, w: Option<AppWindow>) -> RegistryView {
        RegistryView { windows: self.windows.update(id as int, w), ..self }
    }

    /// A new controller added, with no reference to it yet, and its id.
    pub open spec fn inserted(self, w: AppWindow) -> (RegistryView, usize) {
        (
            RegistryView {
                windows: self.windows.push(Some(w)),
                outside: self.outside.push(0),
                ..self
            },
            self.windows.len() as usize,
        )
    }

    /// A new reference to controller `id` added, and the token that names it.
    pub open spec fn wrapped(self, id: usize) -> (RegistryView, usize) {
        (
            RegistryView { bindings: self.bindings.push(Some(id)), ..self },
            (self.bindings.len() + 1) as usize,
        )
    }

    /// The reference that `token` names taken back out, and the controller it referred to.
    pub open spec fn unwrapped(self, token: usize) -> (RegistryView, usize) {
        (
            RegistryView { bindings: self.bindings.update(token - 1, None), ..self },
            self.bound(token),
        )
    }

    /// A new controller added with one reference wrapped into a token: the registry, the
    /// controller's id and the token.
    pub open spec fn added(self, w: AppWindow) -> (RegistryView, usize, usize) {
        let (v, id) = self.inserted(w);
        let (v2, token) = v.wrapped(id);
        (v2, id, token)
    }

    /// A new controller added with one reference wrapped into a token and one handed to the
    /// caller: the registry, the controller's id and the token.
    pub open spec fn created_held(self, w: AppWindow) -> (RegistryView, usize, usize) {
        let (v, id, token) = self.added(w);
        (RegistryView { outside: v.outside.update(id as int, 1), ..v }, id, token)
    }

    /// Controller `id` dropped if no reference to it is left. A main window that is dropped gives
    /// up its reference to the control center, which is dropped too if that was the last one.
    /// The second component is the main window whose resources are to be torn down.
    pub open spec fn released(self, id: usize) -> (RegistryView, Option<isize>) {
        if self.held(id) {
            (self, None)
        } else {
            match self.windows[id as int] {
                Some(AppWindow::Rectangular(r)) => {
                    let v = self.with_window(id, None);
                    match r.control_center {
                        Some(p) => if v.held(p) {
                            (v, Some(r.window_handle))
                        } else {
                            (v.with_window(p, None), Some(r.window_handle))
                        },
                        None => (v, Some(r.window_handle)),
                    }
                },
                _ => (self.with_window(id, None), None),
            }
        }
    }

    /// One reference to controller `id` held outside the table given up, and the controller
    /// released.
    pub open spec fn ref_dropped(self, id: usize) -> (RegistryView, Option<isize>) {
        RegistryView {
            outside: self.outside.update(id as int, (self.outside[id as int] - 1) as usize),
            ..self
        }.released(id)
    }
}

/// Dropping a controller that no reference is left to keeps the registry well-formed.
proof fn lemma_drop_unheld(v: RegistryView, id: usize)
    requires
        v.wf(),
        !v.held(id),
        id < v.windows.len(),
    ensures
        v.with_window(id, None).wf(),
{
    let w = v.with_window(id, None);
    assert forall|k: int|
        0 <= k < w.bindings.len() && (#[trigger] w.bindings[k]) is Some implies w.has(
        w.bindings[k]->0,
    ) by {
        assert(v.bindings[k] != Some(id));
    }
    assert forall|k: int, q: usize|
        0 <= k < w.windows.len() && #[trigger] holds(w.windows[k], q) implies w.is_panel(q) by {
        assert(holds(v.windows[k], q));
        assert(!holds(v.windows[k], id));
    }
}

/// Unwrapping the token that a wrap has just handed out gives back the controller that was
/// wrapped, and leaves every controller and every reference held outside the table as it was.
pub proof fn lemma_wrap_unwrap_identity(v: RegistryView, id: usize)
    requires
        v.wf(),
        v.has(id),
        v.bindings.len() < usize::MAX,
    ensures
        v.wrapped(id).0.is_live(v.wrapped(id).1),
        v.wrapped(id).0.unwrapped(v.wrapped(id).1).1 == id,
        v.wrapped(id).0.unwrapped(v.wrapped(id).1).0.windows == v.windows,
        v.wrapped(id).0.unwrapped(v.wrapped(id).1).0.outside == v.outside,
        !v.wrapped(id).0.unwrapped(v.wrapped(id).1).0.is_live(v.wrapped(id).1),
{
}

impl Registry {
    /// An empty registry.
    pub fn new() -> (r: Registry)
        ensures
            r@.windows == Seq::<Option<AppWindow>>::empty(),
            r@.outside == Seq::<usize>::empty(),
            r@.bindings == Seq::<Option<usize>>::empty(),
            r@.wf(),
    {
        Registry { windows: Vec::new(), outside: Vec::new(), bindings: Vec::new() }
    }

    /// Whether one more controller and one more token can be numbered.
    pub fn has_room(&self) -> (r: bool)
        ensures
            r == self@.has_room(),
    {
        self.windows.len() < usize::MAX && self.bindings.len() < usize::MAX
    }

    /// Whether `token` is live.
    pub fn is_live(&self, token: usize) -> (r: bool)
        ensures
            r == self@.is_live(token),
    {
        token >= 1 && token <= self.bindings.len() && self.bindings[token - 1].is_some()
    }

    /// The controller `id`, or `None` where there is none.
    pub fn window(&self, id: usize) -> (r: Option<AppWindow>)
        ensures
            r == (if id < self@.windows.len() {
                self@.windows[id as int]
            } else {
                None
            }),
    {
        if id < self.windows.len() {
            self.windows[id]
        } else {
            None
        }
    }

    /// The number of references to controller `id` held outside the table, 0 where there is no
    /// such controller.
    pub fn outside_refs(&self, id: usize) -> (r: usize)
        requires
            self@.wf(),
        ensures
            r == (if id < self@.windows.len() {
                self@.outside[id as int]
            } else {
                0
            }),
    {
        if id < self.outside.len() {
            self.outside[id]
        } else {
            0
        }
    }

    /// The controller that a live token refers to.
    pub fn bound(&self, token: usize) -> (r: usize)
        requires
            self@.is_live(token),
        ensures
            r == self@.bound(token),
    {
        self.bindings[token - 1].unwrap()
    }

    /// Adds a controller with no reference to it yet, and returns its id.
    fn insert(&mut self, w: AppWindow) -> (r: usize)
        requires
            old(self)@.wf(),
            old(self)@.windows.len() < usize::MAX,
            forall|p: usize| holds(Some(w), p) ==> old(self)@.is_panel(p),
        ensures
            (final(self)@, r) == old(self)@.inserted(w),
            final(self)@.wf(),
    {
        let id = self.windows.len();
        self.windows.push(Some(w));
        self.outside.push(0);
        proof {
            let v = self@;
            assert forall|k: int, p: usize|
                0 <= k < v.windows.len() && #[trigger] holds(v.windows[k], p) implies v.is_panel(
                p,
            ) by {
                if k < id {
                    assert(holds(old(self)@.windows[k], p));
                }
            }
            assert forall|k: int|
                0 <= k < v.windows.len() && #[trigger] v.outside[k] > 0
                implies v.windows[k] is Some by {
                if k < id {
                    assert(old(self)@.outside[k] > 0);
                }
            }
        }
        id
    }

    /// Wraps a new counted reference to controller `id` into a fresh token.
    pub fn wrap(&mut self, id: usize) -> (token: usize)
        requires
            old(self)@.wf(),
            old(self)@.has(id),
            old(self)@.bindings.len() < usize::MAX,
        ensures
            (final(self)@, token) == old(self)@.wrapped(id),
            final(self)@.wf(),
    {
        self.bindings.push(Some(id));
        self.bindings.len()
    }

    /// Adds a controller and wraps a first reference to it, for the creation parameter of its
    /// window. Returns the controller's id and the token; the token is the only reference.
    pub(crate) fn add(&mut self, w: AppWindow) -> (r: (usize, usize))
        requires
            old(self)@.wf(),
            old(self)@.has_room(),
            forall|p: usize| holds(Some(w), p) ==> old(self)@.is_panel(p),
        ensures
            (final(self)@, r.0, r.1) == old(self)@.added(w),
            final(self)@.wf(),
    {
        let id = self.insert(w);
        let token = self.wrap(id);
        (id, token)
    }

    /// Adds a controller, wraps a first reference to it for the creation parameter of its
    /// window, and hands one more reference to the caller, to be given up with
    /// [`Registry::drop_ref`]. Returns the controller's id and the token.
    pub fn add_held(&mut self, w: AppWindow) -> (r: (usize, usize))
        requires
            old(self)@.wf(),
            old(self)@.has_room(),
            forall|p: usize| holds(Some(w), p) ==> old(self)@.is_panel(p),
        ensures
            (final(self)@, r.0, r.1) == old(self)@.created_held(w),
            final(self)@.wf(),
    {
        let (id, token) = self.add(w);
        self.outside[id] = 1;
        (id, token)
    }

    /// Puts `w` in the place of controller `id`.
    pub(crate) fn replace(&mut self, id: usize, w: AppWindow)
        requires
            old(self)@.wf(),
            old(self)@.has(id),
            old(self)@.is_panel(id) ==> w is ControlCenter,
            forall|p: usize| holds(Some(w), p) ==> old(self)@.is_panel(p),
        ensures
            final(self)@ == old(self)@.with_window(id, Some(w)),
            final(self)@.wf(),
    {
        let ghost v0 = self@;
        self.windows[id] = Some(w);
        proof {
            let v = self@;
            assert forall|k: int, q: usize|
                0 <= k < v.windows.len() && #[trigger] holds(v.windows[k], q) implies v.is_panel(
                q,
            ) by {
                if k != id {
                    assert(holds(v0.windows[k], q));
                }
            }
            assert forall|k: int|
                0 <= k < v.windows.len() && #[trigger] v.outside[k] > 0
                implies v.windows[k] is Some by {
                assert(v0.outside[k] > 0);
            }
        }
    }

    /// Takes the reference that `token` names back out, retiring the token, and returns the
    /// controller that it referred to.
    pub fn unwrap(&mut self, token: usize) -> (id: usize)
        requires
            old(self)@.wf(),
            old(self)@.is_live(token),
        ensures
            (final(self)@, id) == old(self)@.unwrapped(token),
            final(self)@.wf(),
    {
        let id = self.bindings[token - 1].unwrap();
        self.bindings[token - 1] = None;
        id
    }

    /// Whether any reference to controller `id` is left.
    fn held(&self, id: usize) -> (r: bool)
        requires
            self@.wf(),
            id < self@.windows.len(),
        ensures
            r == self@.held(id),
    {
        if self.outside[id] > 0 {
            return true;
        }
        let mut k: usize = 0;
        while k < self.bindings.len()
            invariant
                0 <= k <= self.bindings@.len(),
                forall|j: int| 0 <= j < k ==> self.bindings@[j] != Some(id),
            decreases self.bindings@.len() - k,
        {
            match self.bindings[k] {
                Some(b) => {
                    if b == id {
                        assert(self@.bindings[k as int] == Some(id));
                        return true;
                    }
                },
                None => {},
            }
            k = k + 1;
        }
        let mut k: usize = 0;
        while k < self.windows.len()
            invariant
                0 <= k <= self.windows@.len(),
                forall|j: int| 0 <= j < k ==> !holds(self.windows@[j], id),
            decreases self.windows@.len() - k,
        {
            match self.windows[k] {
                Some(AppWindow::Rectangular(r)) => {
                    match r.control_center {
                        Some(p) => {
                            if p == id {
                                assert(holds(self@.windows[k as int], id));
                                return true;
                            }
                        },
                        None => {},
                    }
                },
                _ => {},
            }
            k = k + 1;
        }
        false
    }

    /// Drops controller `id` if no reference to it is left, and with a main window the control
    /// center that only it referred to. Returns the main window whose resources are to be torn
    /// down, if one was dropped.
    pub fn release(&mut self, id: usize) -> (r: Option<isize>)
        requires
            old(self)@.wf(),
            id < old(self)@.windows.len(),
        ensures
            (final(self)@, r) == old(self)@.released(id),
            final(self)@.wf(),
    {
        if self.held(id) {
            return None;
        }
        match self.windows[id] {
            Some(AppWindow::Rectangular(w)) => {
                proof {
                    lemma_drop_unheld(self@, id);
                }
                let ghost v0 = self@;
                self.windows[id] = None;
                match w.control_center {
                    Some(p) => {
                        assert(holds(v0.windows[id as int], p));
                        if !self.held(p) {
                            proof {
                                lemma_drop_unheld(self@, p);
                            }
                            self.windows[p] = None;
                        }
                    },
                    None => {},
                }
                Some(w.window_handle)
            },
            _ => {
                proof {
                    lemma_drop_unheld(self@, id);
                }
                self.windows[id] = None;
                None
            },
        }
    }

    /// Gives up one reference to controller `id` held outside the table, and drops the
    /// controller if it was the last reference. Returns the main window whose resources are to be
    /// torn down, if one was dropped.
    pub fn drop_ref(&mut self, id: usize) -> (r: Option<isize>)
        requires
            old(self)@.wf(),
            id < old(self)@.windows.len(),
            old(self)@.outside[id as int] > 0,
        ensures
            (final(self)@, r) == old(self)@.ref_dropped(id),
            final(self)@.wf(),
    {
        let n = self.outside[id];
        self.outside[id] = n - 1;
        self.release(id)
    }
}

} // verus!
