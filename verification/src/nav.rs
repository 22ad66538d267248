use vstd::prelude::*;
use crate::views::{Views, ViewsData};

verus! {

/// The two stacks of the navigation history, most recent last. Depth is
/// unbounded: desktop-session scale needs no cap.
pub struct History {
    pub previous: Vec<Views>,
    pub next: Vec<Views>,
}

/// The mathematical model of a navigation state: the current screen and the
/// two stacks as sequences.
#[verifier::ext_equal]
pub ghost struct NavState {
    pub current: Views,
    pub previous: Seq<Views>,
    pub next: Seq<Views>,
}

/// What `set_view` does to a navigation state: the current view moves onto
/// `previous`, the new view becomes current, and the forward history is
/// discarded unconditionally — history is linear, never branching.
pub open spec fn set_view_step(nav: NavState, view: Views) -> NavState {
    NavState {
        current: view,
        previous: nav.previous.push(nav.current),
        next: Seq::empty(),
    }
}

/// What `go_back` does: a no-op while no past is recorded; otherwise the
/// current view moves onto `next` and the most recent past view becomes
/// current.
pub open spec fn go_back_step(nav: NavState) -> NavState {
    if nav.previous.len() == 0 {
        nav
    } else {
        NavState {
            current: nav.previous.last(),
            previous: nav.previous.drop_last(),
            next: nav.next.push(nav.current),
        }
    }
}

/// What `go_forward` does: symmetric to `go_back`, driven by `next`.
pub open spec fn go_forward_step(nav: NavState) -> NavState {
    if nav.next.len() == 0 {
        nav
    } else {
        NavState {
            current: nav.next.last(),
            previous: nav.previous.push(nav.current),
            next: nav.next.drop_last(),
        }
    }
}

/// The context that lives for the whole process: the current screen, the
/// navigation history around it, and the side table of per-screen state.
/// One value of this is built at startup and passed into every frame.
pub struct AppState {
    pub current_view: Views,
    pub history: History,
    pub view_data: ViewsData,
}

impl AppState {
    /// The navigation part of this context, as its mathematical model.
    pub open spec fn nav(&self) -> NavState {
        NavState {
            current: self.current_view,
            previous: self.history.previous@,
            next: self.history.next@,
        }
    }

    /// The context at process start: the main screen, no history yet, every
    /// screen's transient state untouched.
    pub fn new() -> (app: AppState)
        ensures
            app.current_view == Views::MainView,
            app.history.previous@ == Seq::<Views>::empty(),
            app.history.next@ == Seq::<Views>::empty(),
            app.view_data.is_fresh(),
    {
        AppState {
            current_view: Views::MainView,
            history: History { previous: Vec::new(), next: Vec::new() },
            view_data: ViewsData::default(),
        }
    }

    /// Switch to `view`. A total operation: it never fails, and it always
    /// empties the forward history.
    pub fn set_view(&mut self, view: Views)
        ensures
            final(self).nav() == set_view_step(old(self).nav(), view),
            final(self).history.next@.len() == 0,
            final(self).view_data == old(self).view_data,
    {
        self.history.previous.push(self.current_view);
        self.current_view = view;
        self.history.next.clear();
    }

    /// One step back, if any past view is recorded; otherwise nothing moves.
    pub fn go_back(&mut self)
        ensures
            final(self).nav() == go_back_step(old(self).nav()),
            final(self).view_data == old(self).view_data,
    {
        if self.history.previous.len() > 0 {
            self.history.next.push(self.current_view);
            self.current_view = match self.history.previous.pop() {
                Some(previous) => previous,
                // unreachable under the guard above: rather than fail, fall
                // back to the main screen
                None => Views::MainView,
            };
        }
    }

    /// One step forward, if any view is ahead; otherwise nothing moves.
    pub fn go_forward(&mut self)
        ensures
            final(self).nav() == go_forward_step(old(self).nav()),
            final(self).view_data == old(self).view_data,
    {
        if self.history.next.len() > 0 {
            self.history.previous.push(self.current_view);
            self.current_view = match self.history.next.pop() {
                Some(ahead) => ahead,
                // unreachable under the guard above: rather than fail, keep
                // the current screen
                None => self.current_view,
            };
        }
    }
}

/// Law: a fresh navigation discards the forward history — after `set_view`
/// the `next` stack is empty, whatever state any sequence of calls led to.
pub proof fn lemma_set_view_clears_next(nav: NavState, view: Views)
    ensures
        set_view_step(nav, view).next =~= Seq::<Views>::empty(),
{
}

/// Law: whenever there is a past view to go back to, `go_back` followed by
/// `go_forward` restores the whole navigation state — in particular the view
/// that was current before `go_back`.
pub proof fn lemma_go_back_then_forward(nav: NavState)
    requires
        nav.previous.len() > 0,
    ensures
        go_forward_step(go_back_step(nav)) =~= nav,
{
    assert(nav.next.push(nav.current).drop_last() =~= nav.next);
    assert(nav.previous.drop_last().push(nav.previous.last()) =~= nav.previous);
}

/// Law: `go_back` with no recorded past is a no-op — the current view and
/// both stacks stay as they are.
pub proof fn lemma_go_back_noop(nav: NavState)
    requires
        nav.previous.len() == 0,
    ensures
        go_back_step(nav) == nav,
{
}

/// Law: `go_forward` with no forward history is a no-op — the current view
/// and both stacks stay as they are.
pub proof fn lemma_go_forward_noop(nav: NavState)
    requires
        nav.next.len() == 0,
    ensures
        go_forward_step(nav) == nav,
{
}

} // verus!
