use vstd::prelude::*;

verus! {

/// What is known of one window at the moment a command reaches it.
#[derive(Clone, Copy, Debug, PartialEq, Eq, Structural)]
pub struct WindowState {
    pub maximized: bool,
    pub minimized: bool,
}

/// An operation that the windowing framework carries out on a window.
#[derive(Clone, Copy, Debug, PartialEq, Eq, Structural)]
pub enum WindowAction {
    Minimize,
    Maximize,
    Unmaximize,
    Close,
}

/// The state of a window once the framework has carried out `a` on it.
/// Closing ends the window; its last flags are kept as they were.
pub open spec fn after(s: WindowState, a: WindowAction) -> WindowState {
    match a {
        WindowAction::Minimize => WindowState { minimized: true, ..s },
        WindowAction::Maximize => WindowState { maximized: true, ..s },
        WindowAction::Unmaximize => WindowState { maximized: false, ..s },
        WindowAction::Close => s,
    }
}

/// The operation that flips a window's maximized flag.
pub open spec fn toggle_action(maximized: bool) -> WindowAction {
    if maximized {
        WindowAction::Unmaximize
    } else {
        WindowAction::Maximize
    }
}

impl WindowState {
    /// A window as the framework opens it: neither maximized nor minimized.
    pub fn new() -> (r: WindowState)
        ensures
            !r.maximized,
            !r.minimized,
    {
        WindowState { maximized: false, minimized: false }
    }

    /// Records `a` as carried out on this window.
    pub fn apply(&mut self, a: WindowAction)
        ensures
            *final(self) == after(*old(self), a),
    {
        match a {
            WindowAction::Minimize => self.minimized = true,
            WindowAction::Maximize => self.maximized = true,
            WindowAction::Unmaximize => self.maximized = false,
            WindowAction::Close => {},
        }
    }

    /// The minimize command: returns the operation to carry out, and records its effect.
    pub fn minimize_window(&mut self) -> (r: WindowAction)
        ensures
            r == WindowAction::Minimize,
            *final(self) == after(*old(self), r),
    {
        let a = WindowAction::Minimize;
        self.apply(a);
        a
    }

    /// The maximize command: restores a maximized window and maximizes any other.
    /// Returns the operation to carry out, and records its effect.
    pub fn maximize_window(&mut self) -> (r: WindowAction)
        ensures
            r == toggle_action(old(self).maximized),
            *final(self) == after(*old(self), r),
    {
        let a = if self.maximized {
            WindowAction::Unmaximize
        } else {
            WindowAction::Maximize
        };
        self.apply(a);
        a
    }

    /// The close command: returns the operation to carry out.
    pub fn close_window(&self) -> (r: WindowAction)
        ensures
            r == WindowAction::Close,
    {
        WindowAction::Close
    }

    /// The maximized-state query: the window's flag as it stands.
    pub fn is_maximized(&self) -> (r: bool)
        ensures
            r == self.maximized,
    {
        self.maximized
    }
}

/// Minimizing leaves a window minimized, and minimizing it again changes nothing.
pub proof fn lemma_minimize_idempotent(s: WindowState)
    ensures
        after(s, WindowAction::Minimize).minimized,
        after(after(s, WindowAction::Minimize), WindowAction::Minimize) == after(
            s,
            WindowAction::Minimize,
        ),
{
}

/// Two maximize commands in a row, with nothing else in between, bring the
/// maximized flag back to what it was; the flag flips after the first.
pub proof fn lemma_maximize_toggle_twice(s: WindowState)
    ensures
        after(s, toggle_action(s.maximized)).maximized == !s.maximized,
        ({
            let once = after(s, toggle_action(s.maximized));
            after(once, toggle_action(once.maximized)).maximized == s.maximized
        }),
{
}

/// The maximized-state query reports true right after a maximize command that
/// maximized the window, and false right after one that restored it.
pub proof fn lemma_query_follows_maximize(s: WindowState)
    ensures
        toggle_action(s.maximized) == WindowAction::Maximize ==> after(
            s,
            toggle_action(s.maximized),
        ).maximized,
        toggle_action(s.maximized) == WindowAction::Unmaximize ==> !after(
            s,
            toggle_action(s.maximized),
        ).maximized,
{
}

} // verus!
