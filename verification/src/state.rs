//! Application-wide state: the running server and whether the user asked to
//! quit, which decides whether closing the window quits or hides it.

use vstd::prelude::*;

verus! {

/// Shared state of the application.
pub struct AppState<S> {
    /// The running `dsh` server, which the shell stops on exit.
    pub dsh: Option<S>,
    /// Whether the app is really quitting, as opposed to the window being
    /// closed, which only hides it to the tray.
    pub quitting: bool,
}

/// What becomes of a request to close the main window.
#[derive(Clone, Copy, Debug, PartialEq, Eq, Structural)]
pub enum CloseDecision {
    /// Let the window close.
    Close,
    /// Cancel the close and hide the window; the app stays in the tray.
    HideToTray,
}

pub open spec fn close_decision_of(quitting: bool) -> CloseDecision {
    if quitting {
        CloseDecision::Close
    } else {
        CloseDecision::HideToTray
    }
}

impl<S> AppState<S> {
    /// The state at start-up: no server yet, not quitting.
    pub fn new() -> (r: AppState<S>)
        ensures
            r.dsh is None,
            !r.quitting,
    {
        AppState { dsh: None, quitting: false }
    }

    /// Closing the window hides it to the tray unless the app is quitting.
    pub fn close_requested(&self) -> (r: CloseDecision)
        ensures
            r == close_decision_of(self.quitting),
    {
        if self.quitting {
            CloseDecision::Close
        } else {
            CloseDecision::HideToTray
        }
    }

    /// Records the server that was started.
    pub fn install_server(&mut self, server: S)
        ensures
            final(self).dsh == Some(server),
            final(self).quitting == old(self).quitting,
    {
        self.dsh = Some(server);
    }

    /// Takes the server out to stop it; afterwards none is recorded.
    pub fn take_server(&mut self) -> (r: Option<S>)
        ensures
            r == old(self).dsh,
            final(self).dsh is None,
            final(self).quitting == old(self).quitting,
    {
        let r = self.dsh.take();
        r
    }
}

/// Marks the app as quitting, so that closing the window no longer hides it
/// to the tray; returns the exit code to leave with.
pub fn quit_app<S>(state: &mut AppState<S>) -> (code: i32)
    ensures
        final(state).quitting,
        final(state).dsh == old(state).dsh,
        code == 0,
{
    state.quitting = true;
    0
}

/// The operations the shell performs on the state.
pub enum StateOp<S> {
    Install(S),
    Take,
    Quit,
}

/// The state after one operation, as `install_server`, `take_server` and
/// `quit_app` leave it.
pub open spec fn apply_op<S>(state: AppState<S>, op: StateOp<S>) -> AppState<S> {
    match op {
        StateOp::Install(server) => AppState { dsh: Some(server), quitting: state.quitting },
        StateOp::Take => AppState { dsh: None, quitting: state.quitting },
        StateOp::Quit => AppState { dsh: state.dsh, quitting: true },
    }
}

/// The state after a sequence of operations.
pub open spec fn apply_ops<S>(state: AppState<S>, ops: Seq<StateOp<S>>) -> AppState<S>
    decreases ops.len(),
{
    if ops.len() == 0 {
        state
    } else {
        apply_ops(apply_op(state, ops[0]), ops.drop_first())
    }
}

/// Closing the window only hides the app to the tray as long as the user has
/// not quit: from start-up, after any operations that do not include a quit,
/// a close request is turned into hiding; once a quit happened, every later
/// close request goes through.
pub proof fn lemma_close_to_tray_until_quit<S>(state: AppState<S>, ops: Seq<StateOp<S>>)
    ensures
        !state.quitting && (forall|i: int| 0 <= i < ops.len() ==> !(#[trigger] ops[i] is Quit))
            ==> close_decision_of(apply_ops(state, ops).quitting) == CloseDecision::HideToTray,
        state.quitting || (exists|i: int| 0 <= i < ops.len() && #[trigger] ops[i] is Quit)
            ==> close_decision_of(apply_ops(state, ops).quitting) == CloseDecision::Close,
    decreases ops.len(),
{
    if ops.len() > 0 {
        let rest = ops.drop_first();
        lemma_close_to_tray_until_quit(apply_op(state, ops[0]), rest);
        assert forall|i: int| 0 <= i < rest.len() implies rest[i] == ops[i + 1] by {}
        if exists|i: int| 0 <= i < ops.len() && #[trigger] ops[i] is Quit {
            let i = choose|i: int| 0 <= i < ops.len() && #[trigger] ops[i] is Quit;
            if i > 0 {
                assert(rest[i - 1] is Quit);
            }
        }
    }
}

/// The recorded server is handed out to be stopped at most once: right after
/// it was taken, taking again yields nothing.
pub proof fn lemma_server_taken_once<S>(state: AppState<S>)
    ensures
        apply_op(state, StateOp::Take).dsh is None,
        apply_op(apply_op(state, StateOp::Take), StateOp::Take).dsh is None,
{
}

} // verus!
