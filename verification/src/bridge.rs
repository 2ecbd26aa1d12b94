//! Shortcut actions handed to the page: the menu and tray dispatch them as a
//! `dsh-shortcut` DOM event that the injected page script turns into a click
//! on the send or stop control.

use vstd::prelude::*;

verus! {

/// An action the page script understands.
#[derive(Clone, Copy, Debug, PartialEq, Eq, Structural)]
pub enum ShortcutAction {
    /// Send the message being composed.
    Send,
    /// Cancel the running task.
    Cancel,
}

pub open spec fn action_name_of(action: ShortcutAction) -> Seq<char> {
    match action {
        ShortcutAction::Send => "send"@,
        ShortcutAction::Cancel => "cancel"@,
    }
}

/// The script that dispatches `action` to the page.
pub open spec fn shortcut_script_of(action: Seq<char>) -> Seq<char> {
    "window.dispatchEvent(new CustomEvent('dsh-shortcut', { detail: { action: '"@ + action
        + "' } }));"@
}

impl ShortcutAction {
    /// The name under which the page script knows the action.
    pub fn name(&self) -> (r: &'static str)
        ensures
            r@ == action_name_of(*self),
    {
        match self {
            ShortcutAction::Send => "send",
            ShortcutAction::Cancel => "cancel",
        }
    }
}

/// The script that dispatches the named action to the page.
pub fn shortcut_script(action: &str) -> (r: String)
    ensures
        r@ == shortcut_script_of(action@),
{
    let mut s = String::from_str(
        "window.dispatchEvent(new CustomEvent('dsh-shortcut', { detail: { action: '",
    );
    s.append(action);
    s.append("' } }));");
    assert(s@ =~= shortcut_script_of(action@));
    s
}

} // verus!
