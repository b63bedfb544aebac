//! The commands that the user interface can call.

use vstd::prelude::*;
use crate::action::Action;
use crate::event::Hook;
use crate::model;
use crate::supervisor::Supervisor;
use crate::text::tagged;

verus! {

/// The greeting for `name`.
pub open spec fn greeting(name: Seq<char>) -> Seq<char> {
    "Hello, "@ + name + "! You've been greeted from Rust!"@
}

/// Greets `name`.
pub fn greet(name: &str) -> (text: String)
    ensures
        text@ == greeting(name@),
{
    let mut text = tagged("Hello, ", name);
    text.append("! You've been greeted from Rust!");
    text
}

/// Restarts the application without leaving its worker behind: the restart
/// hook of the supervisor. The last action is the restart itself, and the
/// worker, if it still ran, is handed to termination before it.
pub fn graceful_restart<H>(supervisor: &mut Supervisor<H>) -> (actions: Vec<Action<H>>)
    ensures
        final(supervisor)@ == model::hook(old(supervisor)@, Hook::Restart).next,
        actions.deep_view() == model::hook(old(supervisor)@, Hook::Restart).actions,
{
    supervisor.hook(Hook::Restart)
}

} // verus!
