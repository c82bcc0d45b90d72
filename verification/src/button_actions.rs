//! How the window with a greeting button answers widget actions.
use vstd::prelude::*;

verus! {

/// What to answer an action with.
#[derive(Debug, Clone, Copy, PartialEq, Eq, Structural)]
pub enum Answer {
    /// Greet: the action was a button press.
    SayHello,
    /// Report the action as unexpected.
    ReportUnexpected,
}

/// The answer to an action raised by a widget.
#[derive(Debug, Clone, Copy, PartialEq, Eq, Structural)]
pub struct ActionReply {
    /// The action came from a window the driver does not own; debug builds
    /// stop on this.
    pub unknown_window: bool,
    pub answer: Answer,
}

/// Answers an action raised in a window, given whether that window is the
/// driver's own and whether the action is a button press.
pub fn on_action(from_own_window: bool, is_button_press: bool) -> (reply: ActionReply)
    ensures
        reply.unknown_window == !from_own_window,
        reply.answer == if is_button_press {
            Answer::SayHello
        } else {
            Answer::ReportUnexpected
        },
{
    let answer = if is_button_press {
        Answer::SayHello
    } else {
        Answer::ReportUnexpected
    };
    ActionReply { unknown_window: !from_own_window, answer }
}

} // verus!
