use vstd::prelude::*;
use crate::event::Event;

verus! {

/// What one turn of the input loop observed.
#[derive(Clone, Debug, PartialEq, Eq)]
pub enum InputPoll {
    /// The time allowed for waiting has run out.
    TimedOut,
    /// The terminal was polled, and gave this event or none.
    Polled(Option<Event>),
}

/// What the input loop does after a turn.
#[derive(Clone, Debug, PartialEq, Eq)]
pub enum InputAction {
    /// Hand this event to the user interface and stop waiting.
    Deliver(Event),
    /// Poll the terminal again.
    PollAgain,
}

/// The decision of one turn of the input loop: the first event polled is
/// delivered; when time runs out first, a refresh is delivered instead.
pub fn prepare_input_step(poll: InputPoll) -> (action: InputAction)
    ensures
        match poll {
            InputPoll::TimedOut => action == InputAction::Deliver(Event::Refresh),
            InputPoll::Polled(Some(e)) => action == InputAction::Deliver(e),
            InputPoll::Polled(None) => action == InputAction::PollAgain,
        },
{
    match poll {
        InputPoll::TimedOut => InputAction::Deliver(Event::Refresh),
        InputPoll::Polled(Some(event)) => InputAction::Deliver(event),
        InputPoll::Polled(None) => InputAction::PollAgain,
    }
}

} // verus!
