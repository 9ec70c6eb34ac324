//! What the session hands to its caller for the transport: the answer to a
//! request, in two steps, and the messages of a session as they are written.

use crate::events::EventView;
use crate::responses::{Response, ResponseView};
use vstd::prelude::*;

verus! {

/// What is due once the response to a request has been written. Nothing of
/// it happens before: a response that could not be written has no follow-up.
#[derive(Debug, Clone, Copy, PartialEq, Eq)]
pub enum FollowUp {
    /// The request is done with its response.
    Nothing,
    /// The `initialized` event is to be sent.
    Initialized,
    /// The stop location is to be computed anew, and then the `stopped` event
    /// is to be sent.
    Stopped,
    /// The `continued` event is to be sent.
    Continued,
}

/// The answer to a request: the response, which is written first, and what
/// is due once it has been written.
#[derive(Debug, Clone, PartialEq, Eq)]
pub struct Answer {
    pub response: Response,
    pub follow_up: FollowUp,
}

/// Mathematical model of an [`Answer`].
pub struct AnswerView {
    pub response: ResponseView,
    pub follow_up: FollowUp,
}

impl View for Answer {
    type V = AnswerView;

    open spec fn view(&self) -> AnswerView {
        AnswerView { response: self.response@, follow_up: self.follow_up }
    }
}

/// One message of a session, as it is written to the client.
pub enum Message {
    Response(ResponseView),
    Event(EventView),
}

} // verus!
