//! Events: what the adapter tells the client without being asked.

use crate::types::StoppedEventReason;
use vstd::prelude::*;

verus! {

/// Body of a `stopped` event.
#[derive(Debug, Clone, PartialEq, Eq)]
pub struct StoppedEventBody {
    pub reason: StoppedEventReason,
    pub description: Option<String>,
    pub thread_id: Option<i64>,
    pub preserve_focus_hint: Option<bool>,
    pub text: Option<String>,
    pub all_threads_stopped: Option<bool>,
    pub hit_breakpoint_ids: Option<Vec<i64>>,
}

/// Mathematical model of a [`StoppedEventBody`].
pub struct StoppedEventBodyView {
    pub reason: StoppedEventReason,
    pub description: Option<Seq<char>>,
    pub thread_id: Option<i64>,
    pub preserve_focus_hint: Option<bool>,
    pub text: Option<Seq<char>>,
    pub all_threads_stopped: Option<bool>,
    pub hit_breakpoint_ids: Option<Seq<i64>>,
}

impl View for StoppedEventBody {
    type V = StoppedEventBodyView;

    open spec fn view(&self) -> StoppedEventBodyView {
        StoppedEventBodyView {
            reason: self.reason,
            description: self.description.deep_view(),
            thread_id: self.thread_id,
            preserve_focus_hint: self.preserve_focus_hint,
            text: self.text.deep_view(),
            all_threads_stopped: self.all_threads_stopped,
            hit_breakpoint_ids: self.hit_breakpoint_ids.deep_view(),
        }
    }
}

/// Body of a `continued` event.
#[derive(Debug, Clone, Copy, PartialEq, Eq)]
pub struct ContinuedEventBody {
    pub thread_id: i64,
    pub all_threads_continued: Option<bool>,
}

/// An event of the session.
#[derive(Debug, Clone, PartialEq, Eq)]
pub enum Event {
    Initialized,
    Continued(ContinuedEventBody),
    Stopped(StoppedEventBody),
}

/// Mathematical model of an [`Event`].
pub enum EventView {
    Initialized,
    Continued(ContinuedEventBody),
    Stopped(StoppedEventBodyView),
}

impl View for Event {
    type V = EventView;

    open spec fn view(&self) -> EventView {
        match self {
            Event::Initialized => EventView::Initialized,
            Event::Continued(body) => EventView::Continued(*body),
            Event::Stopped(body) => EventView::Stopped(body@),
        }
    }
}

impl DeepView for Event {
    type V = EventView;

    open spec fn deep_view(&self) -> EventView {
        self@
    }
}

} // verus!
