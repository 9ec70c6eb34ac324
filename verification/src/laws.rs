//! What holds of every session: the order of the messages that answer a
//! request, what a failed write leaves behind, and how the state follows the
//! requests.

use crate::base_message::{FollowUp, Message};
use crate::command_handler::{
    answer_to, asked_breakpoints, asked_lines, emitted, event_due, next_state, servable,
    state_on_request, state_once_answered, stopped_on_pause,
};
use crate::events::EventView;
use crate::requests::{Command, Request};
use crate::responses::ResponseBodyView;
use crate::state::{DapStateView, MAIN_THREAD_ID};
use crate::types::SourceView;
use vstd::prelude::*;

verus! {

/// The state of a session after the requests `reqs`, served in order from
/// `state`, where every write succeeded.
pub open spec fn state_after(state: DapStateView, reqs: Seq<Request>) -> DapStateView
    decreases reqs.len(),
{
    if reqs.len() == 0 {
        state
    } else {
        next_state(state_after(state, reqs.drop_last()), reqs.last())
    }
}

/// Whether `req` is a `setBreakpoints` request for a source with path `path`.
pub open spec fn sets_breakpoints_of(req: Request, path: Seq<char>) -> bool {
    req.command matches Command::SetBreakpoints(args) && args.source@.path == Some(path)
}

/// A `setBreakpoints` request that asks for N breakpoints is answered with
/// one successful response of N entries, and with nothing after it. The
/// entry at position i, counted from 0, has the identifier i + 1, is
/// verified, and stands at the line and column asked for at position i.
pub proof fn set_breakpoints_answers_each_in_order(state: DapStateView, req: Request)
    requires
        req.command is SetBreakpoints,
        servable(req),
    ensures
        emitted(state, req) == seq![Message::Response(answer_to(state, req).response)],
        answer_to(state, req).follow_up == FollowUp::Nothing,
        ({
            let args = req.command->SetBreakpoints_0;
            let asked = asked_breakpoints(args);
            let response = answer_to(state, req).response;
            &&& response.request_seq == req.seq
            &&& response.success
            &&& response.body matches Some(ResponseBodyView::SetBreakpoints(breakpoints)) && {
                &&& breakpoints.len() == asked.len()
                &&& forall|i: int|
                    0 <= i < breakpoints.len() ==> {
                        &&& (#[trigger] breakpoints[i]).id matches Some(id) && id == i + 1
                        &&& breakpoints[i].verified
                        &&& breakpoints[i].source == Some(args.source@)
                        &&& breakpoints[i].line == Some(asked[i].line)
                        &&& breakpoints[i].column == asked[i].column
                    }
            }
        }),
{
}

/// A `setBreakpoints` request makes its source the current source, and for a
/// source with a path makes the lines asked for the whole entry of that
/// path: nothing of the entry before is kept, and an empty list is stored as
/// an empty list. The entries of all other paths stay as they were. All of
/// this is done when the response is handed out, and nothing is added once
/// it has been written.
pub proof fn set_breakpoints_replaces_entry(state: DapStateView, req: Request)
    requires
        req.command is SetBreakpoints,
    ensures
        next_state(state, req) == state_on_request(state, req),
        ({
            let args = req.command->SetBreakpoints_0;
            let after = state_on_request(state, req);
            &&& after.current_source == Some(args.source@)
            &&& args.source@.path matches Some(path) ==> {
                &&& after.breakpoints_by_path.contains_key(path)
                &&& after.breakpoints_by_path[path] == asked_lines(args)
                &&& forall|other: Seq<char>|
                    other != path ==> {
                        &&& after.breakpoints_by_path.contains_key(other)
                            == state.breakpoints_by_path.contains_key(other)
                        &&& after.breakpoints_by_path[other] == state.breakpoints_by_path[other]
                    }
            }
            &&& args.source@.path is None ==> after.breakpoints_by_path
                == state.breakpoints_by_path
        }),
{
}

/// After any sequence of one or more `setBreakpoints` requests for the same
/// path, the registry holds for that path exactly the lines of the last
/// request.
pub proof fn registry_holds_last_list(state: DapStateView, reqs: Seq<Request>, path: Seq<char>)
    requires
        reqs.len() > 0,
        forall|i: int| 0 <= i < reqs.len() ==> sets_breakpoints_of(#[trigger] reqs[i], path),
    ensures
        state_after(state, reqs).breakpoints_by_path.contains_key(path),
        state_after(state, reqs).breakpoints_by_path[path] == asked_lines(
            reqs.last().command->SetBreakpoints_0,
        ),
{
}

/// No request but `setBreakpoints` changes the registry or the current
/// source, and no request but `setBreakpoints` and `pause` changes the state
/// at all.
pub proof fn other_requests_keep_registry(state: DapStateView, req: Request)
    ensures
        !(req.command is SetBreakpoints) ==> {
            &&& next_state(state, req).breakpoints_by_path == state.breakpoints_by_path
            &&& next_state(state, req).current_source == state.current_source
        },
        !(req.command is SetBreakpoints) && !(req.command is Pause) ==> next_state(state, req)
            == state,
{
}

/// Until its response has been written, no request but `setBreakpoints` has
/// changed the state. A request whose response cannot be written therefore
/// leaves the state as it found it, unless it is a `setBreakpoints` request,
/// which leaves what it recorded.
pub proof fn state_waits_for_the_response(state: DapStateView, req: Request)
    ensures
        !(req.command is SetBreakpoints) ==> state_on_request(state, req) == state,
        state_on_request(state, req).stopped_line == state.stopped_line,
        state_on_request(state, req).stopped_column == state.stopped_column,
{
}

/// Every request is answered: the first message is a response to that very
/// request, no other message is a response, at most one event follows, and
/// the response is successful exactly when the command is supported.
pub proof fn every_request_is_answered_once(state: DapStateView, req: Request)
    ensures
        answer_to(state, req).response.request_seq == req.seq,
        answer_to(state, req).response.success == req.command.supported(),
        1 <= emitted(state, req).len() <= 2,
        emitted(state, req)[0] == Message::Response(answer_to(state, req).response),
        forall|i: int|
            1 <= i < emitted(state, req).len() ==> #[trigger] emitted(state, req)[i] is Event,
{
}

/// A command outside the supported set is answered with exactly one message:
/// a failed response without a body, whose message names the command. The
/// state stays as it was.
pub proof fn unsupported_command_is_refused(state: DapStateView, req: Request)
    requires
        !req.command.supported(),
    ensures
        emitted(state, req) == seq![Message::Response(answer_to(state, req).response)],
        answer_to(state, req).follow_up == FollowUp::Nothing,
        ({
            let response = answer_to(state, req).response;
            &&& response.request_seq == req.seq
            &&& !response.success
            &&& response.body is None
            &&& response.message == Some("Unsupported command: "@ + req.command.tag())
        }),
        next_state(state, req) == state,
{
}

/// An `initialize` request is answered with a successful response, after
/// which the `initialized` event is due: where the writes succeed, two
/// messages are written, the response first and the event second.
pub proof fn initialize_answers_then_announces(state: DapStateView, req: Request)
    requires
        req.command is Initialize,
    ensures
        answer_to(state, req).response.request_seq == req.seq,
        answer_to(state, req).response.success,
        answer_to(state, req).follow_up == FollowUp::Initialized,
        event_due(state_on_request(state, req), FollowUp::Initialized) == Some(
            EventView::Initialized,
        ),
        emitted(state, req) == seq![
            Message::Response(answer_to(state, req).response),
            Message::Event(EventView::Initialized),
        ],
        next_state(state, req) == state,
{
}

/// A `pause` request is answered with a successful response, after which a
/// stop is due: where the writes succeed, two messages are written, the
/// response first and a `stopped` event second. The stop location is as it
/// was when the response is handed out, and is computed anew only once the
/// response has been written.
pub proof fn pause_answers_then_stops(state: DapStateView, req: Request)
    requires
        req.command is Pause,
    ensures
        answer_to(state, req).response.request_seq == req.seq,
        answer_to(state, req).response.success,
        answer_to(state, req).follow_up == FollowUp::Stopped,
        state_on_request(state, req) == state,
        state_once_answered(state, FollowUp::Stopped) == state.relocated(),
        emitted(state, req) == seq![
            Message::Response(answer_to(state, req).response),
            Message::Event(stopped_on_pause(state)),
        ],
        emitted(state, req)[1] matches Message::Event(event) && event is Stopped,
        next_state(state, req) == state.relocated(),
{
}

/// A `continue` request is answered with a successful response, after which
/// the `continued` event is due: where the writes succeed, two messages are
/// written, the response first and a `continued` event second. The state
/// stays as it was.
pub proof fn continue_answers_then_resumes(state: DapStateView, req: Request)
    requires
        req.command is Continue,
    ensures
        answer_to(state, req).response.request_seq == req.seq,
        answer_to(state, req).response.success,
        answer_to(state, req).follow_up == FollowUp::Continued,
        emitted(state, req).len() == 2,
        emitted(state, req)[0] == Message::Response(answer_to(state, req).response),
        emitted(state, req)[1] matches Message::Event(event) && event is Continued,
        next_state(state, req) == state,
{
}

/// Computing the stop location twice gives what computing it once gives.
pub proof fn relocation_is_idempotent(state: DapStateView)
    ensures
        state.relocated().relocated() == state.relocated(),
{
}

/// A second `pause` request that follows a first, with nothing between them,
/// leaves the state as the first left it.
pub proof fn pause_twice_is_pause_once(state: DapStateView, first: Request, second: Request)
    requires
        first.command is Pause,
        second.command is Pause,
    ensures
        next_state(next_state(state, first), second) == next_state(state, first),
{
}

/// A `stackTrace` request is answered with exactly one frame, at the stop
/// location that the state holds. The frame is in the current source; where
/// the session has none, it is in a source that has neither name nor path.
pub proof fn stack_trace_reports_the_stop_location(state: DapStateView, req: Request)
    requires
        req.command is StackTrace,
    ensures
        answer_to(state, req).follow_up == FollowUp::Nothing,
        answer_to(state, req).response.body matches Some(
            ResponseBodyView::StackTrace { stack_frames, total_frames },
        ) && {
            &&& total_frames == Some(1i64)
            &&& stack_frames.len() == 1
            &&& stack_frames[0].line == state.stopped_line
            &&& stack_frames[0].column == state.stopped_column
            &&& state.current_source matches Some(source) ==> stack_frames[0].source == Some(
                source,
            )
            &&& state.current_source is None ==> {
                &&& stack_frames[0].source == Some(SourceView::unnamed())
                &&& stack_frames[0].source->0.name is None
                &&& stack_frames[0].source->0.path is None
            }
        },
{
}

/// After a `setBreakpoints` request for a source with a path and then a
/// `pause` request, both with their writes done, a `stackTrace` request
/// reports one frame, in the source of the first request: at the first line
/// asked for, or at line 1 where no line was asked for, and in column 1.
pub proof fn stack_trace_reports_first_breakpoint(
    state: DapStateView,
    set: Request,
    pause: Request,
    trace: Request,
)
    requires
        set.command matches Command::SetBreakpoints(args) && args.source@.path is Some,
        pause.command is Pause,
        trace.command is StackTrace,
    ensures
        ({
            let args = set.command->SetBreakpoints_0;
            let stopped = next_state(next_state(state, set), pause);
            answer_to(stopped, trace).response.body matches Some(
                ResponseBodyView::StackTrace { stack_frames, total_frames },
            ) && {
                &&& total_frames == Some(1i64)
                &&& stack_frames.len() == 1
                &&& stack_frames[0].source == Some(args.source@)
                &&& stack_frames[0].line == if asked_lines(args).len() > 0 {
                    asked_lines(args)[0]
                } else {
                    1
                }
                &&& stack_frames[0].column == 1
            }
        }),
{
}

/// A `pause` request whose response could not be written leaves the answer
/// to a later `stackTrace` request as it was before the `pause` request.
pub proof fn unanswered_pause_moves_nothing(state: DapStateView, pause: Request, trace: Request)
    requires
        pause.command is Pause,
        trace.command is StackTrace,
    ensures
        answer_to(state_on_request(state, pause), trace) == answer_to(state, trace),
{
}

/// No request changes the identifier of the main thread or the handle of
/// the variable scope.
pub proof fn identity_is_fixed(state: DapStateView, reqs: Seq<Request>)
    ensures
        state_after(state, reqs).main_thread_id == state.main_thread_id,
        state_after(state, reqs).vars_ref == state.vars_ref,
    decreases reqs.len(),
{
    if reqs.len() > 0 {
        identity_is_fixed(state, reqs.drop_last());
    }
}

/// Whatever requests a session has served, a `threads` request is answered
/// as it was before them: with exactly one thread, whose identifier is that
/// of the main thread, and with nothing after the response.
pub proof fn threads_answer_never_changes(state: DapStateView, reqs: Seq<Request>, req: Request)
    requires
        req.command is Threads,
    ensures
        answer_to(state_after(state, reqs), req) == answer_to(state, req),
        emitted(state_after(state, reqs), req) == emitted(state, req),
        emitted(state, req).len() == 1,
        ({
            let response = answer_to(state_after(state, reqs), req).response;
            &&& response.success
            &&& response.body matches Some(ResponseBodyView::Threads(threads)) && {
                &&& threads.len() == 1
                &&& threads[0].id == state.main_thread_id
            }
        }),
{
    identity_is_fixed(state, reqs);
}

/// In a session that began in the initial state, every `threads` request is
/// answered with exactly one thread, and its identifier is
/// [`MAIN_THREAD_ID`].
pub proof fn threads_reports_the_main_thread(reqs: Seq<Request>, req: Request)
    requires
        req.command is Threads,
    ensures
        ({
            let response = answer_to(state_after(DapStateView::initial(), reqs), req).response;
            &&& response.success
            &&& response.body matches Some(ResponseBodyView::Threads(threads)) && {
                &&& threads.len() == 1
                &&& threads[0].id == MAIN_THREAD_ID
            }
        }),
{
    identity_is_fixed(DapStateView::initial(), reqs);
}

} // verus!
