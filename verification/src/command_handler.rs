//! The request dispatcher and the handlers, one for each supported command.
//!
//! A request is served in two steps, and the caller writes between them.
//! First [`handle`] selects the handler of the command: the handler gives
//! the response and says what is due once that response has been written.
//! The caller writes the response. Then [`answered`] does what is due, and
//! gives the event to send, if there is one. A caller whose write failed does
//! not take the second step, and the state is then as the first step left
//! it. Nothing here writes.

use crate::base_message::{Answer, AnswerView, FollowUp, Message};
use crate::events::{ContinuedEventBody, Event, EventView, StoppedEventBody, StoppedEventBodyView};
use crate::requests::{
    AttachRequestArguments, Command, ContinueArguments, DisconnectArguments, InitializeArguments,
    LaunchRequestArguments, PauseArguments, Request, RestartArguments, ScopesArguments,
    SetBreakpointsArguments, SetExceptionBreakpointsArguments, StackTraceArguments,
    VariablesArguments,
};
use crate::responses::{
    ContinueResponse, Response, ResponseBody, ResponseBodyView, ResponseView, ScopesResponse,
    SetBreakpointsResponse, SetExceptionBreakpointsResponse, StackTraceResponse, ThreadsResponse,
    VariablesResponse,
};
use crate::state::{DapState, DapStateView};
use crate::types::{
    Breakpoint, BreakpointView, Capabilities, Scope, ScopeView, Source, SourceBreakpoint,
    SourceView, StackFrame, StackFrameView, StoppedEventReason, Thread, ThreadView, Variable,
    VariableView,
};
use vstd::prelude::*;

verus! {

/// The answer that is done with the successful response to request `seq`
/// that carries `body`.
pub open spec fn response_only(seq: i64, body: ResponseBodyView) -> AnswerView {
    AnswerView { response: ResponseView::success(seq, body), follow_up: FollowUp::Nothing }
}

/// The answer whose successful response to request `seq` carries `body`, and
/// after which `follow_up` is due.
pub open spec fn response_then(seq: i64, body: ResponseBodyView, follow_up: FollowUp) -> AnswerView {
    AnswerView { response: ResponseView::success(seq, body), follow_up }
}

/// The answer that is done with `response`.
fn respond(response: Response) -> (answer: Answer)
    ensures
        answer@ == (AnswerView { response: response@, follow_up: FollowUp::Nothing }),
{
    Answer { response, follow_up: FollowUp::Nothing }
}

/// What the adapter declares of itself: it takes a `configurationDone`
/// request, and supports none of the optional features it names.
pub open spec fn declared_capabilities() -> Capabilities {
    Capabilities {
        supports_configuration_done_request: Some(true),
        supports_set_variable: Some(false),
        supports_step_back: Some(false),
        supports_restart_frame: Some(false),
        supports_goto_targets_request: Some(false),
        supports_conditional_breakpoints: Some(false),
        supports_hit_conditional_breakpoints: Some(false),
        supports_terminate_request: Some(false),
        supports_evaluate_for_hovers: Some(false),
    }
}

/// Answers an `initialize` request with the adapter's capabilities; the
/// `initialized` event is due once the response has been written. The
/// client's arguments change nothing.
pub fn handle_initialize(req: &Request, _args: &InitializeArguments) -> (answer: Answer)
    ensures
        answer@ == response_then(
            req.seq,
            ResponseBodyView::Initialize(declared_capabilities()),
            FollowUp::Initialized,
        ),
{
    let caps = Capabilities {
        supports_configuration_done_request: Some(true),
        supports_set_variable: Some(false),
        supports_step_back: Some(false),
        supports_restart_frame: Some(false),
        supports_goto_targets_request: Some(false),
        supports_conditional_breakpoints: Some(false),
        supports_hit_conditional_breakpoints: Some(false),
        supports_terminate_request: Some(false),
        supports_evaluate_for_hovers: Some(false),
    };
    Answer {
        response: req.success(ResponseBody::Initialize(caps)),
        follow_up: FollowUp::Initialized,
    }
}

/// The event that follows the response to an `initialize` request.
pub fn initialize_answered() -> (event: Event)
    ensures
        event@ == EventView::Initialized,
{
    Event::Initialized
}

/// Answers a `configurationDone` request.
pub fn handle_configuration_done(req: &Request) -> (answer: Answer)
    ensures
        answer@ == response_only(req.seq, ResponseBodyView::ConfigurationDone),
{
    respond(req.success(ResponseBody::ConfigurationDone))
}

/// Answers a `launch` request. The request succeeds whatever its payload
/// holds, and leaves the session state as it is.
pub fn handle_launch(req: &Request, _args: &LaunchRequestArguments, _st: &DapState) -> (answer:
    Answer)
    ensures
        answer@ == response_only(req.seq, ResponseBodyView::Launch),
{
    respond(req.success(ResponseBody::Launch))
}

/// Answers a `restart` request.
pub fn handle_restart(req: &Request, _args: &RestartArguments) -> (answer: Answer)
    ensures
        answer@ == response_only(req.seq, ResponseBodyView::Restart),
{
    respond(req.success(ResponseBody::Restart))
}

/// Answers an `attach` request.
pub fn handle_attach(req: &Request, _args: &AttachRequestArguments) -> (answer: Answer)
    ensures
        answer@ == response_only(req.seq, ResponseBodyView::Attach),
{
    respond(req.success(ResponseBody::Attach))
}

/// The entry that reports the breakpoint `asked`, which stood at `index` in
/// its request: numbered from 1, verified, in the source and at the place
/// asked, with nothing else said.
pub open spec fn reported_breakpoint(
    source: SourceView,
    asked: SourceBreakpoint,
    index: int,
) -> BreakpointView {
    BreakpointView {
        id: Some((index + 1) as i64),
        verified: true,
        message: None,
        source: Some(source),
        line: Some(asked.line),
        column: asked.column,
        end_line: None,
        end_column: None,
        instruction_reference: None,
        offset: None,
    }
}

/// The breakpoints asked for: none where the list is absent.
pub open spec fn asked_breakpoints(args: SetBreakpointsArguments) -> Seq<SourceBreakpoint> {
    match args.breakpoints {
        Some(asked) => asked@,
        None => Seq::empty(),
    }
}

/// The entries that answer a `setBreakpoints` request: one for each
/// breakpoint asked for, in the order asked.
pub open spec fn reported_breakpoints(args: SetBreakpointsArguments) -> Seq<BreakpointView> {
    Seq::new(
        asked_breakpoints(args).len(),
        |i: int| reported_breakpoint(args.source@, asked_breakpoints(args)[i], i),
    )
}

/// The lines asked for, in the order asked.
pub open spec fn asked_lines(args: SetBreakpointsArguments) -> Seq<i64> {
    Seq::new(asked_breakpoints(args).len(), |i: int| asked_breakpoints(args)[i].line)
}

/// The session state after a `setBreakpoints` request: its source is the
/// current source, and where the source has a path, the lines asked for are
/// the whole entry of that path.
pub open spec fn state_after_set_breakpoints(
    state: DapStateView,
    args: SetBreakpointsArguments,
) -> DapStateView {
    let named = state.with_source(args.source@);
    match args.source@.path {
        Some(path) => named.with_breakpoints(path, asked_lines(args)),
        None => named,
    }
}

/// Whether a `setBreakpoints` request can be numbered: the last identifier
/// must fit the protocol's integer.
pub open spec fn numberable(args: SetBreakpointsArguments) -> bool {
    asked_breakpoints(args).len() <= i64::MAX
}

/// Answers a `setBreakpoints` request with exactly one response and nothing
/// after it, and records the source and its lines. The state is changed
/// before the response is written, and stays changed if the write fails.
pub fn handle_set_breakpoints(
    req: &Request,
    args: &SetBreakpointsArguments,
    st: &mut DapState,
) -> (answer: Answer)
    requires
        numberable(*args),
    ensures
        answer@ == response_only(
            req.seq,
            ResponseBodyView::SetBreakpoints(reported_breakpoints(*args)),
        ),
        final(st)@ == state_after_set_breakpoints(old(st)@, *args),
{
    st.set_current_source(args.source.clone());

    if let Some(path) = &args.source.path {
        let mut lines: Vec<i64> = Vec::new();
        if let Some(source_breakpoints) = &args.breakpoints {
            let mut k: usize = 0;
            while k < source_breakpoints.len()
                invariant
                    k <= source_breakpoints.len(),
                    lines@.len() == k,
                    forall|j: int| 0 <= j < k ==> lines@[j] == source_breakpoints@[j].line,
                decreases source_breakpoints.len() - k,
            {
                lines.push(source_breakpoints[k].line);
                k = k + 1;
            }
        }
        assert(lines@ =~= asked_lines(*args));
        st.set_breakpoints(path.clone(), lines);
    }

    let mut breakpoints: Vec<Breakpoint> = Vec::new();
    if let Some(source_breakpoints) = &args.breakpoints {
        let mut i: usize = 0;
        while i < source_breakpoints.len()
            invariant
                i <= source_breakpoints.len(),
                source_breakpoints.len() <= i64::MAX,
                breakpoints@.len() == i,
                forall|j: int|
                    0 <= j < i ==> (#[trigger] breakpoints@[j])@ == reported_breakpoint(
                        args.source@,
                        source_breakpoints@[j],
                        j,
                    ),
            decreases source_breakpoints.len() - i,
        {
            let src_bp = &source_breakpoints[i];
            breakpoints.push(
                Breakpoint {
                    id: Some(i as i64 + 1),
                    verified: true,
                    message: None,
                    source: Some(args.source.clone()),
                    line: Some(src_bp.line),
                    column: src_bp.column,
                    end_line: None,
                    end_column: None,
                    instruction_reference: None,
                    offset: None,
                },
            );
            i = i + 1;
        }
    }
    assert(breakpoints.deep_view() =~= reported_breakpoints(*args));

    respond(req.success(ResponseBody::SetBreakpoints(SetBreakpointsResponse { breakpoints })))
}

/// Answers a `setExceptionBreakpoints` request: the filters are accepted and
/// no breakpoint is reported.
pub fn handle_set_exception_breakpoints(
    req: &Request,
    _args: &SetExceptionBreakpointsArguments,
) -> (answer: Answer)
    ensures
        answer@ == response_only(req.seq, ResponseBodyView::SetExceptionBreakpoints(None)),
{
    respond(
        req.success(
            ResponseBody::SetExceptionBreakpoints(
                SetExceptionBreakpointsResponse { breakpoints: None },
            ),
        ),
    )
}

/// The threads of a session: the main thread alone.
pub open spec fn reported_threads(state: DapStateView) -> Seq<ThreadView> {
    seq![ThreadView { id: state.main_thread_id, name: "Main Thread"@ }]
}

/// Answers a `threads` request with the session's one thread.
pub fn handle_threads(req: &Request, st: &DapState) -> (answer: Answer)
    ensures
        answer@ == response_only(req.seq, ResponseBodyView::Threads(reported_threads(st@))),
{
    let threads = vec![Thread { id: st.main_thread_id(), name: String::from_str("Main Thread") }];
    assert(threads.deep_view() =~= reported_threads(st@));
    respond(req.success(ResponseBody::Threads(ThreadsResponse { threads })))
}

/// The event that tells of a stop on request: the main thread paused, and
/// all threads stopped with it.
pub open spec fn stopped_on_pause(state: DapStateView) -> EventView {
    EventView::Stopped(
        StoppedEventBodyView {
            reason: StoppedEventReason::Pause,
            description: Some("Paused"@),
            thread_id: Some(state.main_thread_id),
            preserve_focus_hint: Some(false),
            text: None,
            all_threads_stopped: Some(true),
            hit_breakpoint_ids: None,
        },
    )
}

/// Answers a `pause` request with a response without content. The state is
/// left as it is: the stop location moves, and the `stopped` event is made,
/// in [`pause_answered`], once the response has been written.
pub fn handle_pause(req: &Request, _args: &PauseArguments, _st: &DapState) -> (answer: Answer)
    ensures
        answer@ == response_then(req.seq, ResponseBodyView::Pause, FollowUp::Stopped),
{
    Answer { response: req.success(ResponseBody::Pause), follow_up: FollowUp::Stopped }
}

/// What follows the written response to a `pause` request: computes the stop
/// location anew and stores it, and gives the `stopped` event to send.
pub fn pause_answered(st: &mut DapState) -> (event: Event)
    ensures
        final(st)@ == old(st)@.relocated(),
        event@ == stopped_on_pause(old(st)@),
{
    st.pick_stop_location();
    Event::Stopped(
        StoppedEventBody {
            reason: StoppedEventReason::Pause,
            description: Some(String::from_str("Paused")),
            thread_id: Some(st.main_thread_id()),
            preserve_focus_hint: Some(false),
            text: None,
            all_threads_stopped: Some(true),
            hit_breakpoint_ids: None,
        },
    )
}

/// The event that tells that the debuggee runs again, all threads with the
/// main thread.
pub open spec fn continued_all(state: DapStateView) -> EventView {
    EventView::Continued(
        ContinuedEventBody { thread_id: state.main_thread_id, all_threads_continued: Some(true) },
    )
}

/// Answers a `continue` request; the `continued` event is due once the
/// response has been written. The stop location stays as the last pause left
/// it.
pub fn handle_continue(req: &Request, _args: &ContinueArguments, _st: &DapState) -> (answer:
    Answer)
    ensures
        answer@ == response_then(
            req.seq,
            ResponseBodyView::Continue { all_threads_continued: Some(true) },
            FollowUp::Continued,
        ),
{
    Answer {
        response: req.success(
            ResponseBody::Continue(ContinueResponse { all_threads_continued: Some(true) }),
        ),
        follow_up: FollowUp::Continued,
    }
}

/// What follows the written response to a `continue` request: the
/// `continued` event to send.
pub fn continue_answered(st: &DapState) -> (event: Event)
    ensures
        event@ == continued_all(st@),
{
    Event::Continued(
        ContinuedEventBody { thread_id: st.main_thread_id(), all_threads_continued: Some(true) },
    )
}

/// The source that stands in for a session that has none yet: it has
/// neither name nor path.
pub open spec fn placeholder_source() -> SourceView {
    SourceView::unnamed()
}

/// The call stack of a session: one frame, in the current source (or the
/// placeholder) at the stop location.
pub open spec fn reported_frames(state: DapStateView) -> Seq<StackFrameView> {
    seq![
        StackFrameView {
            id: 1,
            name: "main"@,
            source: Some(
                match state.current_source {
                    Some(source) => source,
                    None => placeholder_source(),
                },
            ),
            line: state.stopped_line,
            column: state.stopped_column,
        },
    ]
}

/// Answers a `stackTrace` request with the session's one frame.
pub fn handle_stack_trace(req: &Request, _args: &StackTraceArguments, st: &DapState) -> (answer:
    Answer)
    ensures
        answer@ == response_only(
            req.seq,
            ResponseBodyView::StackTrace {
                stack_frames: reported_frames(st@),
                total_frames: Some(1),
            },
        ),
{
    let source = match st.current_source() {
        Some(current) => current.clone(),
        None => Source::default(),
    };
    let frames = vec![
        StackFrame {
            id: 1,
            name: String::from_str("main"),
            source: Some(source),
            line: st.stopped_line(),
            column: st.stopped_column(),
        },
    ];
    assert(frames.deep_view() =~= reported_frames(st@));
    respond(
        req.success(
            ResponseBody::StackTrace(
                StackTraceResponse { stack_frames: frames, total_frames: Some(1) },
            ),
        ),
    )
}

/// The scopes of a session: the local variables alone, under the session's
/// handle.
pub open spec fn reported_scopes(state: DapStateView) -> Seq<ScopeView> {
    seq![ScopeView { name: "Locals"@, variables_reference: state.vars_ref, expensive: false }]
}

/// Answers a `scopes` request with the session's one scope.
pub fn handle_scopes(req: &Request, _args: &ScopesArguments, st: &DapState) -> (answer: Answer)
    ensures
        answer@ == response_only(req.seq, ResponseBodyView::Scopes(reported_scopes(st@))),
{
    let scopes = vec![
        Scope {
            name: String::from_str("Locals"),
            variables_reference: st.vars_ref(),
            expensive: false,
        },
    ];
    assert(scopes.deep_view() =~= reported_scopes(st@));
    respond(req.success(ResponseBody::Scopes(ScopesResponse { scopes })))
}

/// The variables of a session: one, whatever handle the client names.
pub open spec fn reported_variables() -> Seq<VariableView> {
    seq![
        VariableView {
            name: "demo"@,
            value: "1"@,
            type_field: Some("i32"@),
            evaluate_name: Some("demo"@),
            variables_reference: 0,
        },
    ]
}

/// Answers a `variables` request with the session's one variable. The handle
/// in the request is not looked at.
pub fn handle_variables(req: &Request, _args: &VariablesArguments, _st: &DapState) -> (answer:
    Answer)
    ensures
        answer@ == response_only(req.seq, ResponseBodyView::Variables(reported_variables())),
{
    let variables = vec![
        Variable {
            name: String::from_str("demo"),
            value: String::from_str("1"),
            type_field: Some(String::from_str("i32")),
            evaluate_name: Some(String::from_str("demo")),
            variables_reference: 0,
        },
    ];
    assert(variables.deep_view() =~= reported_variables());
    respond(req.success(ResponseBody::Variables(VariablesResponse { variables })))
}

/// Answers a `disconnect` request. What the client intends for the debuggee
/// is accepted and changes nothing.
pub fn handle_disconnect(req: &Request, _args: &DisconnectArguments) -> (answer: Answer)
    ensures
        answer@ == response_only(req.seq, ResponseBodyView::Disconnect),
{
    respond(req.success(ResponseBody::Disconnect))
}

/// The answer that refuses `req`: a failed response that names the command,
/// and nothing after it.
pub open spec fn refusal(req: Request) -> AnswerView {
    AnswerView {
        response: ResponseView::failure(req.seq, "Unsupported command: "@ + req.command.tag()),
        follow_up: FollowUp::Nothing,
    }
}

/// Answers a request that the session does not support with a failed
/// response, so that the client does not wait.
pub fn handle_unsupported(req: &Request) -> (answer: Answer)
    ensures
        answer@ == refusal(*req),
{
    let mut message = String::from_str("Unsupported command: ");
    let name = req.command.name();
    message.append(name.as_str());
    respond(req.error(message.as_str()))
}

/// The answer to `req` in a session in state `state`.
pub open spec fn answer_to(state: DapStateView, req: Request) -> AnswerView {
    match req.command {
        Command::Initialize(_) => response_then(
            req.seq,
            ResponseBodyView::Initialize(declared_capabilities()),
            FollowUp::Initialized,
        ),
        Command::Launch(_) => response_only(req.seq, ResponseBodyView::Launch),
        Command::Restart(_) => response_only(req.seq, ResponseBodyView::Restart),
        Command::Attach(_) => response_only(req.seq, ResponseBodyView::Attach),
        Command::ConfigurationDone => response_only(req.seq, ResponseBodyView::ConfigurationDone),
        Command::SetBreakpoints(args) => response_only(
            req.seq,
            ResponseBodyView::SetBreakpoints(reported_breakpoints(args)),
        ),
        Command::SetExceptionBreakpoints(_) => response_only(
            req.seq,
            ResponseBodyView::SetExceptionBreakpoints(None),
        ),
        Command::Threads => response_only(
            req.seq,
            ResponseBodyView::Threads(reported_threads(state)),
        ),
        Command::Pause(_) => response_then(req.seq, ResponseBodyView::Pause, FollowUp::Stopped),
        Command::Continue(_) => response_then(
            req.seq,
            ResponseBodyView::Continue { all_threads_continued: Some(true) },
            FollowUp::Continued,
        ),
        Command::StackTrace(_) => response_only(
            req.seq,
            ResponseBodyView::StackTrace {
                stack_frames: reported_frames(state),
                total_frames: Some(1),
            },
        ),
        Command::Scopes(_) => response_only(
            req.seq,
            ResponseBodyView::Scopes(reported_scopes(state)),
        ),
        Command::Variables(_) => response_only(
            req.seq,
            ResponseBodyView::Variables(reported_variables()),
        ),
        Command::Disconnect(_) => response_only(req.seq, ResponseBodyView::Disconnect),
        Command::Other(_) => refusal(req),
    }
}

/// The state of a session when the response to `req` is handed out, where it
/// was `state` before: only `setBreakpoints` has changed it by then.
pub open spec fn state_on_request(state: DapStateView, req: Request) -> DapStateView {
    match req.command {
        Command::SetBreakpoints(args) => state_after_set_breakpoints(state, args),
        _ => state,
    }
}

/// The event that is sent once a response has been written after which
/// `due` is due, in a session in state `state`.
pub open spec fn event_due(state: DapStateView, due: FollowUp) -> Option<EventView> {
    match due {
        FollowUp::Nothing => None,
        FollowUp::Initialized => Some(EventView::Initialized),
        FollowUp::Stopped => Some(stopped_on_pause(state)),
        FollowUp::Continued => Some(continued_all(state)),
    }
}

/// The state of a session once a response has been written after which `due`
/// was due, where it was `state` before: only a stop moves the stop
/// location.
pub open spec fn state_once_answered(state: DapStateView, due: FollowUp) -> DapStateView {
    match due {
        FollowUp::Stopped => state.relocated(),
        _ => state,
    }
}

/// The messages that are written for `req` in a session in state `state`
/// whose writes succeed, in the order in which they are written: the
/// response, and after it the event that is due, if one is.
pub open spec fn emitted(state: DapStateView, req: Request) -> Seq<Message> {
    let answer = answer_to(state, req);
    let response = seq![Message::Response(answer.response)];
    match event_due(state_on_request(state, req), answer.follow_up) {
        Some(event) => response.push(Message::Event(event)),
        None => response,
    }
}

/// The state of a session after `req` was served and its writes succeeded,
/// where it was `state` before. Only `setBreakpoints` and `pause` change it.
pub open spec fn next_state(state: DapStateView, req: Request) -> DapStateView {
    state_once_answered(state_on_request(state, req), answer_to(state, req).follow_up)
}

/// Whether the session can serve `req`: every request but a `setBreakpoints`
/// with more breakpoints than the protocol's integer can number.
pub open spec fn servable(req: Request) -> bool {
    req.command matches Command::SetBreakpoints(args) ==> numberable(args)
}

/// Tells whether the session can serve `req`.
pub fn can_serve(req: &Request) -> (ok: bool)
    ensures
        ok == servable(*req),
{
    match &req.command {
        Command::SetBreakpoints(args) => match &args.breakpoints {
            Some(asked) => asked.len() as u64 <= i64::MAX as u64,
            None => true,
        },
        _ => true,
    }
}

/// Takes the first step in serving a request: selects the handler of its
/// command, and gives the response to write and what is due once it has been
/// written. A command without a handler is refused with a failed response.
/// Of the state, only what `setBreakpoints` records has changed on return.
pub fn handle(req: &Request, state: &mut DapState) -> (answer: Answer)
    requires
        servable(*req),
    ensures
        answer@ == answer_to(old(state)@, *req),
        final(state)@ == state_on_request(old(state)@, *req),
{
    match &req.command {
        Command::Initialize(args) => handle_initialize(req, args),
        Command::Launch(args) => handle_launch(req, args, state),
        Command::Restart(args) => handle_restart(req, args),
        Command::Attach(args) => handle_attach(req, args),
        Command::ConfigurationDone => handle_configuration_done(req),
        Command::SetBreakpoints(args) => handle_set_breakpoints(req, args, state),
        Command::SetExceptionBreakpoints(args) => handle_set_exception_breakpoints(req, args),
        Command::Threads => handle_threads(req, state),
        Command::Pause(args) => handle_pause(req, args, state),
        Command::Continue(args) => handle_continue(req, args, state),
        Command::StackTrace(args) => handle_stack_trace(req, args, state),
        Command::Scopes(args) => handle_scopes(req, args, state),
        Command::Variables(args) => handle_variables(req, args, state),
        Command::Disconnect(args) => handle_disconnect(req, args),
        Command::Other(_) => handle_unsupported(req),
    }
}

/// Takes the second step in serving a request, for a caller that has written
/// the response: does what `due` says is due, and gives the event to send,
/// if there is one. The state is changed before the event is written, and
/// stays changed if that write fails.
pub fn answered(due: FollowUp, state: &mut DapState) -> (event: Option<Event>)
    ensures
        event.deep_view() == event_due(old(state)@, due),
        final(state)@ == state_once_answered(old(state)@, due),
{
    match due {
        FollowUp::Nothing => None,
        FollowUp::Initialized => Some(initialize_answered()),
        FollowUp::Stopped => Some(pause_answered(state)),
        FollowUp::Continued => Some(continue_answered(state)),
    }
}

} // verus!
