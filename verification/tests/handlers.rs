use dap_session::base_message::{Answer, FollowUp};
use dap_session::command_handler::{
    answered, continue_answered, handle, handle_attach, handle_configuration_done,
    handle_continue, handle_disconnect, handle_initialize, handle_launch, handle_pause,
    handle_restart, handle_scopes, handle_set_exception_breakpoints, handle_stack_trace,
    handle_threads, handle_unsupported, handle_variables, initialize_answered, pause_answered,
};
use dap_session::events::{ContinuedEventBody, Event, StoppedEventBody};
use dap_session::json::Json;
use dap_session::requests::{
    AttachRequestArguments, Command, ContinueArguments, DisconnectArguments, InitializeArguments,
    LaunchRequestArguments, PathFormat, PauseArguments, Request, RestartArguments,
    ScopesArguments, SetBreakpointsArguments, SetExceptionBreakpointsArguments,
    StackTraceArguments, VariablesArguments,
};
use dap_session::responses::{
    ContinueResponse, Response, ResponseBody, ScopesResponse, SetExceptionBreakpointsResponse,
    StackTraceResponse, ThreadsResponse, VariablesResponse,
};
use dap_session::state::DapState;
use dap_session::types::{
    Capabilities, Scope, Source, SourceBreakpoint, StackFrame, StoppedEventReason, Thread,
    Variable,
};

fn request(seq: i64, command: Command) -> Request {
    Request { seq, command }
}

/// Serves a request as a caller does whose writes all succeed: what was
/// written is the response and then the event, if there is one.
fn serve(req: &Request, state: &mut DapState) -> (Response, Option<Event>) {
    let answer = handle(req, state);
    let event = answered(answer.follow_up, state);
    (answer.response, event)
}

fn success(seq: i64, body: ResponseBody) -> Response {
    Response { request_seq: seq, success: true, message: None, body: Some(body) }
}

fn done(seq: i64, body: ResponseBody) -> Answer {
    Answer { response: success(seq, body), follow_up: FollowUp::Nothing }
}

fn initialize_arguments() -> InitializeArguments {
    InitializeArguments {
        client_id: Some("vscode".to_string()),
        client_name: Some("Visual Studio Code".to_string()),
        adapter_id: "demo".to_string(),
        locale: Some("en".to_string()),
        lines_start_at1: Some(true),
        columns_start_at1: Some(true),
        path_format: Some(PathFormat::Path),
        supports_variable_type: Some(true),
        supports_variable_paging: Some(true),
        supports_run_in_terminal_request: Some(true),
        supports_memory_references: Some(true),
        supports_progress_reporting: Some(true),
        supports_invalidated_event: Some(true),
        supports_memory_event: Some(true),
        supports_args_can_be_interpreted_by_shell: Some(true),
        supports_start_debugging_request: Some(true),
    }
}

fn bare_initialize_arguments() -> InitializeArguments {
    InitializeArguments {
        client_id: None,
        client_name: None,
        adapter_id: String::new(),
        locale: None,
        lines_start_at1: Some(false),
        columns_start_at1: Some(false),
        path_format: Some(PathFormat::Other("url".to_string())),
        supports_variable_type: None,
        supports_variable_paging: None,
        supports_run_in_terminal_request: None,
        supports_memory_references: None,
        supports_progress_reporting: None,
        supports_invalidated_event: None,
        supports_memory_event: None,
        supports_args_can_be_interpreted_by_shell: None,
        supports_start_debugging_request: None,
    }
}

fn declared() -> Capabilities {
    Capabilities {
        supports_configuration_done_request: Some(true),
        supports_set_variable: Some(false),
        supports_step_back: Some(false),
        supports_restart_frame: Some(false),
        supports_goto_targets_request: Some(false),
        supports_conditional_breakpoints: Some(false),
        supports_hit_conditional_breakpoints: Some(false),
        supports_terminate_request: Some(false),
        supports_evaluate_for_hovers: Some(false),
    }
}

fn stopped_on_pause() -> Event {
    Event::Stopped(StoppedEventBody {
        reason: StoppedEventReason::Pause,
        description: Some("Paused".to_string()),
        thread_id: Some(1),
        preserve_focus_hint: Some(false),
        text: None,
        all_threads_stopped: Some(true),
        hit_breakpoint_ids: None,
    })
}

fn continued() -> Event {
    Event::Continued(ContinuedEventBody { thread_id: 1, all_threads_continued: Some(true) })
}

fn set_lines(seq: i64, path: &str, lines: &[i64]) -> Request {
    request(
        seq,
        Command::SetBreakpoints(SetBreakpointsArguments {
            source: Source { name: Some("a.rs".to_string()), path: Some(path.to_string()), ..Default::default() },
            breakpoints: Some(
                lines
                    .iter()
                    .map(|line| SourceBreakpoint {
                        line: *line,
                        column: None,
                        condition: None,
                        hit_condition: None,
                        log_message: None,
                    })
                    .collect(),
            ),
            source_modified: None,
        }),
    )
}

fn pause(seq: i64) -> Request {
    request(seq, Command::Pause(PauseArguments { thread_id: 1 }))
}

fn stack_trace(seq: i64) -> Request {
    request(
        seq,
        Command::StackTrace(StackTraceArguments { thread_id: 1, start_frame: None, levels: None }),
    )
}

fn only_frame(response: &Response) -> StackFrame {
    match response {
        Response {
            success: true,
            body: Some(ResponseBody::StackTrace(StackTraceResponse { stack_frames, total_frames })),
            ..
        } => {
            assert_eq!(*total_frames, Some(1));
            assert_eq!(stack_frames.len(), 1);
            stack_frames[0].clone()
        }
        other => panic!("not a stackTrace response: {:?}", other),
    }
}

fn frame_now(seq: i64, state: &mut DapState) -> StackFrame {
    let (response, event) = serve(&stack_trace(seq), state);
    assert_eq!(event, None);
    only_frame(&response)
}

#[test]
fn initialize_sends_the_response_and_then_the_initialized_event() {
    let mut state = DapState::new();
    let written = serve(&request(1, Command::Initialize(initialize_arguments())), &mut state);
    assert_eq!(
        written,
        (success(1, ResponseBody::Initialize(declared())), Some(Event::Initialized))
    );
}

#[test]
fn initialize_hands_out_the_response_with_the_event_still_due() {
    let mut state = DapState::new();
    let answer = handle(&request(1, Command::Initialize(initialize_arguments())), &mut state);
    assert_eq!(
        answer,
        Answer {
            response: success(1, ResponseBody::Initialize(declared())),
            follow_up: FollowUp::Initialized,
        }
    );
    assert_eq!(initialize_answered(), Event::Initialized);
}

#[test]
fn initialize_does_not_look_at_what_the_client_says_of_itself() {
    let full = request(8, Command::Initialize(initialize_arguments()));
    let bare = request(8, Command::Initialize(bare_initialize_arguments()));
    let mut state = DapState::new();
    assert_eq!(serve(&full, &mut state), serve(&bare, &mut state));
    assert_eq!(
        handle_initialize(&full, &bare_initialize_arguments()),
        handle_initialize(&bare, &initialize_arguments())
    );
}

#[test]
fn initialize_declares_configuration_done_and_nothing_else() {
    let req = request(1, Command::Initialize(initialize_arguments()));
    let answer = handle_initialize(&req, &initialize_arguments());
    match &answer.response {
        Response { body: Some(ResponseBody::Initialize(caps)), .. } => {
            assert_eq!(caps.supports_configuration_done_request, Some(true));
            assert_eq!(caps.supports_set_variable, Some(false));
            assert_eq!(caps.supports_step_back, Some(false));
            assert_eq!(caps.supports_restart_frame, Some(false));
            assert_eq!(caps.supports_goto_targets_request, Some(false));
            assert_eq!(caps.supports_conditional_breakpoints, Some(false));
            assert_eq!(caps.supports_hit_conditional_breakpoints, Some(false));
            assert_eq!(caps.supports_terminate_request, Some(false));
            assert_eq!(caps.supports_evaluate_for_hovers, Some(false));
        }
        other => panic!("not an initialize response: {:?}", other),
    }
}

#[test]
fn pause_sends_the_response_and_then_the_stopped_event() {
    let mut state = DapState::new();
    let written = serve(&pause(4), &mut state);
    assert_eq!(written, (success(4, ResponseBody::Pause), Some(stopped_on_pause())));
}

#[test]
fn pause_leaves_the_stop_location_until_its_response_was_written() {
    let mut state = DapState::new();
    serve(&set_lines(1, "/a.rs", &[10, 20]), &mut state);
    let answer = handle(&pause(2), &mut state);
    assert_eq!(
        answer,
        Answer { response: success(2, ResponseBody::Pause), follow_up: FollowUp::Stopped }
    );
    assert_eq!((state.stopped_line(), state.stopped_column()), (1, 1));
    assert_eq!(frame_now(3, &mut state).line, 1);
    assert_eq!(answered(answer.follow_up, &mut state), Some(stopped_on_pause()));
    assert_eq!((state.stopped_line(), state.stopped_column()), (10, 1));
    assert_eq!(frame_now(4, &mut state).line, 10);
}

#[test]
fn pause_whose_response_was_not_written_moves_nothing() {
    let mut state = DapState::new();
    serve(&set_lines(1, "/a.rs", &[10]), &mut state);
    serve(&pause(2), &mut state);
    serve(&set_lines(3, "/a.rs", &[50]), &mut state);
    let args = PauseArguments { thread_id: 1 };
    let unwritten = handle_pause(&pause(4), &args, &state);
    assert_eq!(unwritten.follow_up, FollowUp::Stopped);
    assert_eq!((state.stopped_line(), state.stopped_column()), (10, 1));
    assert_eq!(frame_now(5, &mut state).line, 10);
}

#[test]
fn pause_answered_moves_the_stop_location_and_gives_the_event() {
    let mut state = DapState::new();
    serve(&set_lines(1, "/a.rs", &[7, 3]), &mut state);
    assert_eq!(pause_answered(&mut state), stopped_on_pause());
    assert_eq!((state.stopped_line(), state.stopped_column()), (7, 1));
}

#[test]
fn continue_sends_the_response_and_then_the_continued_event() {
    let mut state = DapState::new();
    let req = request(
        5,
        Command::Continue(ContinueArguments { thread_id: 17, single_thread: Some(true) }),
    );
    let written = serve(&req, &mut state);
    assert_eq!(
        written,
        (
            success(
                5,
                ResponseBody::Continue(ContinueResponse { all_threads_continued: Some(true) })
            ),
            Some(continued()),
        )
    );
}

#[test]
fn continue_leaves_the_stop_location_as_the_last_pause_left_it() {
    let mut state = DapState::new();
    serve(&set_lines(1, "/a.rs", &[10, 20]), &mut state);
    serve(&pause(2), &mut state);
    let args = ContinueArguments { thread_id: 1, single_thread: None };
    let answer = handle_continue(&request(3, Command::Continue(args)), &args, &state);
    assert_eq!(answer.follow_up, FollowUp::Continued);
    assert_eq!(continue_answered(&state), continued());
    assert_eq!(answered(answer.follow_up, &mut state), Some(continued()));
    assert_eq!((state.stopped_line(), state.stopped_column()), (10, 1));
    assert_eq!(frame_now(4, &mut state).line, 10);
}

#[test]
fn stack_trace_reports_the_first_breakpoint_after_a_pause() {
    let mut state = DapState::new();
    serve(&set_lines(1, "/a.rs", &[10, 20]), &mut state);
    serve(&pause(2), &mut state);
    let frame = frame_now(3, &mut state);
    assert_eq!(frame.line, 10);
    assert_eq!(frame.column, 1);
}

#[test]
fn stack_trace_reports_line_one_after_a_pause_without_breakpoints() {
    let mut state = DapState::new();
    serve(&set_lines(1, "/a.rs", &[10, 20]), &mut state);
    serve(&pause(2), &mut state);
    serve(&set_lines(3, "/a.rs", &[]), &mut state);
    serve(&pause(4), &mut state);
    let frame = frame_now(5, &mut state);
    assert_eq!(frame.line, 1);
    assert_eq!(frame.column, 1);
}

#[test]
fn stack_trace_reports_one_frame_named_main_in_the_current_source() {
    let mut state = DapState::new();
    serve(&set_lines(1, "/a.rs", &[42]), &mut state);
    serve(&pause(2), &mut state);
    let written = serve(&stack_trace(3), &mut state);
    assert_eq!(
        written,
        (
            success(
                3,
                ResponseBody::StackTrace(StackTraceResponse {
                    stack_frames: vec![StackFrame {
                        id: 1,
                        name: "main".to_string(),
                        source: Some(Source {
                            name: Some("a.rs".to_string()),
                            path: Some("/a.rs".to_string()),
                            ..Default::default()
                        }),
                        line: 42,
                        column: 1,
                    }],
                    total_frames: Some(1),
                })
            ),
            None,
        )
    );
}

#[test]
fn stack_trace_of_a_fresh_session_is_in_a_source_without_name_or_path() {
    let state = DapState::new();
    let args = StackTraceArguments { thread_id: 1, start_frame: Some(0), levels: Some(20) };
    let answer = handle_stack_trace(&request(9, Command::StackTrace(args)), &args, &state);
    assert_eq!(answer.follow_up, FollowUp::Nothing);
    assert_eq!(
        only_frame(&answer.response),
        StackFrame {
            id: 1,
            name: "main".to_string(),
            source: Some(Source { name: None, path: None, ..Default::default() }),
            line: 1,
            column: 1,
        }
    );
}

#[test]
fn stack_trace_keeps_the_placeholder_until_a_source_is_named() {
    let mut state = DapState::new();
    serve(&pause(1), &mut state);
    assert_eq!(frame_now(2, &mut state).source, Some(Source { name: None, path: None, ..Default::default() }));
    serve(&set_lines(3, "/a.rs", &[5]), &mut state);
    assert_eq!(
        frame_now(4, &mut state).source,
        Some(Source { name: Some("a.rs".to_string()), path: Some("/a.rs".to_string()), ..Default::default() })
    );
}

#[test]
fn stack_trace_says_the_current_source_back_with_every_field() {
    let mut state = DapState::new();
    let sent = || Source {
        name: Some("gen.rs".to_string()),
        path: Some("/gen.rs".to_string()),
        source_reference: Some(42),
        presentation_hint: None,
        origin: Some("somewhere".to_string()),
        sources: Some(vec![Source::default()]),
        adapter_data: Some(Json::Text("opaque".to_string())),
        checksums: None,
    };
    let set = request(
        1,
        Command::SetBreakpoints(SetBreakpointsArguments {
            source: sent(),
            breakpoints: None,
            source_modified: Some(true),
        }),
    );
    serve(&set, &mut state);
    assert_eq!(frame_now(2, &mut state).source, Some(sent()));
}

#[test]
fn stop_location_is_stale_until_the_next_pause() {
    let mut state = DapState::new();
    serve(&set_lines(1, "/a.rs", &[10]), &mut state);
    assert_eq!(frame_now(2, &mut state).line, 1);
    serve(&pause(3), &mut state);
    assert_eq!(frame_now(4, &mut state).line, 10);
    serve(&set_lines(5, "/a.rs", &[50, 60]), &mut state);
    assert_eq!(frame_now(6, &mut state).line, 10);
    serve(&pause(7), &mut state);
    assert_eq!(frame_now(8, &mut state).line, 50);
}

#[test]
fn pause_follows_the_current_source_only() {
    let mut state = DapState::new();
    serve(&set_lines(1, "/a.rs", &[10]), &mut state);
    serve(&set_lines(2, "/b.rs", &[77, 5]), &mut state);
    serve(&pause(3), &mut state);
    assert_eq!(state.stopped_line(), 77);
    serve(&set_lines(4, "/c.rs", &[]), &mut state);
    serve(&pause(5), &mut state);
    assert_eq!((state.stopped_line(), state.stopped_column()), (1, 1));
}

#[test]
fn pause_with_a_source_without_path_stops_at_line_one() {
    let mut state = DapState::new();
    serve(&set_lines(1, "/a.rs", &[10]), &mut state);
    serve(&pause(2), &mut state);
    assert_eq!(state.stopped_line(), 10);
    let unnamed = request(
        3,
        Command::SetBreakpoints(SetBreakpointsArguments {
            source: Source { name: Some("scratch".to_string()), path: None, ..Default::default() },
            breakpoints: Some(vec![SourceBreakpoint {
                line: 33,
                column: None,
                condition: None,
                hit_condition: None,
                log_message: None,
            }]),
            source_modified: None,
        }),
    );
    serve(&unnamed, &mut state);
    serve(&pause(4), &mut state);
    assert_eq!((state.stopped_line(), state.stopped_column()), (1, 1));
}

#[test]
fn pausing_twice_gives_the_same_location() {
    let mut state = DapState::new();
    serve(&set_lines(1, "/a.rs", &[15, 3]), &mut state);
    let first = serve(&pause(2), &mut state);
    let once = (state.stopped_line(), state.stopped_column());
    let second = serve(&pause(2), &mut state);
    assert_eq!(first, second);
    assert_eq!(once, (15, 1));
    assert_eq!((state.stopped_line(), state.stopped_column()), once);
}

#[test]
fn pick_stop_location_takes_the_first_line_of_the_current_source() {
    let mut state = DapState::new();
    state.set_current_source(Source { name: None, path: Some("/x.rs".to_string()), ..Default::default() });
    state.set_breakpoints("/x.rs".to_string(), vec![8, 2]);
    state.set_breakpoints("/y.rs".to_string(), vec![100]);
    state.pick_stop_location();
    assert_eq!((state.stopped_line(), state.stopped_column()), (8, 1));
    state.set_breakpoints("/x.rs".to_string(), Vec::new());
    state.pick_stop_location();
    assert_eq!((state.stopped_line(), state.stopped_column()), (1, 1));
}

#[test]
fn threads_reports_the_main_thread_every_time() {
    let mut state = DapState::new();
    let expected = success(
        6,
        ResponseBody::Threads(ThreadsResponse {
            threads: vec![Thread { id: 1, name: "Main Thread".to_string() }],
        }),
    );
    assert_eq!(serve(&request(6, Command::Threads), &mut state), (expected.clone(), None));
    serve(&set_lines(1, "/a.rs", &[10]), &mut state);
    serve(&pause(2), &mut state);
    serve(
        &request(
            3,
            Command::Disconnect(DisconnectArguments {
                restart: Some(true),
                terminate_debuggee: Some(true),
                suspend_debuggee: None,
            }),
        ),
        &mut state,
    );
    assert_eq!(serve(&request(6, Command::Threads), &mut state), (expected.clone(), None));
    assert_eq!(
        handle_threads(&request(6, Command::Threads), &state),
        Answer { response: expected, follow_up: FollowUp::Nothing }
    );
    assert_eq!(state.main_thread_id(), 1);
}

#[test]
fn scopes_reports_the_locals_under_the_session_handle() {
    let mut state = DapState::new();
    let args = ScopesArguments { frame_id: 1 };
    let expected = done(
        12,
        ResponseBody::Scopes(ScopesResponse {
            scopes: vec![Scope {
                name: "Locals".to_string(),
                variables_reference: 2000,
                expensive: false,
            }],
        }),
    );
    assert_eq!(handle(&request(12, Command::Scopes(args)), &mut state), expected);
    assert_eq!(handle_scopes(&request(12, Command::Scopes(args)), &args, &state), expected);
}

#[test]
fn variables_reports_one_variable_whatever_the_handle() {
    let mut state = DapState::new();
    let expected = |seq: i64| {
        done(
            seq,
            ResponseBody::Variables(VariablesResponse {
                variables: vec![Variable {
                    name: "demo".to_string(),
                    value: "1".to_string(),
                    type_field: Some("i32".to_string()),
                    evaluate_name: Some("demo".to_string()),
                    variables_reference: 0,
                }],
            }),
        )
    };
    let known = VariablesArguments { variables_reference: 2000, start: None, count: None };
    let unknown = VariablesArguments { variables_reference: -7, start: Some(3), count: Some(0) };
    assert_eq!(handle(&request(1, Command::Variables(known)), &mut state), expected(1));
    assert_eq!(handle(&request(2, Command::Variables(unknown)), &mut state), expected(2));
    assert_eq!(
        handle_variables(&request(3, Command::Variables(unknown)), &unknown, &state),
        expected(3)
    );
}

#[test]
fn single_response_commands_answer_with_their_own_body() {
    let mut state = DapState::new();
    let launch =
        || LaunchRequestArguments { no_debug: None, restart_data: None, additional_data: None };
    let attach = || AttachRequestArguments { restart_data: None, additional_data: None };
    let disconnect =
        DisconnectArguments { restart: None, terminate_debuggee: None, suspend_debuggee: None };
    assert_eq!(
        serve(&request(1, Command::ConfigurationDone), &mut state),
        (success(1, ResponseBody::ConfigurationDone), None)
    );
    assert_eq!(
        serve(&request(2, Command::Launch(launch())), &mut state),
        (success(2, ResponseBody::Launch), None)
    );
    assert_eq!(
        serve(&request(3, Command::Restart(RestartArguments { arguments: None })), &mut state),
        (success(3, ResponseBody::Restart), None)
    );
    assert_eq!(
        serve(&request(4, Command::Attach(attach())), &mut state),
        (success(4, ResponseBody::Attach), None)
    );
    assert_eq!(
        serve(&request(5, Command::Disconnect(disconnect)), &mut state),
        (success(5, ResponseBody::Disconnect), None)
    );
    assert_eq!(
        handle_configuration_done(&request(6, Command::ConfigurationDone)),
        done(6, ResponseBody::ConfigurationDone)
    );
    assert_eq!(
        handle_launch(&request(7, Command::Launch(launch())), &launch(), &state),
        done(7, ResponseBody::Launch)
    );
    assert_eq!(
        handle_restart(
            &request(8, Command::Restart(RestartArguments { arguments: None })),
            &RestartArguments { arguments: None }
        ),
        done(8, ResponseBody::Restart)
    );
    assert_eq!(
        handle_attach(&request(9, Command::Attach(attach())), &attach()),
        done(9, ResponseBody::Attach)
    );
}

#[test]
fn launch_succeeds_whatever_the_payload_holds() {
    let mut state = DapState::new();
    let payloads = vec![
        None,
        Some(Json::Null),
        Some(Json::Object(vec![("args".to_string(), Json::Text("--port".to_string()))])),
        Some(Json::Object(vec![(
            "args".to_string(),
            Json::Array(vec![Json::Text("--port".to_string()), Json::Text("x".to_string())]),
        )])),
    ];
    for (k, payload) in payloads.into_iter().enumerate() {
        let args = LaunchRequestArguments {
            no_debug: Some(true),
            restart_data: None,
            additional_data: payload,
        };
        let seq = 20 + k as i64;
        assert_eq!(
            serve(&request(seq, Command::Launch(args)), &mut state),
            (success(seq, ResponseBody::Launch), None)
        );
    }
}

#[test]
fn set_exception_breakpoints_reports_no_breakpoints() {
    let mut state = DapState::new();
    let args = || SetExceptionBreakpointsArguments {
        filters: vec!["uncaught".to_string(), "raised".to_string()],
    };
    let expected = |seq: i64| {
        done(
            seq,
            ResponseBody::SetExceptionBreakpoints(SetExceptionBreakpointsResponse {
                breakpoints: None,
            }),
        )
    };
    assert_eq!(
        handle(&request(1, Command::SetExceptionBreakpoints(args())), &mut state),
        expected(1)
    );
    assert_eq!(
        handle_set_exception_breakpoints(
            &request(2, Command::SetExceptionBreakpoints(args())),
            &args()
        ),
        expected(2)
    );
}

#[test]
fn disconnect_leaves_the_session_state_as_it_is() {
    let mut state = DapState::new();
    serve(&set_lines(1, "/a.rs", &[10, 20]), &mut state);
    serve(&pause(2), &mut state);
    let args = DisconnectArguments {
        restart: Some(false),
        terminate_debuggee: Some(true),
        suspend_debuggee: Some(false),
    };
    let written = serve(&request(3, Command::Disconnect(args)), &mut state);
    assert_eq!(written, (success(3, ResponseBody::Disconnect), None));
    assert_eq!(
        handle_disconnect(&request(3, Command::Disconnect(args)), &args),
        done(3, ResponseBody::Disconnect)
    );
    assert_eq!(state.breakpoints_for("/a.rs"), Some(&vec![10, 20]));
    assert_eq!((state.stopped_line(), state.stopped_column()), (10, 1));
    assert!(state.current_source().is_some());
}

#[test]
fn unsupported_command_gets_a_failed_response_that_names_it() {
    let mut state = DapState::new();
    let written = serve(&request(31, Command::Other("evaluate".to_string())), &mut state);
    assert_eq!(
        written,
        (
            Response {
                request_seq: 31,
                success: false,
                message: Some("Unsupported command: evaluate".to_string()),
                body: None,
            },
            None,
        )
    );
}

#[test]
fn unsupported_command_with_an_empty_tag_is_still_answered() {
    let mut state = DapState::new();
    let answer = handle(&request(-1, Command::Other(String::new())), &mut state);
    assert_eq!(
        answer,
        Answer {
            response: Response {
                request_seq: -1,
                success: false,
                message: Some("Unsupported command: ".to_string()),
                body: None,
            },
            follow_up: FollowUp::Nothing,
        }
    );
}

#[test]
fn refusing_names_a_command_by_its_tag() {
    let answer = handle_unsupported(&request(2, Command::Threads));
    assert_eq!(
        answer,
        Answer {
            response: Response {
                request_seq: 2,
                success: false,
                message: Some("Unsupported command: threads".to_string()),
                body: None,
            },
            follow_up: FollowUp::Nothing,
        }
    );
}

#[test]
fn nothing_is_due_after_a_response_that_ends_its_request() {
    let mut state = DapState::new();
    serve(&set_lines(1, "/a.rs", &[10]), &mut state);
    assert_eq!(answered(FollowUp::Nothing, &mut state), None);
    assert_eq!(answered(FollowUp::Initialized, &mut state), Some(Event::Initialized));
    assert_eq!(answered(FollowUp::Continued, &mut state), Some(continued()));
    assert_eq!((state.stopped_line(), state.stopped_column()), (1, 1));
    assert_eq!(answered(FollowUp::Stopped, &mut state), Some(stopped_on_pause()));
    assert_eq!((state.stopped_line(), state.stopped_column()), (10, 1));
}

#[test]
fn every_request_gets_exactly_one_response_and_it_comes_first() {
    let mut state = DapState::new();
    let requests = vec![
        request(1, Command::Initialize(initialize_arguments())),
        request(2, Command::ConfigurationDone),
        set_lines(3, "/a.rs", &[1, 2, 3]),
        request(4, Command::Threads),
        pause(5),
        stack_trace(6),
        request(7, Command::Scopes(ScopesArguments { frame_id: 1 })),
        request(
            8,
            Command::Variables(VariablesArguments {
                variables_reference: 2000,
                start: None,
                count: None,
            }),
        ),
        request(9, Command::Continue(ContinueArguments { thread_id: 1, single_thread: None })),
        request(10, Command::Other("stepIn".to_string())),
        request(
            11,
            Command::Disconnect(DisconnectArguments {
                restart: None,
                terminate_debuggee: None,
                suspend_debuggee: None,
            }),
        ),
    ];
    for req in &requests {
        let (response, event) = serve(req, &mut state);
        assert_eq!(response.request_seq, req.seq);
        assert_eq!(response.success, !matches!(req.command, Command::Other(_)));
        let expects_event = matches!(
            req.command,
            Command::Initialize(_) | Command::Pause(_) | Command::Continue(_)
        );
        assert_eq!(event.is_some(), expects_event);
    }
}
