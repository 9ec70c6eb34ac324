//! Requests: what a client asks of the adapter.

use crate::json::Json;
use crate::responses::{Response, ResponseBody, ResponseView};
use crate::types::{Source, SourceBreakpoint};
use vstd::prelude::*;

verus! {

/// How the client writes paths.
#[derive(Debug, PartialEq, Eq)]
pub enum PathFormat {
    Path,
    Uri,
    Other(String),
}

/// Arguments of an `initialize` request: who the client is and what it can do.
#[derive(Debug, PartialEq, Eq)]
pub struct InitializeArguments {
    pub client_id: Option<String>,
    pub client_name: Option<String>,
    pub adapter_id: String,
    pub locale: Option<String>,
    pub lines_start_at1: Option<bool>,
    pub columns_start_at1: Option<bool>,
    pub path_format: Option<PathFormat>,
    pub supports_variable_type: Option<bool>,
    pub supports_variable_paging: Option<bool>,
    pub supports_run_in_terminal_request: Option<bool>,
    pub supports_memory_references: Option<bool>,
    pub supports_progress_reporting: Option<bool>,
    pub supports_invalidated_event: Option<bool>,
    pub supports_memory_event: Option<bool>,
    pub supports_args_can_be_interpreted_by_shell: Option<bool>,
    pub supports_start_debugging_request: Option<bool>,
}

/// Arguments of a `launch` request. `additional_data` is the payload that
/// the adapter defines for itself.
#[derive(Debug, PartialEq, Eq)]
pub struct LaunchRequestArguments {
    pub no_debug: Option<bool>,
    pub restart_data: Option<Json>,
    pub additional_data: Option<Json>,
}

/// Arguments of an `attach` request.
#[derive(Debug, PartialEq, Eq)]
pub struct AttachRequestArguments {
    pub restart_data: Option<Json>,
    pub additional_data: Option<Json>,
}

/// The arguments of the launch or attach request that a restart repeats.
#[derive(Debug, PartialEq, Eq)]
pub struct AttachOrLaunchArguments {
    pub no_debug: Option<bool>,
    pub restart_data: Option<Json>,
    pub additional_data: Option<Json>,
}

/// Arguments of a `restart` request.
#[derive(Debug, PartialEq, Eq)]
pub struct RestartArguments {
    pub arguments: Option<AttachOrLaunchArguments>,
}

/// Arguments of a `setBreakpoints` request: a source and the breakpoints
/// wanted in it. An absent list clears the breakpoints of the source.
#[derive(Debug, PartialEq, Eq)]
pub struct SetBreakpointsArguments {
    pub source: Source,
    pub breakpoints: Option<Vec<SourceBreakpoint>>,
    pub source_modified: Option<bool>,
}

/// Arguments of a `setExceptionBreakpoints` request.
#[derive(Debug, PartialEq, Eq)]
pub struct SetExceptionBreakpointsArguments {
    pub filters: Vec<String>,
}

/// Arguments of a `pause` request.
#[derive(Debug, Clone, Copy, PartialEq, Eq)]
pub struct PauseArguments {
    pub thread_id: i64,
}

/// Arguments of a `continue` request.
#[derive(Debug, Clone, Copy, PartialEq, Eq)]
pub struct ContinueArguments {
    pub thread_id: i64,
    pub single_thread: Option<bool>,
}

/// Arguments of a `stackTrace` request.
#[derive(Debug, Clone, Copy, PartialEq, Eq)]
pub struct StackTraceArguments {
    pub thread_id: i64,
    pub start_frame: Option<i64>,
    pub levels: Option<i64>,
}

/// Arguments of a `scopes` request.
#[derive(Debug, Clone, Copy, PartialEq, Eq)]
pub struct ScopesArguments {
    pub frame_id: i64,
}

/// Arguments of a `variables` request.
#[derive(Debug, Clone, Copy, PartialEq, Eq)]
pub struct VariablesArguments {
    pub variables_reference: i64,
    pub start: Option<i64>,
    pub count: Option<i64>,
}

/// Arguments of a `disconnect` request: what the client intends for the
/// debuggee.
#[derive(Debug, Clone, Copy, PartialEq, Eq)]
pub struct DisconnectArguments {
    pub restart: Option<bool>,
    pub terminate_debuggee: Option<bool>,
    pub suspend_debuggee: Option<bool>,
}

/// The command of a request, with its arguments. `Other` stands for every
/// command that the session does not support, and carries its tag.
#[derive(Debug, PartialEq, Eq)]
pub enum Command {
    Attach(AttachRequestArguments),
    ConfigurationDone,
    Continue(ContinueArguments),
    Disconnect(DisconnectArguments),
    Initialize(InitializeArguments),
    Launch(LaunchRequestArguments),
    Pause(PauseArguments),
    Restart(RestartArguments),
    Scopes(ScopesArguments),
    SetBreakpoints(SetBreakpointsArguments),
    SetExceptionBreakpoints(SetExceptionBreakpointsArguments),
    StackTrace(StackTraceArguments),
    Threads,
    Variables(VariablesArguments),
    Other(String),
}

impl Command {
    /// The tag by which the protocol names this command.
    pub open spec fn tag(self) -> Seq<char> {
        match self {
            Command::Attach(_) => "attach"@,
            Command::ConfigurationDone => "configurationDone"@,
            Command::Continue(_) => "continue"@,
            Command::Disconnect(_) => "disconnect"@,
            Command::Initialize(_) => "initialize"@,
            Command::Launch(_) => "launch"@,
            Command::Pause(_) => "pause"@,
            Command::Restart(_) => "restart"@,
            Command::Scopes(_) => "scopes"@,
            Command::SetBreakpoints(_) => "setBreakpoints"@,
            Command::SetExceptionBreakpoints(_) => "setExceptionBreakpoints"@,
            Command::StackTrace(_) => "stackTrace"@,
            Command::Threads => "threads"@,
            Command::Variables(_) => "variables"@,
            Command::Other(tag) => tag@,
        }
    }

    /// Whether the session has a handler for this command.
    pub open spec fn supported(self) -> bool {
        !(self is Other)
    }

    /// The tag by which the protocol names this command.
    pub fn name(&self) -> (name: String)
        ensures
            name@ == self.tag(),
    {
        match self {
            Command::Attach(_) => String::from_str("attach"),
            Command::ConfigurationDone => String::from_str("configurationDone"),
            Command::Continue(_) => String::from_str("continue"),
            Command::Disconnect(_) => String::from_str("disconnect"),
            Command::Initialize(_) => String::from_str("initialize"),
            Command::Launch(_) => String::from_str("launch"),
            Command::Pause(_) => String::from_str("pause"),
            Command::Restart(_) => String::from_str("restart"),
            Command::Scopes(_) => String::from_str("scopes"),
            Command::SetBreakpoints(_) => String::from_str("setBreakpoints"),
            Command::SetExceptionBreakpoints(_) => String::from_str("setExceptionBreakpoints"),
            Command::StackTrace(_) => String::from_str("stackTrace"),
            Command::Threads => String::from_str("threads"),
            Command::Variables(_) => String::from_str("variables"),
            Command::Other(tag) => tag.clone(),
        }
    }
}

/// A decoded request: its sequence number and its command.
#[derive(Debug, PartialEq, Eq)]
pub struct Request {
    pub seq: i64,
    pub command: Command,
}

impl Request {
    /// The successful answer to this request that carries `body`.
    pub fn success(&self, body: ResponseBody) -> (response: Response)
        ensures
            response@ == ResponseView::success(self.seq, body@),
    {
        Response { request_seq: self.seq, success: true, message: None, body: Some(body) }
    }

    /// The failed answer to this request that explains itself with `error`.
    pub fn error(&self, error: &str) -> (response: Response)
        ensures
            response@ == ResponseView::failure(self.seq, error@),
    {
        Response {
            request_seq: self.seq,
            success: false,
            message: Some(String::from_str(error)),
            body: None,
        }
    }
}

} // verus!
