//! Responses: what the adapter answers to a request.

use crate::types::{
    Breakpoint, BreakpointView, Capabilities, Scope, ScopeView, StackFrame, StackFrameView, Thread,
    ThreadView, Variable, VariableView,
};
use vstd::prelude::*;

verus! {

/// Body of the answer to a `continue` request.
#[derive(Debug, Clone, Copy, PartialEq, Eq)]
pub struct ContinueResponse {
    pub all_threads_continued: Option<bool>,
}

/// Body of the answer to a `scopes` request.
#[derive(Debug, Clone, PartialEq, Eq)]
pub struct ScopesResponse {
    pub scopes: Vec<Scope>,
}

/// Body of the answer to a `setBreakpoints` request: one entry for each
/// breakpoint asked for, in the order asked.
#[derive(Debug, Clone, PartialEq, Eq)]
pub struct SetBreakpointsResponse {
    pub breakpoints: Vec<Breakpoint>,
}

/// Body of the answer to a `setExceptionBreakpoints` request.
#[derive(Debug, Clone, PartialEq, Eq)]
pub struct SetExceptionBreakpointsResponse {
    pub breakpoints: Option<Vec<Breakpoint>>,
}

/// Body of the answer to a `stackTrace` request.
#[derive(Debug, Clone, PartialEq, Eq)]
pub struct StackTraceResponse {
    pub stack_frames: Vec<StackFrame>,
    pub total_frames: Option<i64>,
}

/// Body of the answer to a `threads` request.
#[derive(Debug, Clone, PartialEq, Eq)]
pub struct ThreadsResponse {
    pub threads: Vec<Thread>,
}

/// Body of the answer to a `variables` request.
#[derive(Debug, Clone, PartialEq, Eq)]
pub struct VariablesResponse {
    pub variables: Vec<Variable>,
}

/// The body of a successful response, by the command it answers.
#[derive(Debug, Clone, PartialEq, Eq)]
pub enum ResponseBody {
    Attach,
    ConfigurationDone,
    Continue(ContinueResponse),
    Disconnect,
    Initialize(Capabilities),
    Launch,
    Pause,
    Restart,
    Scopes(ScopesResponse),
    SetBreakpoints(SetBreakpointsResponse),
    SetExceptionBreakpoints(SetExceptionBreakpointsResponse),
    StackTrace(StackTraceResponse),
    Threads(ThreadsResponse),
    Variables(VariablesResponse),
}

/// Mathematical model of a [`ResponseBody`].
pub enum ResponseBodyView {
    Attach,
    ConfigurationDone,
    Continue { all_threads_continued: Option<bool> },
    Disconnect,
    Initialize(Capabilities),
    Launch,
    Pause,
    Restart,
    Scopes(Seq<ScopeView>),
    SetBreakpoints(Seq<BreakpointView>),
    SetExceptionBreakpoints(Option<Seq<BreakpointView>>),
    StackTrace { stack_frames: Seq<StackFrameView>, total_frames: Option<i64> },
    Threads(Seq<ThreadView>),
    Variables(Seq<VariableView>),
}

impl View for ResponseBody {
    type V = ResponseBodyView;

    open spec fn view(&self) -> ResponseBodyView {
        match self {
            ResponseBody::Attach => ResponseBodyView::Attach,
            ResponseBody::ConfigurationDone => ResponseBodyView::ConfigurationDone,
            ResponseBody::Continue(body) => ResponseBodyView::Continue {
                all_threads_continued: body.all_threads_continued,
            },
            ResponseBody::Disconnect => ResponseBodyView::Disconnect,
            ResponseBody::Initialize(capabilities) => ResponseBodyView::Initialize(*capabilities),
            ResponseBody::Launch => ResponseBodyView::Launch,
            ResponseBody::Pause => ResponseBodyView::Pause,
            ResponseBody::Restart => ResponseBodyView::Restart,
            ResponseBody::Scopes(body) => ResponseBodyView::Scopes(body.scopes.deep_view()),
            ResponseBody::SetBreakpoints(body) => ResponseBodyView::SetBreakpoints(
                body.breakpoints.deep_view(),
            ),
            ResponseBody::SetExceptionBreakpoints(body) => {
                ResponseBodyView::SetExceptionBreakpoints(body.breakpoints.deep_view())
            },
            ResponseBody::StackTrace(body) => ResponseBodyView::StackTrace {
                stack_frames: body.stack_frames.deep_view(),
                total_frames: body.total_frames,
            },
            ResponseBody::Threads(body) => ResponseBodyView::Threads(body.threads.deep_view()),
            ResponseBody::Variables(body) => ResponseBodyView::Variables(
                body.variables.deep_view(),
            ),
        }
    }
}

impl DeepView for ResponseBody {
    type V = ResponseBodyView;

    open spec fn deep_view(&self) -> ResponseBodyView {
        self@
    }
}

/// The answer to one request. `request_seq` is the sequence number of the
/// request answered; `message` explains a failure.
#[derive(Debug, Clone, PartialEq, Eq)]
pub struct Response {
    pub request_seq: i64,
    pub success: bool,
    pub message: Option<String>,
    pub body: Option<ResponseBody>,
}

/// Mathematical model of a [`Response`].
pub struct ResponseView {
    pub request_seq: i64,
    pub success: bool,
    pub message: Option<Seq<char>>,
    pub body: Option<ResponseBodyView>,
}

impl View for Response {
    type V = ResponseView;

    open spec fn view(&self) -> ResponseView {
        ResponseView {
            request_seq: self.request_seq,
            success: self.success,
            message: self.message.deep_view(),
            body: self.body.deep_view(),
        }
    }
}

impl ResponseView {
    /// The successful answer to request `seq` that carries `body`.
    pub open spec fn success(seq: i64, body: ResponseBodyView) -> ResponseView {
        ResponseView { request_seq: seq, success: true, message: None, body: Some(body) }
    }

    /// The failed answer to request `seq` that explains itself with `message`.
    pub open spec fn failure(seq: i64, message: Seq<char>) -> ResponseView {
        ResponseView { request_seq: seq, success: false, message: Some(message), body: None }
    }
}

} // verus!
