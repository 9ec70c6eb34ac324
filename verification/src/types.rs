//! Data types of the protocol that requests, responses and events share.
//!
//! Each type that owns text has a mathematical model (`...View`) in which a
//! string is a `Seq<char>` and a vector is a `Seq`. Contracts speak of the
//! models; the executable types are what callers build and read.

use crate::json::{Json, JsonView};
use vstd::prelude::*;

verus! {

/// How a client is asked to show a source.
#[derive(Debug, Clone, Copy, PartialEq, Eq)]
pub enum PresentationHint {
    Normal,
    Emphasize,
    DeEmphasize,
}

/// The algorithm by which a checksum was computed.
#[derive(Debug, Clone, Copy, PartialEq, Eq)]
pub enum ChecksumAlgorithm {
    MD5,
    SHA1,
    SHA256,
    Timestamp,
}

/// The checksum of a source.
#[derive(Debug, PartialEq, Eq)]
pub struct Checksum {
    pub algorithm: ChecksumAlgorithm,
    pub checksum: String,
}

/// Mathematical model of a [`Checksum`].
pub struct ChecksumView {
    pub algorithm: ChecksumAlgorithm,
    pub checksum: Seq<char>,
}

impl View for Checksum {
    type V = ChecksumView;

    open spec fn view(&self) -> ChecksumView {
        ChecksumView { algorithm: self.algorithm, checksum: self.checksum@ }
    }
}

impl DeepView for Checksum {
    type V = ChecksumView;

    open spec fn deep_view(&self) -> ChecksumView {
        self@
    }
}

impl Clone for Checksum {
    fn clone(&self) -> (res: Self)
        ensures
            res == *self,
    {
        Checksum { algorithm: self.algorithm, checksum: self.checksum.clone() }
    }
}

/// A source descriptor: a display name, a filesystem path, or neither, and
/// what else a client says of the source to have it said back: a reference,
/// a hint, an origin, the sources it is made of, the data that an adapter
/// attached, and checksums.
#[derive(Debug, PartialEq, Eq)]
pub struct Source {
    pub name: Option<String>,
    pub path: Option<String>,
    pub source_reference: Option<i32>,
    pub presentation_hint: Option<PresentationHint>,
    pub origin: Option<String>,
    pub sources: Option<Vec<Source>>,
    pub adapter_data: Option<Json>,
    pub checksums: Option<Vec<Checksum>>,
}

/// Mathematical model of a [`Source`].
pub struct SourceView {
    pub name: Option<Seq<char>>,
    pub path: Option<Seq<char>>,
    pub source_reference: Option<i32>,
    pub presentation_hint: Option<PresentationHint>,
    pub origin: Option<Seq<char>>,
    pub sources: Option<Seq<SourceView>>,
    pub adapter_data: Option<JsonView>,
    pub checksums: Option<Seq<ChecksumView>>,
}

/// The model of `source`: its own fields, and the models of the sources it
/// is made of, in their order.
pub open spec fn source_model(source: Source) -> SourceView
    decreases source,
{
    SourceView {
        name: source.name.deep_view(),
        path: source.path.deep_view(),
        source_reference: source.source_reference,
        presentation_hint: source.presentation_hint,
        origin: source.origin.deep_view(),
        sources: match source.sources {
            Some(parts) => Some(
                Seq::new(
                    parts@.len(),
                    |i: int|
                        if 0 <= i < parts@.len() {
                            source_model(parts@[i])
                        } else {
                            arbitrary()
                        },
                ),
            ),
            None => None,
        },
        adapter_data: source.adapter_data.deep_view(),
        checksums: source.checksums.deep_view(),
    }
}

impl SourceView {
    /// The descriptor that says nothing: it has neither name nor path, and
    /// nothing else.
    pub open spec fn unnamed() -> SourceView {
        SourceView {
            name: None,
            path: None,
            source_reference: None,
            presentation_hint: None,
            origin: None,
            sources: None,
            adapter_data: None,
            checksums: None,
        }
    }
}

impl View for Source {
    type V = SourceView;

    open spec fn view(&self) -> SourceView {
        source_model(*self)
    }
}

impl DeepView for Source {
    type V = SourceView;

    open spec fn deep_view(&self) -> SourceView {
        source_model(*self)
    }
}

impl Default for Source {
    /// The descriptor that says nothing.
    fn default() -> (source: Self)
        ensures
            source@ == SourceView::unnamed(),
    {
        Source {
            name: None,
            path: None,
            source_reference: None,
            presentation_hint: None,
            origin: None,
            sources: None,
            adapter_data: None,
            checksums: None,
        }
    }
}

/// A copy of `text` where there is one.
fn copy_of(text: &Option<String>) -> (copy: Option<String>)
    ensures
        copy == *text,
{
    match text {
        Some(t) => Some(t.clone()),
        None => None,
    }
}

impl Clone for Source {
    fn clone(&self) -> (res: Self)
        ensures
            res@ == self@,
        decreases self,
    {
        let sources = match &self.sources {
            Some(parts) => {
                let mut copies: Vec<Source> = Vec::new();
                let mut i: usize = 0;
                while i < parts.len()
                    invariant
                        i <= parts.len(),
                        self.sources == Some(*parts),
                        copies@.len() == i,
                        forall|j: int|
                            0 <= j < i ==> source_model(copies@[j]) == source_model(parts@[j]),
                    decreases parts.len() - i,
                {
                    proof {
                        vstd::std_specs::vec::axiom_vec_index_decreases(*parts, i as int);
                        assert(decreases_to!(self.sources => self.sources->0));
                    }
                    copies.push(parts[i].clone());
                    i = i + 1;
                }
                Some(copies)
            },
            None => None,
        };
        let adapter_data = match &self.adapter_data {
            Some(data) => Some(data.clone()),
            None => None,
        };
        let checksums = match &self.checksums {
            Some(list) => {
                let mut copies: Vec<Checksum> = Vec::new();
                let mut i: usize = 0;
                while i < list.len()
                    invariant
                        i <= list.len(),
                        copies@.len() == i,
                        forall|j: int| 0 <= j < i ==> copies@[j] == list@[j],
                    decreases list.len() - i,
                {
                    copies.push(list[i].clone());
                    i = i + 1;
                }
                assert(copies.deep_view() =~= list.deep_view());
                Some(copies)
            },
            None => None,
        };
        let res = Source {
            name: copy_of(&self.name),
            path: copy_of(&self.path),
            source_reference: self.source_reference,
            presentation_hint: self.presentation_hint,
            origin: copy_of(&self.origin),
            sources,
            adapter_data,
            checksums,
        };
        proof {
            if self.sources is Some {
                assert(source_model(res).sources->0 =~= source_model(*self).sources->0);
            }
        }
        res
    }
}

/// One breakpoint as a client asks for it: a line, and optionally a column
/// and the conditions under which it should hit.
#[derive(Debug, Clone, PartialEq, Eq)]
pub struct SourceBreakpoint {
    pub line: i64,
    pub column: Option<i64>,
    pub condition: Option<String>,
    pub hit_condition: Option<String>,
    pub log_message: Option<String>,
}

/// One breakpoint as the adapter reports it back.
#[derive(Debug, Clone, PartialEq, Eq)]
pub struct Breakpoint {
    pub id: Option<i64>,
    pub verified: bool,
    pub message: Option<String>,
    pub source: Option<Source>,
    pub line: Option<i64>,
    pub column: Option<i64>,
    pub end_line: Option<i64>,
    pub end_column: Option<i64>,
    pub instruction_reference: Option<String>,
    pub offset: Option<i64>,
}

/// Mathematical model of a [`Breakpoint`].
pub struct BreakpointView {
    pub id: Option<i64>,
    pub verified: bool,
    pub message: Option<Seq<char>>,
    pub source: Option<SourceView>,
    pub line: Option<i64>,
    pub column: Option<i64>,
    pub end_line: Option<i64>,
    pub end_column: Option<i64>,
    pub instruction_reference: Option<Seq<char>>,
    pub offset: Option<i64>,
}

impl View for Breakpoint {
    type V = BreakpointView;

    open spec fn view(&self) -> BreakpointView {
        BreakpointView {
            id: self.id,
            verified: self.verified,
            message: self.message.deep_view(),
            source: self.source.deep_view(),
            line: self.line,
            column: self.column,
            end_line: self.end_line,
            end_column: self.end_column,
            instruction_reference: self.instruction_reference.deep_view(),
            offset: self.offset,
        }
    }
}

impl DeepView for Breakpoint {
    type V = BreakpointView;

    open spec fn deep_view(&self) -> BreakpointView {
        self@
    }
}

/// The capability flags that the adapter declares when a session starts.
/// A flag that is `None` is left undeclared.
#[derive(Debug, Clone, Copy, PartialEq, Eq)]
pub struct Capabilities {
    pub supports_configuration_done_request: Option<bool>,
    pub supports_set_variable: Option<bool>,
    pub supports_step_back: Option<bool>,
    pub supports_restart_frame: Option<bool>,
    pub supports_goto_targets_request: Option<bool>,
    pub supports_conditional_breakpoints: Option<bool>,
    pub supports_hit_conditional_breakpoints: Option<bool>,
    pub supports_terminate_request: Option<bool>,
    pub supports_evaluate_for_hovers: Option<bool>,
}

/// A thread of the debuggee.
#[derive(Debug, Clone, PartialEq, Eq)]
pub struct Thread {
    pub id: i64,
    pub name: String,
}

/// Mathematical model of a [`Thread`].
pub struct ThreadView {
    pub id: i64,
    pub name: Seq<char>,
}

impl View for Thread {
    type V = ThreadView;

    open spec fn view(&self) -> ThreadView {
        ThreadView { id: self.id, name: self.name@ }
    }
}

impl DeepView for Thread {
    type V = ThreadView;

    open spec fn deep_view(&self) -> ThreadView {
        self@
    }
}

/// A frame of the call stack at the place where the debuggee stopped.
#[derive(Debug, Clone, PartialEq, Eq)]
pub struct StackFrame {
    pub id: i64,
    pub name: String,
    pub source: Option<Source>,
    pub line: i64,
    pub column: i64,
}

/// Mathematical model of a [`StackFrame`].
pub struct StackFrameView {
    pub id: i64,
    pub name: Seq<char>,
    pub source: Option<SourceView>,
    pub line: i64,
    pub column: i64,
}

impl View for StackFrame {
    type V = StackFrameView;

    open spec fn view(&self) -> StackFrameView {
        StackFrameView {
            id: self.id,
            name: self.name@,
            source: self.source.deep_view(),
            line: self.line,
            column: self.column,
        }
    }
}

impl DeepView for StackFrame {
    type V = StackFrameView;

    open spec fn deep_view(&self) -> StackFrameView {
        self@
    }
}

/// A named container of variables within a stack frame.
#[derive(Debug, Clone, PartialEq, Eq)]
pub struct Scope {
    pub name: String,
    pub variables_reference: i64,
    pub expensive: bool,
}

/// Mathematical model of a [`Scope`].
pub struct ScopeView {
    pub name: Seq<char>,
    pub variables_reference: i64,
    pub expensive: bool,
}

impl View for Scope {
    type V = ScopeView;

    open spec fn view(&self) -> ScopeView {
        ScopeView {
            name: self.name@,
            variables_reference: self.variables_reference,
            expensive: self.expensive,
        }
    }
}

impl DeepView for Scope {
    type V = ScopeView;

    open spec fn deep_view(&self) -> ScopeView {
        self@
    }
}

/// A variable as shown to the client: its name, its value as text, its
/// declared type and the expression that evaluates to it.
#[derive(Debug, Clone, PartialEq, Eq)]
pub struct Variable {
    pub name: String,
    pub value: String,
    pub type_field: Option<String>,
    pub evaluate_name: Option<String>,
    pub variables_reference: i64,
}

/// Mathematical model of a [`Variable`].
pub struct VariableView {
    pub name: Seq<char>,
    pub value: Seq<char>,
    pub type_field: Option<Seq<char>>,
    pub evaluate_name: Option<Seq<char>>,
    pub variables_reference: i64,
}

impl View for Variable {
    type V = VariableView;

    open spec fn view(&self) -> VariableView {
        VariableView {
            name: self.name@,
            value: self.value@,
            type_field: self.type_field.deep_view(),
            evaluate_name: self.evaluate_name.deep_view(),
            variables_reference: self.variables_reference,
        }
    }
}

impl DeepView for Variable {
    type V = VariableView;

    open spec fn deep_view(&self) -> VariableView {
        self@
    }
}

/// Why the debuggee stopped.
#[derive(Debug, Clone, Copy, PartialEq, Eq)]
pub enum StoppedEventReason {
    Step,
    Breakpoint,
    Exception,
    Pause,
    Entry,
    Goto,
    Function,
    Data,
    Instruction,
}

} // verus!
