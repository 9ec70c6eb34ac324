//! The state of one debug session: thread identity, the source last named,
//! the stop location, and the breakpoint registry.

use crate::types::{Source, SourceView};
use vstd::prelude::*;

verus! {

/// Identifier of the one thread that a session reports.
pub const MAIN_THREAD_ID: i64 = 1;

/// Handle of the one variable scope that a session reports.
pub const VARS_REF: i64 = 2000;

/// The state of a session. It is created once, with [`DapState::new`], and
/// changed only by the methods below. The registry is a list of entries, a
/// path with its lines, read so that the last entry for a path stands for
/// that path. A path that has an entry gets no second one: its entry is
/// replaced.
#[derive(Debug)]
pub struct DapState {
    main_thread_id: i64,
    current_source: Option<Source>,
    stopped_line: i64,
    stopped_column: i64,
    breakpoints_by_path: Vec<(String, Vec<i64>)>,
    vars_ref: i64,
}

/// The registry that a list of entries makes: each path mapped to the lines
/// of the last entry for it.
spec fn registry_of(entries: Seq<(String, Vec<i64>)>) -> Map<Seq<char>, Seq<i64>>
    decreases entries.len(),
{
    if entries.len() == 0 {
        Map::empty()
    } else {
        registry_of(entries.drop_last()).insert(entries.last().0@, entries.last().1@)
    }
}

/// Whether the entry at `at` is the last entry of `entries` for `path`.
spec fn last_entry_for(entries: Seq<(String, Vec<i64>)>, path: Seq<char>, at: int) -> bool {
    &&& 0 <= at < entries.len()
    &&& entries[at].0@ == path
    &&& forall|j: int| at < j < entries.len() ==> (#[trigger] entries[j]).0@ != path
}

/// Whether `entries` has no entry for `path`.
spec fn no_entry_for(entries: Seq<(String, Vec<i64>)>, path: Seq<char>) -> bool {
    forall|j: int| 0 <= j < entries.len() ==> (#[trigger] entries[j]).0@ != path
}

/// The registry maps a path to the lines of its last entry.
proof fn lemma_registry_holds_last_entry(
    entries: Seq<(String, Vec<i64>)>,
    path: Seq<char>,
    at: int,
)
    requires
        last_entry_for(entries, path, at),
    ensures
        registry_of(entries).contains_key(path),
        registry_of(entries)[path] == entries[at].1@,
    decreases entries.len(),
{
    if at < entries.len() - 1 {
        lemma_registry_holds_last_entry(entries.drop_last(), path, at);
    }
}

/// The registry has no lines for a path without an entry.
proof fn lemma_registry_lacks_missing_path(entries: Seq<(String, Vec<i64>)>, path: Seq<char>)
    requires
        no_entry_for(entries, path),
    ensures
        !registry_of(entries).contains_key(path),
    decreases entries.len(),
{
    if entries.len() > 0 {
        lemma_registry_lacks_missing_path(entries.drop_last(), path);
    }
}

/// Replacing the last entry for a path replaces the lines of that path and
/// nothing else.
proof fn lemma_registry_after_replacing(
    entries: Seq<(String, Vec<i64>)>,
    at: int,
    entry: (String, Vec<i64>),
)
    requires
        last_entry_for(entries, entry.0@, at),
    ensures
        registry_of(entries.update(at, entry)) == registry_of(entries).insert(
            entry.0@,
            entry.1@,
        ),
    decreases entries.len(),
{
    let replaced = entries.update(at, entry);
    if at == entries.len() - 1 {
        assert(replaced.drop_last() =~= entries.drop_last());
    } else {
        assert(replaced.drop_last() =~= entries.drop_last().update(at, entry));
        lemma_registry_after_replacing(entries.drop_last(), at, entry);
    }
}

/// Mathematical model of a [`DapState`]. The registry maps a path to the
/// lines asked for in it, in the order asked.
pub struct DapStateView {
    pub main_thread_id: i64,
    pub current_source: Option<SourceView>,
    pub stopped_line: i64,
    pub stopped_column: i64,
    pub breakpoints_by_path: Map<Seq<char>, Seq<i64>>,
    pub vars_ref: i64,
}

impl DapStateView {
    /// The state of a session that has seen no request.
    pub open spec fn initial() -> DapStateView {
        DapStateView {
            main_thread_id: MAIN_THREAD_ID,
            current_source: None,
            stopped_line: 1,
            stopped_column: 1,
            breakpoints_by_path: Map::empty(),
            vars_ref: VARS_REF,
        }
    }

    /// The lines registered for the path of the current source: `None` where
    /// there is no current source, where it has no path, or where nothing was
    /// ever registered for its path.
    pub open spec fn current_lines(self) -> Option<Seq<i64>> {
        match self.current_source {
            Some(source) => match source.path {
                Some(path) => if self.breakpoints_by_path.contains_key(path) {
                    Some(self.breakpoints_by_path[path])
                } else {
                    None
                },
                None => None,
            },
            None => None,
        }
    }

    /// Line and column at which the session would stop now: the first line
    /// registered for the current source, in column 1; line 1, column 1 where
    /// there is none.
    pub open spec fn stop_location(self) -> (i64, i64) {
        match self.current_lines() {
            Some(lines) => if lines.len() > 0 {
                (lines[0], 1i64)
            } else {
                (1i64, 1i64)
            },
            None => (1i64, 1i64),
        }
    }

    /// This state with `source` as the current source.
    pub open spec fn with_source(self, source: SourceView) -> DapStateView {
        DapStateView { current_source: Some(source), ..self }
    }

    /// This state with `lines` as the whole entry of `path` in the registry.
    pub open spec fn with_breakpoints(self, path: Seq<char>, lines: Seq<i64>) -> DapStateView {
        DapStateView { breakpoints_by_path: self.breakpoints_by_path.insert(path, lines), ..self }
    }

    /// This state with the stop location computed anew.
    pub open spec fn relocated(self) -> DapStateView {
        DapStateView {
            stopped_line: self.stop_location().0,
            stopped_column: self.stop_location().1,
            ..self
        }
    }
}

impl View for DapState {
    type V = DapStateView;

    closed spec fn view(&self) -> DapStateView {
        DapStateView {
            main_thread_id: self.main_thread_id,
            current_source: self.current_source.deep_view(),
            stopped_line: self.stopped_line,
            stopped_column: self.stopped_column,
            breakpoints_by_path: registry_of(self.breakpoints_by_path@),
            vars_ref: self.vars_ref,
        }
    }
}

impl DapState {
    /// The state of a session that has seen no request.
    pub fn new() -> (state: Self)
        ensures
            state@ == DapStateView::initial(),
    {
        let state = Self {
            main_thread_id: MAIN_THREAD_ID,
            current_source: None,
            stopped_line: 1,
            stopped_column: 1,
            breakpoints_by_path: Vec::new(),
            vars_ref: VARS_REF,
        };
        state
    }

    /// Where the last entry for `path` stands in the registry, if there is
    /// an entry for it.
    fn position(&self, path: &str) -> (found: Option<usize>)
        ensures
            match found {
                Some(at) => last_entry_for(self.breakpoints_by_path@, path@, at as int),
                None => no_entry_for(self.breakpoints_by_path@, path@),
            },
    {
        let wanted = String::from_str(path);
        let mut i: usize = self.breakpoints_by_path.len();
        while i > 0
            invariant
                i <= self.breakpoints_by_path.len(),
                wanted@ == path@,
                forall|j: int|
                    i <= j < self.breakpoints_by_path.len() ==> (
                    #[trigger] self.breakpoints_by_path@[j]).0@ != path@,
            decreases i,
        {
            i = i - 1;
            if self.breakpoints_by_path[i].0 == wanted {
                return Some(i);
            }
        }
        None
    }

    /// Line and column at which the session would stop now. Nothing is
    /// changed: the stop location that the state holds stays as it is.
    pub fn stop_location(&self) -> (location: (i64, i64))
        ensures
            location == self@.stop_location(),
    {
        if let Some(source) = &self.current_source {
            if let Some(path) = &source.path {
                if let Some(lines) = self.breakpoints_for(path.as_str()) {
                    if lines.len() > 0 {
                        return (lines[0], 1);
                    }
                }
            }
        }
        (1, 1)
    }

    /// Computes the stop location anew from the registry and the current
    /// source, and stores it.
    pub fn pick_stop_location(&mut self)
        ensures
            final(self)@ == old(self)@.relocated(),
    {
        let (line, column) = self.stop_location();
        self.stopped_line = line;
        self.stopped_column = column;
    }

    /// Makes `source` the current source; the one before is forgotten.
    pub fn set_current_source(&mut self, source: Source)
        ensures
            final(self)@ == old(self)@.with_source(source@),
    {
        self.current_source = Some(source);
    }

    /// Makes `lines` the whole entry of `path` in the registry; what was
    /// registered for `path` before is forgotten.
    pub fn set_breakpoints(&mut self, path: String, lines: Vec<i64>)
        ensures
            final(self)@ == old(self)@.with_breakpoints(path@, lines@),
    {
        match self.position(path.as_str()) {
            Some(at) => {
                proof {
                    lemma_registry_after_replacing(self.breakpoints_by_path@, at as int, (path, lines));
                }
                self.breakpoints_by_path.set(at, (path, lines));
            },
            None => {
                proof {
                    assert(self.breakpoints_by_path@.push((path, lines)).drop_last()
                        =~= self.breakpoints_by_path@);
                }
                self.breakpoints_by_path.push((path, lines));
            },
        }
    }

    /// Identifier of the session's one thread.
    pub fn main_thread_id(&self) -> (id: i64)
        ensures
            id == self@.main_thread_id,
    {
        self.main_thread_id
    }

    /// Handle of the session's one variable scope.
    pub fn vars_ref(&self) -> (handle: i64)
        ensures
            handle == self@.vars_ref,
    {
        self.vars_ref
    }

    /// Line of the stop location.
    pub fn stopped_line(&self) -> (line: i64)
        ensures
            line == self@.stopped_line,
    {
        self.stopped_line
    }

    /// Column of the stop location.
    pub fn stopped_column(&self) -> (column: i64)
        ensures
            column == self@.stopped_column,
    {
        self.stopped_column
    }

    /// The source that the last `setBreakpoints` request named, if there was
    /// one.
    pub fn current_source(&self) -> (source: Option<&Source>)
        ensures
            source.deep_view() == self@.current_source,
    {
        self.current_source.as_ref()
    }

    /// The lines registered for `path`, if anything was registered for it.
    pub fn breakpoints_for(&self, path: &str) -> (lines: Option<&Vec<i64>>)
        ensures
            match lines {
                Some(found) => self@.breakpoints_by_path.contains_key(path@)
                    && self@.breakpoints_by_path[path@] == found@,
                None => !self@.breakpoints_by_path.contains_key(path@),
            },
    {
        match self.position(path) {
            Some(at) => {
                proof {
                    lemma_registry_holds_last_entry(self.breakpoints_by_path@, path@, at as int);
                }
                Some(&self.breakpoints_by_path[at].1)
            },
            None => {
                proof {
                    lemma_registry_lacks_missing_path(self.breakpoints_by_path@, path@);
                }
                None
            },
        }
    }
}

} // verus!
